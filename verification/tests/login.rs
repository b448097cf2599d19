use free_storage::login::{
    login, AccessError, AccessToken, DeviceFlow, LoginStep, Polling, PollingStart,
};
use free_storage::request::{Method, Payload, Request};

fn flow() -> DeviceFlow {
    DeviceFlow {
        device_code: "device".to_string(),
        user_code: "ABCD-1234".to_string(),
        verification_uri: "https://github.com/login/device".to_string(),
        expires_in: 900,
        interval: 5,
    }
}

fn json(request: &Request) -> Vec<(&str, &str)> {
    match &request.payload {
        Payload::Json(members) => members
            .iter()
            .map(|(name, value)| (name.as_str(), value.as_str()))
            .collect(),
        other => panic!("{other:?}"),
    }
}

fn polls(step: LoginStep) -> Polling {
    match step {
        LoginStep::AskToken { polling, request } => {
            assert_eq!(request.method, Method::Post);
            assert_eq!(request.url, "https://github.com/login/oauth/access_token");
            assert_eq!(
                request.headers,
                vec![("accept".to_string(), "application/json".to_string())]
            );
            assert_eq!(
                json(&request),
                vec![
                    ("client_id", "7b0a933c618e69b8f1b9"),
                    ("device_code", "device"),
                    ("grant_type", "urn:ietf:params:oauth:grant-type:device_code"),
                ]
            );
            polling
        }
        other => panic!("{other:?}"),
    }
}

fn pending() -> AccessToken {
    AccessToken::Error {
        error: AccessError::AuthorizationPending,
    }
}

#[test]
fn given_token_is_stored() {
    match login(Some("mine".to_string())) {
        LoginStep::Store(token) => assert_eq!(token, "mine"),
        other => panic!("{other:?}"),
    }
}

#[test]
fn code_is_asked_for() {
    match login(None) {
        LoginStep::AskCode(request) => {
            assert_eq!(request.method, Method::Post);
            assert_eq!(request.url, "https://github.com/login/device/code");
            assert_eq!(
                request.headers,
                vec![("accept".to_string(), "application/json".to_string())]
            );
            assert_eq!(
                json(&request),
                vec![("client_id", "7b0a933c618e69b8f1b9"), ("scope", "repo")]
            );
        }
        other => panic!("{other:?}"),
    }
}

#[test]
fn user_is_told_where_to_go() {
    let PollingStart {
        prompt,
        period,
        step,
    } = flow().start_polling();
    assert_eq!(
        prompt,
        "Go to https://github.com/login/device and enter the code ABCD-1234"
    );
    assert_eq!(period, 6);
    polls(step);
}

#[test]
fn polling_goes_on_until_the_user_agrees() {
    let mut polling = polls(flow().start_polling().step);
    for _ in 0..3 {
        polling = polls(polling.on_answer(pending()));
    }
    match polling.on_answer(AccessToken::Success {
        access_token: "gho_token".to_string(),
    }) {
        LoginStep::Store(token) => assert_eq!(token, "gho_token"),
        other => panic!("{other:?}"),
    }
}

#[test]
fn refusal_ends_the_program() {
    let polling = polls(flow().start_polling().step);
    let polling = polls(polling.on_answer(pending()));
    match polling.on_answer(AccessToken::Error {
        error: AccessError::AccessDenied,
    }) {
        LoginStep::Exit { message, code } => {
            assert_eq!(message, "You denied access to your GitHub account");
            assert_eq!(code, 1);
        }
        other => panic!("{other:?}"),
    }
}

#[test]
fn answers_that_ask_to_slow_down_are_told_apart() {
    let slow = AccessToken::Error {
        error: AccessError::SlowDown { interval: 10 },
    };
    assert!(slow.is_slow_down());
    assert!(!pending().is_slow_down());
    let success = AccessToken::Success {
        access_token: String::new(),
    };
    assert!(!success.is_slow_down());
}
