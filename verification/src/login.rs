//! Logging in to GitHub.
//!
//! A token can be given. Otherwise it is asked for: GitHub hands out a code, the user enters it
//! on a page, and GitHub is asked again and again until the user has decided.

use vstd::prelude::*;
use vstd::string::*;
use crate::request;
use crate::request::{Method, Payload, PayloadView, Request, RequestView};
use crate::text;

verus! {

/// What GitHub answers when asked for a code.
#[derive(Debug)]
pub struct DeviceFlow {
    /// The device verification code is 40 characters and used to verify the device.
    pub device_code: String,
    /// The user verification code is displayed on the device so the user can enter the code in a
    /// browser. This code is 8 characters with a hyphen in the middle.
    pub user_code: String,
    /// The verification URL where users need to enter the `user_code`.
    pub verification_uri: String,
    /// The number of seconds before the `device_code` and `user_code` expire.
    pub expires_in: u64,
    /// The minimum number of seconds that must pass before a new access token request.
    pub interval: u64,
}

/// What GitHub answers when asked for a token.
#[derive(Debug)]
pub enum AccessToken {
    /// There is none.
    Error {
        /// Why.
        error: AccessError,
    },
    /// The user has agreed.
    Success {
        /// The token.
        access_token: String,
    },
}

/// Why there is no token.
#[derive(Clone, Copy, Debug)]
pub enum AccessError {
    /// The user hasn't entered the user code yet.
    AuthorizationPending,
    /// The requests came too fast.
    SlowDown {
        /// The seconds to leave between them from now on.
        interval: u8,
    },
    /// The user clicked cancel.
    AccessDenied,
}

/// A login that waits for the user to decide.
#[derive(Debug)]
pub struct Polling {
    device_code: String,
}

/// What a login wants done next.
#[derive(Debug)]
pub enum LoginStep {
    /// Store this token; the login is done.
    Store(String),
    /// Send the request; the login goes on with the code in the answer.
    AskCode(Request),
    /// Wait for the next tick, send the request, and go on with the answer.
    AskToken {
        /// The login that takes the answer.
        polling: Polling,
        /// What to send.
        request: Request,
    },
    /// Show the message, and exit with the code.
    Exit {
        /// What to show.
        message: String,
        /// The code of the process.
        code: i32,
    },
}

/// The start of asking for a token.
#[derive(Debug)]
pub struct PollingStart {
    /// What to tell the user.
    pub prompt: String,
    /// The seconds from one tick to the next. The first tick comes at once.
    pub period: u64,
    /// What to do first.
    pub step: LoginStep,
}

/// The view of an [`AccessToken`].
pub enum AccessTokenView {
    /// There is none.
    Error(AccessError),
    /// The token.
    Success(Seq<char>),
}

/// The view of a [`LoginStep`]. A login that waits is viewed as its device code.
#[verifier::ext_equal]
pub enum LoginStepView {
    /// Store this token.
    Store(Seq<char>),
    /// Ask for a code.
    AskCode(RequestView),
    /// Ask for the token.
    AskToken {
        /// The device code of the login that takes the answer.
        device_code: Seq<char>,
        /// What to send.
        request: RequestView,
    },
    /// Show the message and exit.
    Exit {
        /// What to show.
        message: Seq<char>,
        /// The code of the process.
        code: i32,
    },
}

impl View for AccessToken {
    type V = AccessTokenView;

    open spec fn view(&self) -> AccessTokenView {
        match *self {
            AccessToken::Error { error } => AccessTokenView::Error(error),
            AccessToken::Success { access_token } => AccessTokenView::Success(access_token@),
        }
    }
}

impl View for Polling {
    type V = Seq<char>;

    closed spec fn view(&self) -> Seq<char> {
        self.device_code@
    }
}

impl View for LoginStep {
    type V = LoginStepView;

    open spec fn view(&self) -> LoginStepView {
        match *self {
            LoginStep::Store(token) => LoginStepView::Store(token@),
            LoginStep::AskCode(request) => LoginStepView::AskCode(request@),
            LoginStep::AskToken { polling, request } => LoginStepView::AskToken {
                device_code: polling@,
                request: request@,
            },
            LoginStep::Exit { message, code } => LoginStepView::Exit { message: message@, code },
        }
    }
}

/// The identity of the program at GitHub.
pub open spec fn client_id() -> Seq<char> {
    "7b0a933c618e69b8f1b9"@
}

/// A request to the login pages with these members.
pub open spec fn login_request(
    url: Seq<char>,
    members: Seq<(Seq<char>, Seq<char>)>,
) -> RequestView {
    RequestView {
        method: Method::Post,
        url,
        headers: seq![("accept"@, "application/json"@)],
        payload: PayloadView::Json(members),
    }
}

/// Asks for a code.
pub open spec fn ask_code() -> RequestView {
    login_request(
        "https://github.com/login/device/code"@,
        seq![("client_id"@, client_id()), ("scope"@, "repo"@)],
    )
}

/// Asks for the token that belongs to a code.
pub open spec fn ask_token(device_code: Seq<char>) -> RequestView {
    login_request(
        "https://github.com/login/oauth/access_token"@,
        seq![
            ("client_id"@, client_id()),
            ("device_code"@, device_code),
            ("grant_type"@, "urn:ietf:params:oauth:grant-type:device_code"@),
        ],
    )
}

/// The step that asks for the token.
pub open spec fn polling_step(device_code: Seq<char>) -> LoginStepView {
    LoginStepView::AskToken { device_code, request: ask_token(device_code) }
}

/// The first step of a login.
pub open spec fn login_started(token: Option<Seq<char>>) -> LoginStepView {
    match token {
        Some(token) => LoginStepView::Store(token),
        None => LoginStepView::AskCode(ask_code()),
    }
}

/// True of an answer that says that the requests came too fast.
pub open spec fn is_slow_down(answer: AccessTokenView) -> bool {
    answer matches AccessTokenView::Error(error) && error is SlowDown
}

/// The step after an answer.
pub open spec fn after_token_answer(
    device_code: Seq<char>,
    answer: AccessTokenView,
) -> LoginStepView {
    match answer {
        AccessTokenView::Success(token) => LoginStepView::Store(token),
        AccessTokenView::Error(AccessError::AccessDenied) => LoginStepView::Exit {
            message: "You denied access to your GitHub account"@,
            code: 1,
        },
        AccessTokenView::Error(_) => polling_step(device_code),
    }
}

/// The request of [`login_request`].
fn make_login_request(url: &str, members: Vec<(String, String)>) -> (request: Request)
    ensures
        request@ == login_request(url@, request::pairs(members@)),
{
    Request {
        method: Method::Post,
        url: url.to_owned(),
        headers: request::one_pair("accept", "application/json"),
        payload: Payload::Json(members),
    }
}

/// The step of [`polling_step`].
fn ask_for_token(polling: Polling) -> (step: LoginStep)
    ensures
        step@ == polling_step(polling@),
{
    let mut members = request::one_pair("client_id", "7b0a933c618e69b8f1b9");
    request::push_pair(&mut members, "device_code", polling.device_code.as_str());
    request::push_pair(
        &mut members,
        "grant_type",
        "urn:ietf:params:oauth:grant-type:device_code",
    );
    assert(request::pairs(members@) =~= seq![
        ("client_id"@, client_id()),
        ("device_code"@, polling@),
        ("grant_type"@, "urn:ietf:params:oauth:grant-type:device_code"@),
    ]);
    let request = make_login_request("https://github.com/login/oauth/access_token", members);
    LoginStep::AskToken { polling, request }
}

/// Starts a login: with a token it is stored, without one a code is asked for.
pub fn login(token: Option<String>) -> (step: LoginStep)
    ensures
        step@ == login_started(text::option_text(token)),
{
    match token {
        Some(token) => LoginStep::Store(token),
        None => {
            let mut members = request::one_pair("client_id", "7b0a933c618e69b8f1b9");
            request::push_pair(&mut members, "scope", "repo");
            assert(request::pairs(members@) =~= seq![
                ("client_id"@, client_id()),
                ("scope"@, "repo"@),
            ]);
            LoginStep::AskCode(make_login_request("https://github.com/login/device/code", members))
        },
    }
}

impl DeviceFlow {
    /// Goes on with the code: what to tell the user, how long to wait between the requests, and
    /// the first of them.
    pub fn start_polling(self) -> (start: PollingStart)
        requires
            self.interval < u64::MAX,
        ensures
            start.prompt@ == "Go to "@ + self.verification_uri@ + " and enter the code "@
                + self.user_code@,
            start.period == self.interval + 1,
            start.step@ == polling_step(self.device_code@),
    {
        let prompt = "Go to ".to_owned().concat(self.verification_uri.as_str()).concat(
            " and enter the code ",
        ).concat(self.user_code.as_str());
        PollingStart {
            prompt,
            period: self.interval + 1,
            step: ask_for_token(Polling { device_code: self.device_code }),
        }
    }
}

impl AccessToken {
    /// True where the answer says that the requests came too fast.
    pub fn is_slow_down(&self) -> (yes: bool)
        ensures
            yes == is_slow_down(self@),
    {
        match self {
            AccessToken::Error { error: AccessError::SlowDown { .. } } => true,
            _ => false,
        }
    }
}

impl Polling {
    /// Goes on with an answer. The requests are far enough apart never to be too fast.
    pub fn on_answer(self, answer: AccessToken) -> (step: LoginStep)
        requires
            !is_slow_down(answer@),
        ensures
            step@ == after_token_answer(self@, answer@),
    {
        match answer {
            AccessToken::Success { access_token } => LoginStep::Store(access_token),
            AccessToken::Error { error: AccessError::AccessDenied } => LoginStep::Exit {
                message: "You denied access to your GitHub account".to_owned(),
                code: 1,
            },
            AccessToken::Error { .. } => ask_for_token(self),
        }
    }
}

/// A login that goes on after `answers`, from the first request for the token on.
pub open spec fn polled(device_code: Seq<char>, answers: Seq<AccessTokenView>) -> LoginStepView
    decreases answers.len(),
{
    if answers.len() == 0 {
        polling_step(device_code)
    } else {
        match polled(device_code, answers.drop_last()) {
            LoginStepView::AskToken { device_code, .. } => after_token_answer(
                device_code,
                answers.last(),
            ),
            ended => ended,
        }
    }
}

/// As long as the user has not decided, the same request is sent again; the first answer with a
/// decision ends the login, with the token stored or with the exit of the program.
pub proof fn polling_ends_with_the_decision(
    device_code: Seq<char>,
    pending: Seq<AccessTokenView>,
    decision: AccessTokenView,
)
    requires
        forall|i: int|
            0 <= i < pending.len() ==> #[trigger] pending[i] == AccessTokenView::Error(
                AccessError::AuthorizationPending,
            ),
    ensures
        polled(device_code, pending) == polling_step(device_code),
        decision matches AccessTokenView::Success(token) ==> polled(
            device_code,
            pending.push(decision),
        ) == LoginStepView::Store(token),
        decision == AccessTokenView::Error(AccessError::AccessDenied) ==> polled(
            device_code,
            pending.push(decision),
        ) is Exit,
    decreases pending.len(),
{
    if pending.len() > 0 {
        let front = pending.drop_last();
        polling_ends_with_the_decision(device_code, front, decision);
        assert(pending.last() == pending[pending.len() - 1]);
    }
    assert(pending.push(decision).drop_last() =~= pending);
}

/// The request for the token carries the whole device code, with the identity of the program and the
/// kind of the grant; so different codes are asked about with different requests.
pub proof fn whole_device_code_is_sent(device_code: Seq<char>, other: Seq<char>)
    ensures
        ask_token(device_code).method == Method::Post,
        ask_token(device_code).url == "https://github.com/login/oauth/access_token"@,
        ask_token(device_code).headers.len() == 1,
        ask_token(device_code).headers[0] == ("accept"@, "application/json"@),
        ask_token(device_code).payload matches PayloadView::Json(members) && members.len() == 3
            && members[0] == ("client_id"@, "7b0a933c618e69b8f1b9"@) && members[1] == (
            "device_code"@,
            device_code,
        ) && members[2] == ("grant_type"@, "urn:ietf:params:oauth:grant-type:device_code"@),
        device_code != other ==> ask_token(device_code) != ask_token(other),
{
    if ask_token(device_code) == ask_token(other) {
        assert(ask_token(device_code).payload->Json_0[1] == ask_token(other).payload->Json_0[1]);
    }
}

/// A code is asked for with the identity of the program, for the right to use repositories.
pub proof fn code_is_asked_for_repositories()
    ensures
        ask_code().method == Method::Post,
        ask_code().url == "https://github.com/login/device/code"@,
        ask_code().headers.len() == 1,
        ask_code().headers[0] == ("accept"@, "application/json"@),
        ask_code().payload matches PayloadView::Json(members) && members.len() == 2 && members[0] == (
            "client_id"@,
            "7b0a933c618e69b8f1b9"@,
        ) && members[1] == ("scope"@, "repo"@),
{
}

/// A token that is given is stored as it is, and nothing is asked for; only without one does the login
/// go through GitHub.
pub proof fn given_token_is_stored(token: Seq<char>)
    ensures
        login_started(Some(token)) == LoginStepView::Store(token),
        login_started(None) matches LoginStepView::AskCode(request) && request.url
            == "https://github.com/login/device/code"@,
{
}

/// Each answer decides the next step alone: a token is stored as GitHub gave it, a refusal is told to
/// the user and fails, and an answer without a decision leads to the same question with the same code.
pub proof fn answers_decide_the_login(device_code: Seq<char>, token: Seq<char>)
    ensures
        after_token_answer(device_code, AccessTokenView::Success(token)) == LoginStepView::Store(token),
        after_token_answer(
            device_code,
            AccessTokenView::Error(AccessError::AccessDenied),
        ) matches LoginStepView::Exit { message, code } && message
            == "You denied access to your GitHub account"@ && code == 1,
        after_token_answer(
            device_code,
            AccessTokenView::Error(AccessError::AuthorizationPending),
        ) matches LoginStepView::AskToken { device_code: kept, request } && kept == device_code
            && request == ask_token(device_code),
        polling_step(device_code) matches LoginStepView::AskToken { device_code: kept, request } && kept
            == device_code && request == ask_token(device_code),
{
}

/// Answers and steps are shown as they are.
pub proof fn logins_are_shown_as_they_are(answer: AccessToken, step: LoginStep)
    ensures
        answer matches AccessToken::Success { access_token } ==> answer@ == AccessTokenView::Success(
            access_token@,
        ),
        answer matches AccessToken::Error { error } ==> answer@ == AccessTokenView::Error(error),
        is_slow_down(answer@) <==> (answer matches AccessToken::Error { error } && error is SlowDown),
        step matches LoginStep::Store(token) ==> step@ == LoginStepView::Store(token@),
        step matches LoginStep::AskCode(request) ==> step@ == LoginStepView::AskCode(request@),
        step matches LoginStep::AskToken { polling, request } ==> step@ == (LoginStepView::AskToken {
            device_code: polling@,
            request: request@,
        }),
        step matches LoginStep::Exit { message, code } ==> step@ == (LoginStepView::Exit {
            message: message@,
            code,
        }),
{
}

} // verus!
