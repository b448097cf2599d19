use free_storage::release::{
    create_or_get_release, release_links, CommitSearch, ReleaseLinks, ReleaseResponse,
    ReleaseSearch, ReleaseStep, ReleaseUrls,
};
use free_storage::request::{Method, Payload, Request};
use free_storage::Error;

fn network_error() -> reqwest::Error {
    reqwest::Client::new().get("nowhere").build().unwrap_err()
}

fn response(upload_url: Option<&str>, assets_url: Option<&str>) -> ReleaseResponse {
    ReleaseResponse {
        upload_url: upload_url.map(String::from),
        assets_url: assets_url.map(String::from),
    }
}

fn good() -> ReleaseResponse {
    response(
        Some("https://uploads.github.com/repos/o/r/releases/7/assets{?name,label}"),
        Some("https://api.github.com/repos/o/r/releases/7/assets"),
    )
}

fn asks(step: ReleaseStep) -> (ReleaseSearch, Request) {
    match step {
        ReleaseStep::Ask { search, request } => (search, request),
        other => panic!("{other:?}"),
    }
}

fn adds_commit(step: ReleaseStep) -> (CommitSearch, Request) {
    match step {
        ReleaseStep::AddCommit { pending, request } => (pending, request),
        other => panic!("{other:?}"),
    }
}

fn start() -> (ReleaseSearch, Request) {
    asks(create_or_get_release("o/r".to_string(), "files".to_string()))
}

fn json(request: &Request) -> Vec<(&str, &str)> {
    match &request.payload {
        Payload::Json(members) => members
            .iter()
            .map(|(name, value)| (name.as_str(), value.as_str()))
            .collect(),
        other => panic!("{other:?}"),
    }
}

fn is_found(step: ReleaseStep) {
    match step {
        ReleaseStep::Found(ReleaseUrls {
            assets_url,
            upload_url,
        }) => {
            assert_eq!(
                assets_url,
                "https://api.github.com/repos/o/r/releases/7/assets"
            );
            assert_eq!(
                upload_url,
                "https://uploads.github.com/repos/o/r/releases/7/assets"
            );
        }
        other => panic!("{other:?}"),
    }
}

#[test]
fn release_is_looked_up_first() {
    let (search, request) = start();
    assert_eq!(request.method, Method::Get);
    assert_eq!(
        request.url,
        "https://api.github.com/repos/o/r/releases/tags/files"
    );
    assert!(request.headers.is_empty());
    assert!(matches!(request.payload, Payload::Empty));
    is_found(search.on_answer(Ok(good())));
}

#[test]
fn release_is_made_where_there_is_none() {
    for answer in [Ok(response(None, None)), Err(network_error())] {
        let (search, _) = start();
        let (search, request) = asks(search.on_answer(answer));
        assert_eq!(request.method, Method::Post);
        assert_eq!(request.url, "https://api.github.com/repos/o/r/releases");
        assert_eq!(json(&request), vec![("tag_name", "files")]);
        is_found(search.on_answer(Ok(good())));
    }
}

#[test]
fn commit_is_added_to_an_empty_repository() {
    let (search, _) = start();
    let (search, _) = asks(search.on_answer(Ok(response(None, None))));
    let (search, request) = adds_commit(search.on_answer(Err(network_error())));
    assert_eq!(request.method, Method::Put);
    assert_eq!(
        request.url,
        "https://api.github.com/repos/o/r/contents/__no_empty_repo__"
    );
    assert_eq!(
        json(&request),
        vec![
            ("message", "add a commit to allow creation of a release."),
            ("content", ""),
            ("sha254", ""),
        ]
    );
    let (search, request) = asks(search.on_answer(Ok(())));
    assert_eq!(request.method, Method::Post);
    assert_eq!(request.url, "https://api.github.com/repos/o/r/releases");
    assert_eq!(json(&request), vec![("tag_name", "files")]);
    is_found(search.on_answer(Ok(good())));
}

#[test]
fn search_without_result_means_a_bad_repository_or_token() {
    for last in [Ok(response(None, Some("https://a.b/"))), Err(network_error())] {
        let (search, _) = start();
        let (search, _) = asks(search.on_answer(Ok(response(None, None))));
        let (search, _) = adds_commit(search.on_answer(Ok(response(None, None))));
        let (search, _) = asks(search.on_answer(Ok(())));
        assert!(matches!(
            search.on_answer(last),
            ReleaseStep::Failed(Error::InvalidRepoOrInvalidToken)
        ));
    }
}

#[test]
fn commit_that_cannot_be_sent_is_a_network_error() {
    let (search, _) = start();
    let (search, _) = asks(search.on_answer(Ok(response(None, None))));
    let (search, _) = adds_commit(search.on_answer(Ok(response(None, None))));
    assert!(matches!(
        search.on_answer(Err(network_error())),
        ReleaseStep::Failed(Error::Reqwest(_))
    ));
}

#[test]
fn one_address_is_no_release() {
    let url = Some("https://example.com/");
    assert!(matches!(
        release_links(&response(url, None)),
        ReleaseLinks::Missing
    ));
    assert!(matches!(
        release_links(&response(None, url)),
        ReleaseLinks::Missing
    ));
    assert!(matches!(
        release_links(&response(None, Some("no url"))),
        ReleaseLinks::Missing
    ));
}

#[test]
fn addresses_that_are_no_urls_end_the_search() {
    let url = Some("https://example.com/");
    for answer in [response(url, Some("no url")), response(Some("no url"), url)] {
        assert!(matches!(release_links(&answer), ReleaseLinks::Unusable));
        let (search, _) = start();
        assert!(search.on_answer_checked(Ok(answer)).is_none());
    }
}

#[test]
fn checked_answers_go_on_alike() {
    let (search, _) = start();
    is_found(search.on_answer_checked(Ok(good())).unwrap());
    for answer in [Ok(response(None, None)), Err(network_error())] {
        let (search, _) = start();
        let (_, request) = asks(search.on_answer_checked(answer).unwrap());
        assert_eq!(request.url, "https://api.github.com/repos/o/r/releases");
    }
}

#[test]
fn links_decide_how_the_search_goes_on() {
    let (search, _) = start();
    let urls = ReleaseUrls {
        assets_url: "a".to_string(),
        upload_url: "u".to_string(),
    };
    assert!(matches!(
        search.on_links(ReleaseLinks::Usable(urls)),
        ReleaseStep::Found(_)
    ));
    let (search, _) = start();
    asks(search.on_links(ReleaseLinks::Missing));
}
