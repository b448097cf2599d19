use free_storage::Error;

fn network_error() -> reqwest::Error {
    reqwest::Client::new().get("nowhere").build().unwrap_err()
}

#[test]
fn messages_name_the_kind_and_the_cause() {
    let cause = network_error().to_string();
    assert_eq!(
        Error::from(network_error()).message(),
        format!("Network Error: {cause}")
    );

    let json = serde_json::from_str::<u8>("x").unwrap_err();
    let cause = json.to_string();
    assert_eq!(
        Error::from(json).message(),
        format!("Error Parsing JSON: {cause}")
    );

    let io = std::io::Error::new(std::io::ErrorKind::Other, "broken disk");
    assert_eq!(Error::from(io).message(), "I/O Error: broken disk");

    let url = "".parse::<url::Url>().unwrap_err();
    assert_eq!(
        Error::from(url).message(),
        "Error Parsing URL: relative URL without a base"
    );
}

#[test]
fn messages_of_refusals() {
    assert_eq!(
        Error::InvalidRepoOrInvalidToken.message(),
        "Invalid Repository OR The Token is Invalid"
    );
    assert_eq!(Error::Unauthorized.message(), "Unauthorized");
}

#[test]
fn causes_are_carried_along() {
    assert!(matches!(Error::from(network_error()), Error::Reqwest(_)));
    let json = serde_json::from_str::<u8>("x").unwrap_err();
    assert!(matches!(Error::from(json), Error::JSON(_)));
    let io = std::io::Error::from(std::io::ErrorKind::NotFound);
    match Error::from(io) {
        Error::Io(error) => assert_eq!(error.kind(), std::io::ErrorKind::NotFound),
        other => panic!("{other:?}"),
    }
    assert!(matches!(
        Error::from(url::ParseError::EmptyHost),
        Error::Url(url::ParseError::EmptyHost)
    ));
}
