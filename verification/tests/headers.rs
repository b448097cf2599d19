use free_storage::headers::{client_headers, is_sendable_token, user_agent};

#[test]
fn token_is_sent_as_sensitive_authorization() {
    let headers = client_headers(Some("secret"));
    assert_eq!(headers.len(), 1);
    let value = headers.get("authorization").unwrap();
    assert_eq!(value.to_str().unwrap(), "token secret");
    assert!(value.is_sensitive());
    assert_eq!(headers.get_all("Authorization").iter().count(), 1);
}

#[test]
fn nothing_is_sent_without_a_token() {
    assert!(client_headers(None).is_empty());
}

#[test]
fn tokens_without_control_characters_can_be_sent() {
    assert!(is_sendable_token(""));
    assert!(is_sendable_token("ghp_0123456789"));
    assert!(is_sendable_token("with space and\ttab"));
    assert!(is_sendable_token("ümlaut"));
    assert!(!is_sendable_token("line\n"));
    assert!(!is_sendable_token("carriage\rreturn"));
    assert!(!is_sendable_token("nul\0"));
    assert!(!is_sendable_token("delete\u{7f}"));
}

#[test]
fn bytes_of_an_accented_token_are_sent() {
    let headers = client_headers(Some("ü"));
    assert_eq!(
        headers.get("authorization").unwrap().as_bytes(),
        "token ü".as_bytes()
    );
}

#[test]
fn client_presents_itself() {
    assert_eq!(user_agent(), "Rust");
}
