use free_storage::cli::{
    config_directory, get_token, output_path, token_file, use_stored_token, validate_path,
    OutputPath, TokenStep,
};

#[test]
fn existing_path_is_handed_on() {
    assert_eq!(validate_path("a/b", true), Ok("a/b".to_string()));
}

#[test]
fn missing_path_is_refused() {
    assert_eq!(
        validate_path("a/b", false),
        Err("`a/b` doesn't exist.".to_string())
    );
}

#[test]
fn given_token_is_used() {
    match get_token(Some("given".to_string())) {
        TokenStep::Use(token) => assert_eq!(token, "given"),
        other => panic!("{other:?}"),
    }
}

#[test]
fn stored_token_is_read_where_none_is_given() {
    assert!(matches!(get_token(None), TokenStep::ReadStored));
    match use_stored_token(Some("stored\n".to_string())) {
        TokenStep::Use(token) => assert_eq!(token, "stored\n"),
        other => panic!("{other:?}"),
    }
}

#[test]
fn program_exits_without_a_token() {
    match use_stored_token(None) {
        TokenStep::Exit { message, code } => {
            assert_eq!(
                message,
                "Please provide `--token` or run `storage login` first."
            );
            assert_eq!(code, 1);
        }
        other => panic!("{other:?}"),
    }
}

#[test]
fn token_has_its_place() {
    assert_eq!(config_directory(), ".free_storage");
    assert_eq!(token_file(), "token");
}

#[test]
fn file_is_written_where_it_was_asked_for() {
    match output_path(Some(7u8), "name".to_string()) {
        OutputPath::Given(path) => assert_eq!(path, 7),
        other => panic!("{other:?}"),
    }
    match output_path::<u8>(None, "name".to_string()) {
        OutputPath::FileNameOf(name) => assert_eq!(name, "name"),
        other => panic!("{other:?}"),
    }
}
