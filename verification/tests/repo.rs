use free_storage::repo::{has_repo_form, validate_repo};

#[test]
fn repositories_have_one_slash() {
    assert!(has_repo_form("owner/repo"));
    assert!(has_repo_form("/"));
    assert!(has_repo_form("owner/"));
    assert!(has_repo_form("/repo"));
    assert!(!has_repo_form(""));
    assert!(!has_repo_form("repo"));
    assert!(!has_repo_form("a/b/c"));
    assert!(!has_repo_form("a//"));
    assert!(!has_repo_form("////"));
}

#[test]
fn form_is_that_of_two_parts() {
    for repo in ["", "/", "a", "a/b", "a/b/", "//", "ä/ö", "a/b/c/d"] {
        assert_eq!(has_repo_form(repo), repo.split('/').count() == 2);
    }
}

#[test]
fn valid_repository_is_handed_on() {
    assert_eq!(
        validate_repo("owner/repo"),
        Ok("owner/repo".to_string())
    );
}

#[test]
fn invalid_repository_is_refused() {
    assert_eq!(
        validate_repo("owner"),
        Err("Invalid repository. Must be in `owner/repo` format.".to_string())
    );
}
