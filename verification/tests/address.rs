use free_storage::address::{fits, parse_url, parse_url_checked, strip_template};
use free_storage::Error;
use url::Url;

fn expected(input: &str) -> String {
    let mut url = input.parse::<Url>().unwrap();
    url.set_query(None);
    if let Some(path) = url.clone().path().strip_suffix("%7B") {
        url.set_path(path);
    }
    url.to_string()
}

#[test]
fn template_is_cut_off() {
    let template = "https://uploads.github.com/repos/o/r/releases/1/assets{?name,label}";
    assert_eq!(
        parse_url(template).unwrap(),
        "https://uploads.github.com/repos/o/r/releases/1/assets"
    );
}

#[test]
fn query_is_cut_off() {
    assert_eq!(
        parse_url("https://api.github.com/repos/o/r/releases/1/assets?page=2").unwrap(),
        "https://api.github.com/repos/o/r/releases/1/assets"
    );
    assert_eq!(
        parse_url("https://api.github.com/x").unwrap(),
        "https://api.github.com/x"
    );
}

#[test]
fn addresses_are_what_the_url_crate_makes_of_them() {
    for input in [
        "https://example.com",
        "https://example.com/a{?b}#c",
        "HTTPS://EXAMPLE.com:443/a/../b{",
        "https://example.com/a b{?x",
        "https://example.com/%7B",
        "https://example.com/..%7B?q",
        "https://user:pw@example.com/p?q#f",
        "https://münchen.example/ä{?ö}",
        "mailto:someone@example.com?subject=x",
        "data:text/plain,x{?y",
        "file:///C|/x{?y}",
        "web+demo:/.//not-a-host/{?x}",
        "http://[::1]:8080/a{?b}",
    ] {
        assert_eq!(parse_url(input).unwrap(), expected(input));
        assert_eq!(parse_url_checked(input).unwrap().unwrap(), expected(input));
    }
}

#[test]
fn text_that_is_no_url_is_an_error() {
    for input in ["", "not a url", "//no-scheme", "https://"] {
        match parse_url(input) {
            Err(Error::Url(error)) => assert_eq!(error, input.parse::<Url>().unwrap_err()),
            other => panic!("{other:?}"),
        }
        assert!(matches!(
            parse_url_checked(input),
            Some(Err(Error::Url(_)))
        ));
    }
}

#[test]
fn only_the_start_of_a_template_is_stripped() {
    assert_eq!(strip_template("/assets%7B"), Some("/assets".to_string()));
    assert_eq!(strip_template("/assets"), None);
    assert_eq!(strip_template("/assets%7D"), None);
}

#[test]
fn clean_address_is_left_as_it_is() {
    for input in [
        "https://uploads.github.com/repos/o/r/releases/1/assets{?name,label}",
        "http://example.com",
        "HTTPS://user:pw@EXAMPLE.com:8443/a/../b{?x#y",
        "https://example.com/..%7B?q",
        "https://example.com/%7B/.%7B",
        "https://münchen.example/ä{?ö}",
        "http://[::1]:8080/a b{?b}",
    ] {
        let address = parse_url(input).unwrap();
        assert_eq!(parse_url(&address).unwrap(), address);
        assert_eq!(parse_url_checked(&address).unwrap().unwrap(), address);
    }
}

#[test]
fn of_two_templates_one_is_cut_off_at_a_time() {
    let once = parse_url("https://example.com/a{{?b").unwrap();
    assert_eq!(once, "https://example.com/a%7B");
    assert_eq!(parse_url(&once).unwrap(), "https://example.com/a");
}

#[test]
fn room_for_a_query_is_needed_only_before_a_fragment() {
    assert!(fits("https://example.com", 0));
    assert!(fits("https://example.com", u64::MAX));
    assert!(fits("https://example.com/?query", u64::MAX));
    // There are 20 bytes before the query and the fragment.
    assert!(fits("https://example.com#top", 4_294_967_275));
    assert!(!fits("https://example.com#top", 4_294_967_276));
    assert!(fits("https://example.com?query#top", 4_294_967_275));
    assert!(!fits("https://example.com?query#top", 4_294_967_276));
    assert!(!fits("nowhere", 0));
}

#[test]
fn address_of_a_web_url_keeps_its_path() {
    for (input, path) in [
        ("https://example.com/a/b?c#d", "/a/b"),
        ("https://example.com/a{?b}", "/a"),
        ("https://example.com/a{{?b}", "/a%7B"),
        ("https://example.com/a/..{?b}", "/"),
        ("https://xn--mnchen-3ya.example/a{?b}", "/a"),
    ] {
        let address = parse_url_checked(input).unwrap().unwrap();
        let url = Url::parse(&address).unwrap();
        assert_eq!(url.as_str(), address);
        assert_eq!(url.query(), None);
        assert_eq!(url.path(), path);
    }
}
