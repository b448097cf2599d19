use free_storage::text::{decimal, strip_suffix};

#[test]
fn numbers_are_written_in_decimal() {
    assert_eq!(decimal(0), "0");
    assert_eq!(decimal(9), "9");
    assert_eq!(decimal(10), "10");
    assert_eq!(decimal(907), "907");
    assert_eq!(decimal(u64::MAX), "18446744073709551615");
    for n in [1u64, 11, 99, 100, 12345, 1_000_000] {
        assert_eq!(decimal(n), n.to_string());
    }
}

#[test]
fn suffix_is_removed_once() {
    assert_eq!(strip_suffix("assets%7B", "%7B"), Some("assets".to_string()));
    assert_eq!(strip_suffix("%7B%7B", "%7B"), Some("%7B".to_string()));
    assert_eq!(strip_suffix("%7B", "%7B"), Some(String::new()));
    assert_eq!(strip_suffix("7B", "%7B"), None);
    assert_eq!(strip_suffix("%7b", "%7B"), None);
    assert_eq!(strip_suffix("日本", "本"), Some("日".to_string()));
    assert_eq!(strip_suffix("", ""), Some(String::new()));
}
