use petite_http::{remove_extension, validate_name};

#[test]
fn remove_extension_strips_case_insensitively() {
    assert_eq!(remove_extension("foo.BAR", "bar"), Some("foo"));
    assert_eq!(remove_extension("foo.bar", "BAR"), Some("foo"));
    assert_eq!(remove_extension("x.tar.gz", "gz"), Some("x.tar"));
}

#[test]
fn remove_extension_refuses_other_names() {
    assert_eq!(remove_extension("foo", "bar"), None);
    assert_eq!(remove_extension("foo.baz", "bar"), None);
    assert_eq!(remove_extension("foobar", "bar"), None);
    assert_eq!(remove_extension("bar", "bar"), None);
}

#[test]
fn remove_extension_keeps_an_empty_stem() {
    assert_eq!(remove_extension(".gz", "gz"), Some(""));
}

#[test]
fn validate_name_accepts_portable_names() {
    assert_eq!(validate_name("report_2024-01.txt").unwrap(), "report_2024-01.txt");
    assert_eq!(validate_name("").unwrap(), "");
    assert_eq!(validate_name("Az09_.-").unwrap(), "Az09_.-");
}

#[test]
fn validate_name_rejects_unusual_characters() {
    let err = validate_name("a/b").unwrap_err();
    assert_eq!(err.0, "a/b");
    assert!(err.message().contains("a/b"));
    assert!(validate_name("sp ace").is_err());
    assert!(validate_name("caf\u{e9}").is_err());
}
