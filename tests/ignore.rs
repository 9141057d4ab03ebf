use turboinstall::overlay::{is_ignored, Ignore};

#[test]
fn parse_patterns() {
    let patterns = r"
# comment

^/file
^/dir/.*\.ignore
^/dir/[0-9]-[a-z]\.tar
^/dir/[0-9]-[a-z]\.tar\..
^/dir/dir/
		";

    let mut ignore = Ignore::empty();
    ignore.add_from_str(patterns).unwrap();

    assert!(ignore.matches("/file"));
    assert!(!ignore.matches("/dir/file"));
    assert!(!ignore.matches("file"));

    assert!(!ignore.matches("/dir"));
    assert!(ignore.matches("/dir/file1.ignore"));
    assert!(ignore.matches("/dir/file2.ignore"));
    assert!(ignore.matches("/dir/another_file.ignore"));
    assert!(!ignore.matches("/dir/test.txt"));

    assert!(ignore.matches("/dir/0-a.tar"));
    assert!(!ignore.matches("/dir/0-A.tar"));
    assert!(!ignore.matches("/dir/test.tar"));
    assert!(ignore.matches("/dir/0-a.tar.t"));
    assert!(ignore.matches("/dir/0-a.tar.e"));

    assert!(!ignore.matches("/dir1"));
    assert!(!ignore.matches("/dir/dir1"));
    assert!(!ignore.matches("/dir/dir"));
    assert!(ignore.matches("/dir/dir/"));
    assert!(ignore.matches("/dir/dir/test_file"));

    assert!(!ignore.matches("some_random_file"));
}

#[test]
fn count_of_added_patterns() {
    let mut ignore = Ignore::empty();
    let n = ignore.add_from_str("  # note\n\n  ^/a  \r\n^/b\n").unwrap();
    assert_eq!(n, 2);
    assert!(ignore.matches("/a"));
    assert!(ignore.matches("/b"));
}

#[test]
fn empty_set_excludes_nothing() {
    let ignore = Ignore::empty();
    assert!(!ignore.matches("/anything"));
    assert!(!ignore.matches(""));
}

#[test]
fn bad_pattern_is_reported() {
    let mut ignore = Ignore::empty();
    let e = ignore.add_from_str("^/ok\n(unclosed\n^/never").unwrap_err();
    assert_eq!(e.pattern, "(unclosed");
    assert!(ignore.matches("/ok"));
    assert!(!ignore.matches("/never"));
    assert!(ignore.add_pattern("[").is_err());
}

#[test]
fn order_of_patterns_does_not_matter() {
    let mut a = Ignore::empty();
    a.add_pattern("^/x").unwrap();
    a.add_pattern("y$").unwrap();
    let mut b = Ignore::empty();
    b.add_pattern("y$").unwrap();
    b.add_pattern("^/x").unwrap();
    for p in ["/x", "/xy", "/ay", "/a", "x"] {
        assert_eq!(a.matches(p), b.matches(p));
    }
}

#[test]
fn entries_are_matched_with_leading_slash() {
    let mut ignore = Ignore::empty();
    ignore.add_pattern("^/secret").unwrap();
    assert!(is_ignored(&ignore, "secret"));
    assert!(is_ignored(&ignore, "secret/file.txt"));
    assert!(!is_ignored(&ignore, "public/secret"));
    assert!(!ignore.matches("secret"));
}

#[test]
fn patterns_are_case_sensitive() {
    let mut ignore = Ignore::empty();
    ignore.add_pattern("^/Doc").unwrap();
    assert!(ignore.matches("/Doc"));
    assert!(!ignore.matches("/doc"));
}
