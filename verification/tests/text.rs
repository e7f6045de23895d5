use cargo_actions::text::{
    ends_with, is_whitespace, path_join_str, remove_all_str, remove_first_str, starts_with,
    str_eq, trim_str,
};

#[test]
fn whitespace_matches_std() {
    for c in ['\t', '\n', '\u{b}', '\u{c}', '\r', ' ', '\u{85}', '\u{a0}', '\u{1680}', '\u{2000}',
        '\u{200a}', '\u{2028}', '\u{2029}', '\u{202f}', '\u{205f}', '\u{3000}', 'a', '\u{200b}',
        '\u{180e}', '\u{feff}', '0', '\u{1f}', '\u{2001}']
    {
        assert_eq!(is_whitespace(c), c.is_whitespace(), "{:?}", c);
    }
}

#[test]
fn trim_matches_std() {
    for s in ["", "  ", " a ", "a", "\u{3000}x y\u{a0}", "\n\t", "ab  c"] {
        assert_eq!(trim_str(s), s.trim());
    }
}

#[test]
fn prefix_suffix_and_equality() {
    assert!(starts_with("abc", "ab"));
    assert!(starts_with("abc", ""));
    assert!(!starts_with("ab", "abc"));
    assert!(ends_with("abc.git", ".git"));
    assert!(!ends_with("git", ".git"));
    assert!(str_eq("日本", "日本"));
    assert!(!str_eq("a", "b"));
}

#[test]
fn removal_matches_std_replace() {
    for (s, p) in [("/tmp/x/a/tmp/x", "/tmp/x"), ("aaa", "aa"), ("abc", ""), ("", "a"), ("x.hbs.hbs", ".hbs")] {
        assert_eq!(remove_all_str(s, p), s.replace(p, ""));
        assert_eq!(remove_first_str(s, p), s.replacen(p, "", 1));
    }
    assert_eq!(remove_first_str("/a/b", "/"), "a/b");
}

#[test]
fn join_matches_path_join() {
    for (a, b) in [("/home/u", ".cargo-actions"), ("/home/u/", "x"), ("", "x"), ("/a", "/b"), ("a", "")] {
        let expected = std::path::Path::new(a).join(b);
        assert_eq!(path_join_str(a, b), expected.to_string_lossy());
    }
}
