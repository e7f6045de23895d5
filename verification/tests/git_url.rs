use cargo_actions::git_url::{GitUrl, UrlKind};
use cargo_actions::text::trim_str;

#[test]
fn shorthand_becomes_ssh_address() {
    let u = GitUrl::from("yexiyue/cargo-actions");
    assert_eq!(u.kind(), UrlKind::Unknown);
    assert_eq!(u.to_string(), "git@github.com:yexiyue/cargo-actions.git");
}

#[test]
fn shorthand_with_git_suffix_is_not_suffixed_twice() {
    let u = GitUrl::from("yexiyue/cargo-actions.git");
    assert_eq!(u.kind(), UrlKind::Unknown);
    assert_eq!(u.as_str(), "git@github.com:yexiyue/cargo-actions.git");
}

#[test]
fn github_https_address_is_kept() {
    let u = GitUrl::from("https://github.com/yexiyue/cargo-actions.git");
    assert_eq!(u.kind(), UrlKind::Http);
    assert_eq!(u.as_str(), "https://github.com/yexiyue/cargo-actions.git");
}

#[test]
fn github_ssh_address_is_kept() {
    let u = GitUrl::from("git@github.com:yexiyue/cargo-actions.git");
    assert_eq!(u.kind(), UrlKind::Ssh);
    assert_eq!(u.as_str(), "git@github.com:yexiyue/cargo-actions.git");
}

#[test]
fn other_hosts_are_kept_unknown() {
    let u = GitUrl::from("https://gitlab.com/a/b.git");
    assert_eq!(u.kind(), UrlKind::Unknown);
    assert_eq!(u.as_str(), "https://gitlab.com/a/b.git");
    let v = GitUrl::from("git@gitlab.com:a/b.git");
    assert_eq!(v.kind(), UrlKind::Unknown);
    assert_eq!(v.as_str(), "git@gitlab.com:a/b.git");
}

#[test]
fn surrounding_whitespace_is_dropped() {
    let u = GitUrl::from("  \t https://github.com/a/b \n");
    assert_eq!(u.kind(), UrlKind::Http);
    assert_eq!(u.as_str(), "https://github.com/a/b");
    // Unicode whitespace too (no-break space, ideographic space).
    let v = GitUrl::from("\u{a0}a/b\u{3000}");
    assert_eq!(v.as_str(), "git@github.com:a/b.git");
}

#[test]
fn empty_argument_becomes_bare_shorthand() {
    let u = GitUrl::from("   ");
    assert_eq!(u.as_str(), "git@github.com:.git");
}

#[test]
fn normalizing_twice_changes_nothing() {
    for input in [
        "yexiyue/cargo-actions",
        "a/b.git",
        " https://github.com/x/y ",
        "git@github.com:x/y.git",
        "https://example.com/z",
        "",
    ] {
        let once = GitUrl::from(input);
        let twice = GitUrl::from(once.as_str());
        assert_eq!(once.to_string(), twice.to_string());
        assert_eq!(trim_str(once.as_str()), once.as_str());
        assert!(once.as_str().starts_with("https://") || once.as_str().starts_with("git@"));
    }
}

#[test]
fn shorthand_reads_back_as_ssh() {
    let once = GitUrl::from("a/b");
    let twice = GitUrl::from(once.as_str());
    assert_eq!(twice.kind(), UrlKind::Ssh);
}

#[test]
fn clone_request_uses_address_and_master() {
    let u = GitUrl::from("a/b");
    let c = u.clone("/tmp/x");
    assert_eq!(c.url, "git@github.com:a/b.git");
    assert_eq!(c.path, "/tmp/x");
    assert_eq!(c.branch, "master");
    assert!(c.download_all_tags);
    assert!(c.update_fetchhead);
}
