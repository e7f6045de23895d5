//! Repository addresses: how a user's `init` argument becomes the address
//! that is cloned, and what a clone of it asks for.

use vstd::prelude::*;
use crate::text::{concat2, is_white_space, lemma_trim_fixed, lemma_trim_idempotent, concat3, ends_with, has_prefix, has_suffix, owned, starts_with, trim, trim_str};

verus! {

/// Which form a repository address has.
#[derive(Debug, Clone, Copy, PartialEq, Eq, Structural)]
pub enum UrlKind {
    /// `https://github.com/...`
    Http,
    /// `git@github.com:...`
    Ssh,
    /// Any other address.
    Unknown,
}

/// A repository address, tagged with its form.
#[derive(Debug, Clone)]
pub enum GitUrl {
    Http(String),
    Ssh(String),
    Unknown(String),
}

/// The form of the address that `input` denotes.
pub open spec fn url_kind_of(input: Seq<char>) -> UrlKind {
    let v = trim(input);
    if has_prefix(v, "https://github.com/"@) {
        UrlKind::Http
    } else if has_prefix(v, "git@github.com:"@) {
        UrlKind::Ssh
    } else {
        UrlKind::Unknown
    }
}

/// The address that `input` denotes: the trimmed input when it is already
/// an `https://` or `git@` address, otherwise a GitHub shorthand
/// (`user/repo` or `user/repo.git`) expanded to an SSH address.
pub open spec fn normalized_url(input: Seq<char>) -> Seq<char> {
    let v = trim(input);
    if has_prefix(v, "https://github.com/"@) || has_prefix(v, "git@github.com:"@) || has_prefix(
        v,
        "git@"@,
    ) || has_prefix(v, "https://"@) {
        v
    } else if has_suffix(v, ".git"@) {
        "git@github.com:"@ + v
    } else {
        "git@github.com:"@ + v + ".git"@
    }
}

/// A normalized address is trimmed, is an `https://` or `git@` address,
/// and normalizes to itself: reading an address back from its own text
/// gives the same address.
pub proof fn law_normalized_url_is_stable(input: Seq<char>)
    ensures
        trim(normalized_url(input)) == normalized_url(input),
        has_prefix(normalized_url(input), "https://"@) || has_prefix(
            normalized_url(input),
            "git@"@,
        ),
        normalized_url(normalized_url(input)) == normalized_url(input),
{
    reveal_strlit("https://github.com/");
    reveal_strlit("git@github.com:");
    reveal_strlit("git@");
    reveal_strlit("https://");
    reveal_strlit(".git");
    let v = trim(input);
    let n = normalized_url(input);
    lemma_trim_idempotent(input);
    if has_prefix(v, "https://github.com/"@) {
        assert(n.subrange(0, 8) =~= v.subrange(0, 19).subrange(0, 8));
        assert("https://github.com/"@.subrange(0, 8) =~= "https://"@);
    } else if has_prefix(v, "git@github.com:"@) {
        assert(n.subrange(0, 4) =~= v.subrange(0, 15).subrange(0, 4));
        assert("git@github.com:"@.subrange(0, 4) =~= "git@"@);
    } else if has_prefix(v, "git@"@) || has_prefix(v, "https://"@) {
    } else {
        let p = "git@github.com:"@;
        assert(n.subrange(0, 15) =~= p);
        assert(n.subrange(0, 4) =~= p.subrange(0, 4));
        assert(p.subrange(0, 4) =~= "git@"@);
        assert(n[0] == 'g');
        if has_suffix(v, ".git"@) {
            assert(n.last() == v.last());
            assert(v.last() == v.subrange(v.len() - 4, v.len() as int)[3]);
        } else {
            assert(n.last() == 't');
        }
        assert(!is_white_space(n[0]) && !is_white_space(n.last()));
        lemma_trim_fixed(n);
    }
}

impl GitUrl {
    /// The form of this address.
    pub open spec fn kind_spec(&self) -> UrlKind {
        match self {
            GitUrl::Http(_) => UrlKind::Http,
            GitUrl::Ssh(_) => UrlKind::Ssh,
            GitUrl::Unknown(_) => UrlKind::Unknown,
        }
    }

    /// The address itself.
    pub open spec fn url(&self) -> Seq<char> {
        match self {
            GitUrl::Http(u) => u@,
            GitUrl::Ssh(u) => u@,
            GitUrl::Unknown(u) => u@,
        }
    }

    /// Reads a user's repository argument: surrounding whitespace is
    /// dropped, GitHub HTTPS and SSH addresses are recognised, other
    /// `https://` and `git@` addresses are kept as they are, and anything
    /// else is taken as a GitHub `user/repo` shorthand for an SSH address.
    pub fn from(value: &str) -> (r: GitUrl)
        ensures
            r.kind_spec() == url_kind_of(value@),
            r.url() == normalized_url(value@),
    {
        let v = trim_str(value);
        if starts_with(v, "https://github.com/") {
            GitUrl::Http(owned(v))
        } else if starts_with(v, "git@github.com:") {
            GitUrl::Ssh(owned(v))
        } else if starts_with(v, "git@") || starts_with(v, "https://") {
            GitUrl::Unknown(owned(v))
        } else if ends_with(v, ".git") {
            GitUrl::Unknown(concat2("git@github.com:", v))
        } else {
            GitUrl::Unknown(concat3("git@github.com:", v, ".git"))
        }
    }

    /// The form of this address.
    pub fn kind(&self) -> (r: UrlKind)
        ensures
            r == self.kind_spec(),
    {
        match self {
            GitUrl::Http(_) => UrlKind::Http,
            GitUrl::Ssh(_) => UrlKind::Ssh,
            GitUrl::Unknown(_) => UrlKind::Unknown,
        }
    }

    /// The address as text.
    pub fn as_str(&self) -> (r: &str)
        ensures
            r@ == self.url(),
    {
        match self {
            GitUrl::Http(u) => u.as_str(),
            GitUrl::Ssh(u) => u.as_str(),
            GitUrl::Unknown(u) => u.as_str(),
        }
    }

    /// The address as an owned string (what the address displays as).
    pub fn to_string(&self) -> (r: String)
        ensures
            r@ == self.url(),
    {
        owned(self.as_str())
    }

    /// What cloning this repository into `path` asks of git: the address
    /// itself, whatever its form, the `master` branch, all tags, and an
    /// updated `FETCH_HEAD`.
    pub fn clone(&self, path: &str) -> (r: CloneRequest)
        ensures
            r.url@ == self.url(),
            r.path@ == path@,
            r.branch@ == "master"@,
            r.download_all_tags,
            r.update_fetchhead,
    {
        CloneRequest {
            url: self.to_string(),
            path: owned(path),
            branch: owned("master"),
            download_all_tags: true,
            update_fetchhead: true,
        }
    }
}

/// A clone to perform: which repository, where to, which branch, and the
/// fetch options.
#[derive(Debug, Clone)]
pub struct CloneRequest {
    pub url: String,
    pub path: String,
    pub branch: String,
    pub download_all_tags: bool,
    pub update_fetchhead: bool,
}

} // verus!
