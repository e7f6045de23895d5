//! File-system path arithmetic on path text: the parent directory and the
//! final component of a path (`Path::parent`, `Path::file_name`).

use vstd::prelude::*;

verus! {

/// What `Path::parent` gives for the path `p`: the path without its final
/// component, or `None` for a root or empty path.
pub uninterp spec fn parent_of(p: Seq<char>) -> Option<Seq<char>>;

/// What `Path::file_name` gives for the path `p`: its final component when
/// that is a normal name, otherwise `None`.
pub uninterp spec fn file_name_of(p: Seq<char>) -> Option<Seq<char>>;

/// Calls `std::path::Path::parent` on `p`. The contract claims only that
/// the result is `parent_of(p)`, a value of the path text alone; how the
/// components are split is not stated.
#[verifier::external_body]
pub(crate) fn path_parent(p: &str) -> (r: Option<String>)
    ensures
        r matches Some(s) ==> parent_of(p@) == Some(s@),
        r is None ==> parent_of(p@) is None,
{
    std::path::Path::new(p).parent().map(|q| q.to_string_lossy().into_owned())
}

/// Calls `std::path::Path::file_name` on `p`. The contract claims only that
/// the result is `file_name_of(p)`, a value of the path text alone.
#[verifier::external_body]
pub(crate) fn path_file_name(p: &str) -> (r: Option<String>)
    ensures
        r matches Some(s) ==> file_name_of(p@) == Some(s@),
        r is None ==> file_name_of(p@) is None,
{
    std::path::Path::new(p).file_name().map(|q| q.to_string_lossy().into_owned())
}

} // verus!
