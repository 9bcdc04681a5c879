//! File-system path names, as `std::path::Path` splits them.

use vstd::prelude::*;

verus! {

/// The final component of a path, as `Path::file_name` gives it (`None` for
/// a path that ends in `..`, for the root and for the empty path).
pub uninterp spec fn path_file_name(path: Seq<char>) -> Option<Seq<char>>;

/// The path without its final component, as `Path::parent` gives it (`None`
/// for the root and for the empty path).
pub uninterp spec fn path_parent(path: Seq<char>) -> Option<Seq<char>>;

/// `Option<String>` taken by its characters.
pub open spec fn opt_view(o: Option<String>) -> Option<Seq<char>> {
    match o {
        Some(s) => Some(s@),
        None => None,
    }
}

/// Calls `std::path::Path::file_name` on `path`; the name is valid UTF-8
/// since it is a part of `path`. The contract claims only that the result is
/// the function `path_file_name` of the path's characters.
#[verifier::external_body]
pub(crate) fn file_name_of(path: &str) -> (res: Option<String>)
    ensures
        opt_view(res) == path_file_name(path@),
{
    std::path::Path::new(path).file_name().and_then(|n| n.to_str()).map(|n| n.to_string())
}

/// Calls `std::path::Path::parent` on `path` and takes the parent back as a
/// string. The contract claims only that the result is the function
/// `path_parent` of the path's characters.
#[verifier::external_body]
pub(crate) fn parent_of(path: &str) -> (res: Option<String>)
    ensures
        opt_view(res) == path_parent(path@),
{
    std::path::Path::new(path).parent().map(|p| p.to_string_lossy().into_owned())
}

} // verus!
