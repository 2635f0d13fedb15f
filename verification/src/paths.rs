//! File-system paths as text.
//!
//! The library never touches the file system. It keeps paths as strings and
//! leaves it to the standard library to say how they combine and come apart,
//! by the path rules of the platform that the library is built for.

use vstd::prelude::*;

verus! {

/// The path that the platform's path rules give for `part` adjoined to `base`.
pub uninterp spec fn joined_path(base: Seq<char>, part: Seq<char>) -> Seq<char>;

/// `std::path::Path::join`, on paths held as text. The result is a function of
/// the two paths alone; nothing else is claimed of it.
#[verifier::external_body]
pub(crate) fn join_path(base: &str, part: &str) -> (joined: String)
    ensures
        joined@ == joined_path(base@, part@),
{
    std::path::Path::new(base).join(part).to_string_lossy().into_owned()
}

/// The path without its last component, by the platform's path rules; nothing
/// if the path ends in a root or is empty.
pub uninterp spec fn parent_path(path: Seq<char>) -> Option<Seq<char>>;

/// `std::path::Path::parent`, on a path held as text. The result is a function
/// of the path alone; nothing else is claimed of it.
#[verifier::external_body]
pub(crate) fn parent_of(path: &str) -> (parent: Option<String>)
    ensures
        parent.deep_view() == parent_path(path@),
{
    match std::path::Path::new(path).parent() {
        Some(parent) => Some(parent.to_string_lossy().into_owned()),
        None => None,
    }
}

/// The last component of a path, by the platform's path rules; nothing if the
/// path ends in `..` or has no component.
pub uninterp spec fn file_name_of(path: Seq<char>) -> Option<Seq<char>>;

/// `std::path::Path::file_name`, on a path held as text. The result is a
/// function of the path alone; nothing else is claimed of it.
#[verifier::external_body]
pub(crate) fn file_name(path: &str) -> (name: Option<String>)
    ensures
        name.deep_view() == file_name_of(path@),
{
    match std::path::Path::new(path).file_name() {
        Some(name) => Some(name.to_string_lossy().into_owned()),
        None => None,
    }
}

} // verus!
