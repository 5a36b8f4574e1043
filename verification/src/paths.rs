//! Lexical path operations of the standard library, on paths held as text.
//!
//! Nothing here touches the file system. What the standard library computes
//! depends on the path syntax of the platform the crate is built for, so each
//! result is given a name rather than a definition; the names stand for the
//! functions of that one platform.

use vstd::prelude::*;

verus! {

/// The text left of `path` after `std::path::PathBuf::pop`: the path without
/// its last component, or `path` itself where it has no parent.
pub uninterp spec fn path_parent(path: Seq<char>) -> Seq<char>;

/// The text of `std::path::Path::join` applied to `base` and `name`.
pub uninterp spec fn path_join(base: Seq<char>, name: Seq<char>) -> Seq<char>;

/// Whether `std::path::Path::is_absolute` holds of `path`.
pub uninterp spec fn path_is_absolute(path: Seq<char>) -> bool;

/// Calls `std::path::PathBuf::pop` on a copy of `path`. Trusted: the result is
/// the text that the call leaves, named `path_parent`.
#[verifier::external_body]
pub(crate) fn parent_of(path: &str) -> (parent: String)
    ensures
        parent@ == path_parent(path@),
{
    let mut buffer = std::path::PathBuf::from(path);
    buffer.pop();
    buffer.to_string_lossy().into_owned()
}

/// Calls `std::path::Path::join`. Trusted: the result is the text of the
/// joined path, named `path_join`.
#[verifier::external_body]
pub(crate) fn join(base: &str, name: &str) -> (joined: String)
    ensures
        joined@ == path_join(base@, name@),
{
    std::path::Path::new(base).join(name).to_string_lossy().into_owned()
}

/// Calls `std::path::Path::is_absolute`. Trusted: the result is the answer of
/// that call, named `path_is_absolute`.
#[verifier::external_body]
pub(crate) fn is_absolute(path: &str) -> (absolute: bool)
    ensures
        absolute == path_is_absolute(path@),
{
    std::path::Path::new(path).is_absolute()
}

} // verus!
