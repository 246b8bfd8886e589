//! File system paths, which the library only passes along.

use std::path::PathBuf;
use vstd::prelude::*;

verus! {

#[verifier::external_type_specification]
#[verifier::external_body]
pub struct ExPathBuf(std::path::PathBuf);

/// The path that `std::path::Path::join` gives for `name` under `directory`.
pub uninterp spec fn joined(directory: PathBuf, name: Seq<char>) -> PathBuf;

/// The path that `PathBuf::from` makes of `text`.
pub uninterp spec fn path_of(text: Seq<char>) -> PathBuf;

/// Calls `std::path::Path::join`. The result is a function of the directory
/// and the name; which one, the contract leaves to the standard library.
#[verifier::external_body]
pub(crate) fn join(directory: &PathBuf, name: &str) -> (path: PathBuf)
    ensures
        path == joined(*directory, name@),
{
    directory.join(name)
}

/// Calls `PathBuf::from` on a string. The result is a function of the text.
#[verifier::external_body]
pub(crate) fn path_from(text: &str) -> (path: PathBuf)
    ensures
        path == path_of(text@),
{
    PathBuf::from(text)
}

} // verus!
