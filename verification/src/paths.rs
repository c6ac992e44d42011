//! Paths of the file system, taken apart by `std::path`.

use std::path::PathBuf;
use vstd::prelude::*;

verus! {

/// `std::path::PathBuf`, an owned path.
#[verifier::external_type_specification]
#[verifier::external_body]
pub struct ExPathBuf(PathBuf);

/// What is left of `path` when its last component is taken away; `path` itself
/// where it has no parent.
pub uninterp spec fn without_last_component(path: PathBuf) -> PathBuf;

/// The last component of `path`, where it ends in the name of a file or of a
/// directory.
pub uninterp spec fn last_component(path: PathBuf) -> Option<PathBuf>;

/// The path as text, where it is valid Unicode.
pub uninterp spec fn path_text(path: PathBuf) -> Option<Seq<char>>;

/// The name of the file or directory that `path` ends in, as text.
pub open spec fn file_name_text(path: PathBuf) -> Option<Seq<char>> {
    match last_component(path) {
        Some(name) => path_text(name),
        None => None,
    }
}

/// Wraps `PathBuf::pop`, which truncates a path to its parent and leaves a path
/// without a parent as it is.
#[verifier::external_body]
pub(crate) fn pop_last_component(path: PathBuf) -> (r: PathBuf)
    ensures
        r == without_last_component(path),
{
    let mut path = path;
    path.pop();
    path
}

/// Wraps `Path::file_name`, which gives the last component of a path, and
/// nothing where the path ends in a root or in `..`.
#[verifier::external_body]
pub(crate) fn file_name(path: &PathBuf) -> (r: Option<PathBuf>)
    ensures
        r == last_component(*path),
{
    path.file_name().map(PathBuf::from)
}

/// Wraps `Path::to_str`, which gives a path as text, and nothing where the
/// path is not valid Unicode.
#[verifier::external_body]
pub(crate) fn to_text(path: &PathBuf) -> (r: Option<String>)
    ensures
        match r {
            Some(text) => path_text(*path) == Some(text@),
            None => path_text(*path) is None,
        },
{
    path.to_str().map(String::from)
}

} // verus!
