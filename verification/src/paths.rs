//! File-system paths, carried through the logic as opaque values.
//!
//! The logic never looks inside a path: it only chooses between paths it was
//! given, so a path keeps every byte the operating system handed over.
use std::path::PathBuf;
use vstd::prelude::*;

verus! {

/// `std::path::PathBuf`, whose contents the logic does not inspect.
#[verifier::external_type_specification]
#[verifier::external_body]
pub struct ExPathBuf(PathBuf);

/// The path that `PathBuf::from` builds from a string.
pub uninterp spec fn path_of(s: Seq<char>) -> PathBuf;

/// Calls `PathBuf::from(&str)`, which copies the string into a new path; the
/// result depends on the string alone, and is named `path_of` of it.
#[verifier::external_body]
pub(crate) fn path_from(s: &str) -> (p: PathBuf)
    ensures
        p == path_of(s@),
{
    PathBuf::from(s)
}

/// `<PathBuf as Clone>::clone` returns a path holding the same bytes; the
/// contract states that the copy equals the path it was made from.
pub assume_specification[ <PathBuf as Clone>::clone ](p: &PathBuf) -> (q: PathBuf)
    ensures
        q == *p,
;

} // verus!
