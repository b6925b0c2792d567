//! The platform types that values of this crate carry, and the few things
//! that are taken on trust about them.

use vstd::prelude::*;
use std::path::PathBuf;

verus! {

/// The platform's I/O error. Its contents are not inspected here; it is
/// carried from the failed operation into the contextual error.
#[verifier::external_type_specification]
#[verifier::external_body]
pub struct ExIoError(std::io::Error);

/// An owned filesystem path.
#[verifier::external_type_specification]
#[verifier::external_body]
pub struct ExPathBuf(std::path::PathBuf);

/// A borrowed filesystem path. No value of this crate holds one; it is
/// declared because an owned path dereferences to it.
#[verifier::external_type_specification]
#[verifier::external_body]
pub struct ExPath(std::path::Path);

/// A point in time as the platform reports it for a file.
#[verifier::external_type_specification]
#[verifier::external_body]
pub struct ExSystemTime(std::time::SystemTime);

/// `PathBuf::clone` returns a path equal to the one it was called on.
pub assume_specification[ <PathBuf as Clone>::clone ](path: &PathBuf) -> (copy: PathBuf)
    ensures
        copy == *path,
;

/// The text that `Path::display` shows for a path: the path itself where it
/// is valid Unicode, and a lossy rendering of it where it is not.
pub uninterp spec fn path_display(path: PathBuf) -> Seq<char>;

/// Renders a path with `Path::display`. The result is the text named by
/// [`path_display`]; nothing else is claimed of it.
#[verifier::external_body]
pub(crate) fn path_text(path: &PathBuf) -> (text: String)
    ensures
        text@ == path_display(*path),
{
    format!("{}", path.display())
}

} // verus!
