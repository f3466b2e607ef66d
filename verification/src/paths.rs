//! What the standard library's path parser reports about a path text.
//!
//! Parsing a path is textual: nothing is looked up in the file system, and
//! the answer follows from the characters of the path by the path syntax of
//! the platform the program is built for.

use crate::text::optional_text;
use vstd::prelude::*;

verus! {

/// The final component of a path, as `std::path::Path::file_name` reports
/// it: `None` where the path has none, as for a path that ends in `..`.
pub uninterp spec fn path_file_name_of(path: Seq<char>) -> Option<Seq<char>>;

/// The extension of a path's final component, without the dot, as
/// `std::path::Path::extension` reports it.
pub uninterp spec fn path_extension_of(path: Seq<char>) -> Option<Seq<char>>;

/// Calls `std::path::Path::file_name` on the path text and hands the
/// component back as text. Assumed: the result is the named final component.
#[verifier::external_body]
pub(crate) fn path_file_name(path: &str) -> (name: Option<String>)
    ensures
        optional_text(name) == path_file_name_of(path@),
{
    let component = std::path::Path::new(path).file_name()?;
    Some(component.to_str()?.to_owned())
}

/// Calls `std::path::Path::extension` on the path text and hands the
/// extension back as text. Assumed: the result is the named extension.
#[verifier::external_body]
pub(crate) fn path_extension(path: &str) -> (extension: Option<String>)
    ensures
        optional_text(extension) == path_extension_of(path@),
{
    let component = std::path::Path::new(path).extension()?;
    Some(component.to_str()?.to_owned())
}

} // verus!
