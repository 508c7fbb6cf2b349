//! File paths.
use std::path::PathBuf;
use vstd::prelude::*;
use vstd::string::*;

verus! {

#[verifier::external_type_specification]
#[verifier::external_body]
pub struct ExPathBuf(std::path::PathBuf);

/// The text that a path is shown as.
pub uninterp spec fn path_text(p: std::path::PathBuf) -> Seq<char>;

/// `PathBuf::from` on a string: the path is shown as that string.
#[verifier::external_body]
pub(crate) fn path_of(text: &str) -> (r: PathBuf)
    ensures
        path_text(r) == text@,
{
    PathBuf::from(text)
}

/// `Path::display`: the text that the path is shown as.
#[verifier::external_body]
pub(crate) fn show_path(p: &PathBuf) -> (r: String)
    ensures
        r@ == path_text(*p),
{
    p.display().to_string()
}

/// The directory that `Path::parent` gives for a path.
pub uninterp spec fn path_parent(p: std::path::PathBuf) -> Option<std::path::PathBuf>;

/// `Path::parent`.
#[verifier::external_body]
pub(crate) fn parent_of(p: &PathBuf) -> (r: Option<PathBuf>)
    ensures
        r == path_parent(*p),
{
    p.parent().map(|d| d.to_path_buf())
}

/// `PathBuf::clone`: the same path.
pub assume_specification[ <PathBuf as Clone>::clone ](p: &PathBuf) -> (r: PathBuf)
    ensures
        r == *p,
;

} // verus!
