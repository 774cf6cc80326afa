//! Path arithmetic, done by `std::path`, and home-directory expansion, done
//! by `shellexpand`.

use crate::text::text_of;
use std::path::Path;
use vstd::prelude::*;

verus! {

/// What `Path::join` gives for `base` and `name` on the platform the crate is
/// built for: `name` appended to `base` with a separator between them where
/// one is needed, or `name` alone where `name` is absolute.
pub uninterp spec fn path_joined(base: Seq<char>, name: Seq<char>) -> Seq<char>;

/// What `Path::parent` gives: the path without its final component. `None`
/// for the empty path and for a root; the empty path for a bare name.
pub uninterp spec fn path_parent(path: Seq<char>) -> Option<Seq<char>>;

/// What `Path::file_name` gives: the final component of the path, `None`
/// where the path ends in `..` or has no component.
pub uninterp spec fn path_file_name(path: Seq<char>) -> Option<Seq<char>>;

/// Whether `text` ends with `tail`.
pub open spec fn ends_with(text: Seq<char>, tail: Seq<char>) -> bool {
    tail.len() <= text.len() && text.skip(text.len() - tail.len()) == tail
}

/// What is known of a destination after home-directory expansion, whatever
/// the home directory is and whether or not it could be determined.
pub open spec fn is_expansion_of(expanded: Seq<char>, path: Seq<char>) -> bool {
    if path.len() == 0 || path[0] != '~' {
        expanded == path
    } else if path.len() >= 2 && path[1] != '/' && path[1] != '\\' {
        expanded == path
    } else {
        ends_with(expanded, path.skip(1))
    }
}

/// Calls `Path::join`.
///
/// Trusted: the result is the path named by [`path_joined`]. Both arguments
/// are UTF-8, so is their join, and the conversion back loses nothing.
#[verifier::external_body]
pub(crate) fn join(base: &str, name: &str) -> (r: String)
    ensures
        r@ == path_joined(base@, name@),
{
    Path::new(base).join(name).to_string_lossy().into_owned()
}

/// Calls `Path::parent`.
///
/// Trusted: the result is the path named by [`path_parent`].
#[verifier::external_body]
pub(crate) fn parent(path: &str) -> (r: Option<String>)
    ensures
        text_of(r) == path_parent(path@),
{
    match Path::new(path).parent() {
        Some(parent) => Some(parent.to_string_lossy().into_owned()),
        None => None,
    }
}

/// Calls `Path::file_name`.
///
/// Trusted: the result is the name named by [`path_file_name`].
#[verifier::external_body]
pub(crate) fn file_name(path: &str) -> (r: Option<String>)
    ensures
        text_of(r) == path_file_name(path@),
{
    match Path::new(path).file_name() {
        Some(name) => Some(name.to_string_lossy().into_owned()),
        None => None,
    }
}

/// Calls `shellexpand::tilde`.
///
/// Trusted: a path that does not begin with `~`, or that continues after the
/// `~` with something other than a separator, comes back unchanged; any other
/// path comes back with the `~` either kept or replaced by the home directory,
/// so what followed the `~` still ends the result. The home directory is read
/// from the environment, so nothing more is known of it.
#[verifier::external_body]
pub(crate) fn tilde(path: &str) -> (r: String)
    ensures
        is_expansion_of(r@, path@),
{
    shellexpand::tilde(path).into_owned()
}

} // verus!
