//! Paths, held as text, and what the platform's path type says of them.
//!
//! The functions here hand a path's text to `std::path` and bring the answer
//! back as plain values. Their contracts are believed, not proved: each one
//! names the answer after the text it was computed from, or, where the answer
//! depends on the disk or the environment, promises nothing. What `std::path`
//! says of a text is fixed by the platform that the library is built for.

use vstd::prelude::*;
use std::path::Path;

verus! {

/// Whether `std::path::Path::is_absolute` holds of the path with this text.
pub uninterp spec fn is_absolute_path(path: Seq<char>) -> bool;

/// The text of `std::path::Path::join` of the paths with these texts.
pub uninterp spec fn joined_path(base: Seq<char>, tail: Seq<char>) -> Seq<char>;

/// The components that `std::path::Path::components` yields for the path
/// with this text, each as the text it stands for in the path.
pub uninterp spec fn components_of(path: Seq<char>) -> Seq<Seq<char>>;

/// What `std::path::Path::strip_prefix` gives for the paths with these
/// texts: the text that is left of `path` once `base` is taken off its front,
/// or nothing where it fails.
pub uninterp spec fn stripped_path(path: Seq<char>, base: Seq<char>) -> Option<Seq<char>>;

/// What `std::path::Path::extension` finds in the path with this text.
pub uninterp spec fn extension_of(path: Seq<char>) -> Option<Seq<char>>;

/// The texts of a list of strings.
pub open spec fn texts(parts: Seq<String>) -> Seq<Seq<char>> {
    parts.map_values(|s: String| s@)
}

/// Calls `std::path::Path::is_absolute`. The contract only names the answer.
#[verifier::external_body]
pub(crate) fn path_is_absolute(path: &str) -> (r: bool)
    ensures
        r == is_absolute_path(path@),
{
    Path::new(path).is_absolute()
}

/// Calls `std::path::Path::join`. The contract only names the text of the
/// path that comes back; two texts joined hold no byte that is not text.
#[verifier::external_body]
pub(crate) fn path_join(base: &str, tail: &str) -> (r: String)
    ensures
        r@ == joined_path(base@, tail@),
{
    Path::new(base).join(tail).to_string_lossy().into_owned()
}

/// Calls `std::path::Path::components` and hands out each component as the
/// text that `Component::as_os_str` gives for it. The contract only names
/// the list; a part of a text is text.
#[verifier::external_body]
pub(crate) fn path_components(path: &str) -> (r: Vec<String>)
    ensures
        texts(r@) == components_of(path@),
{
    Path::new(path).components().map(|c| c.as_os_str().to_string_lossy().into_owned()).collect()
}

/// Calls `std::path::Path::strip_prefix`, which is documented to fail
/// exactly where `base` is not a prefix of `path`, whole components
/// compared: `None` where it fails. The contract says when it succeeds, over
/// the components of the two paths, and names the answer; what is left of a
/// text is text.
#[verifier::external_body]
pub(crate) fn path_strip_prefix(path: &str, base: &str) -> (r: Option<String>)
    ensures
        (r is Some) == components_of(base@).is_prefix_of(components_of(path@)),
        match r {
            Some(rest) => stripped_path(path@, base@) == Some(rest@),
            None => stripped_path(path@, base@) is None,
        },
{
    Path::new(path).strip_prefix(base).ok().map(|p| p.to_string_lossy().into_owned())
}

/// Calls `std::path::Path::extension`. The contract only names the answer;
/// a part of a text is text.
#[verifier::external_body]
pub(crate) fn path_extension(path: &str) -> (r: Option<String>)
    ensures
        match r {
            Some(ext) => extension_of(path@) == Some(ext@),
            None => extension_of(path@) is None,
        },
{
    Path::new(path).extension().map(|e| e.to_string_lossy().into_owned())
}

/// Calls `std::path::Path::exists`, which asks the file system. Nothing is
/// promised of the answer.
#[verifier::external_body]
pub(crate) fn path_exists(path: &str) -> (r: bool) {
    Path::new(path).exists()
}

/// Calls `homedir::my_home`, which reads the environment and the user
/// database: `None` where it fails, finds no home, or the home is no text.
/// Nothing is promised of the answer.
#[verifier::external_body]
pub(crate) fn home_path() -> (r: Option<String>) {
    homedir::my_home().ok().flatten().and_then(|p| p.into_os_string().into_string().ok())
}

} // verus!
