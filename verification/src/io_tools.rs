//! The path sandbox: every path that a client names is confined to the tree
//! below the server's root before anything touches the file system.
//!
//! A request passes four gates in order: `move_relative` refuses absolute
//! input and joins the rest onto the session's directory; `resolve_path` has
//! the file system resolve links, `.` and `..`; `is_path_valid` compares the
//! resolved path with the root, component by component; `make_relative` turns
//! a valid path into the form handed back to the client.

use vstd::prelude::*;
use vstd::string::*;
use std::path::Path;
use crate::paths::{
    components_of, is_absolute_path, joined_path, path_components,
    path_is_absolute, path_join, path_strip_prefix, stripped_path, texts,
};
use crate::text::{owned_text, same_text};

verus! {

/// The path with text `path` lies at or below the one with text `root`: the
/// components of `root` begin those of `path`.
pub open spec fn contained(path: Seq<char>, root: Seq<char>) -> bool {
    components_of(root).is_prefix_of(components_of(path))
}

/// The path that a client means by `raw_path` while in `curr_dir`: none for
/// an absolute `raw_path`, whatever `curr_dir` is, else `raw_path` joined onto
/// `curr_dir`.
pub fn move_relative(raw_path: &str, curr_dir: &str) -> (r: Option<String>)
    ensures
        (r is None) == is_absolute_path(raw_path@),
        r matches Some(p) ==> p@ == joined_path(curr_dir@, raw_path@),
{
    if path_is_absolute(raw_path) {
        None
    } else {
        Some(path_join(curr_dir, raw_path))
    }
}

/// The canonical form of `path` on the file system of this machine, with
/// links, `.` and `..` resolved: none where the path does not exist, cannot
/// be resolved, or resolves to a name that is no text.
///
/// Calls `std::path::Path::canonicalize`. The answer is the file system's:
/// nothing is promised of it.
#[verifier::external_body]
pub fn resolve_path(path: &str) -> (r: Option<String>) {
    Path::new(path).canonicalize().ok().and_then(|p| p.into_os_string().into_string().ok())
}

/// Whether `prefix` begins `parts`, item by item.
pub fn begins_with(parts: &Vec<String>, prefix: &Vec<String>) -> (r: bool)
    ensures
        r == texts(prefix@).is_prefix_of(texts(parts@)),
{
    if parts.len() < prefix.len() {
        return false;
    }
    let ghost whole = texts(parts@);
    let ghost front = texts(prefix@);
    let mut i: usize = 0;
    while i < prefix.len()
        invariant
            i <= prefix.len() <= parts.len(),
            whole == texts(parts@),
            front == texts(prefix@),
            forall|k: int| 0 <= k < i ==> front[k] == whole[k],
        decreases prefix.len() - i,
    {
        assert(front[i as int] == prefix[i as int]@);
        assert(whole[i as int] == parts[i as int]@);
        if !same_text(parts[i].as_str(), prefix[i].as_str()) {
            assert(whole.subrange(0, front.len() as int)[i as int] == whole[i as int]);
            return false;
        }
        i += 1;
    }
    assert(front =~= whole.subrange(0, front.len() as int));
    true
}

/// Whether `path` lies at or below `root`. This is the check that confines a
/// request: it is meant for a path that `resolve_path` returned.
pub fn is_path_valid(path: &str, root: &str) -> (r: bool)
    ensures
        r == contained(path@, root@),
{
    let parts = path_components(path);
    let prefix = path_components(root);
    begins_with(&parts, &prefix)
}

/// The form in which the path with text `path` is handed to the client.
pub open spec fn relative_form(path: Seq<char>, root: Seq<char>) -> Option<Seq<char>> {
    if !contained(path, root) {
        None
    } else if is_absolute_path(path) {
        Some(path)
    } else {
        stripped_path(path, root)
    }
}

/// The form of `path` that is handed to the client: none for a path outside
/// `root`; an absolute path as it is; any other with `root` taken off its
/// front. Every path at or below `root` has such a form.
pub fn make_relative(path: &str, root: &str) -> (r: Option<String>)
    ensures
        (r is Some) == contained(path@, root@),
        relative_form(path@, root@) == match r {
            Some(p) => Some(p@),
            None => None,
        },
{
    if !is_path_valid(path, root) {
        None
    } else if path_is_absolute(path) {
        Some(owned_text(path))
    } else {
        path_strip_prefix(path, root)
    }
}

/// Lets a resolved path through if it lies at or below `root`; a path that
/// was not resolved, or lies elsewhere, is refused.
pub fn admit_resolved(resolved: Option<String>, root: &str) -> (r: Option<String>)
    ensures
        (r is Some) == (resolved matches Some(p) && contained(p@, root@)),
        r matches Some(p) ==> resolved matches Some(q) && p@ == q@,
{
    match resolved {
        None => None,
        Some(p) => if is_path_valid(p.as_str(), root) {
            Some(p)
        } else {
            None
        },
    }
}

/// The resolved path that a client's `raw_path` stands for while in
/// `curr_dir`, once it has passed the first three gates. Absolute input is
/// refused before the file system is asked, and whatever the file system
/// answers, a path that comes back lies at or below `root`.
pub fn confine(raw_path: &str, curr_dir: &str, root: &str) -> (r: Option<String>)
    ensures
        is_absolute_path(raw_path@) ==> r is None,
        r matches Some(p) ==> contained(p@, root@),
{
    match move_relative(raw_path, curr_dir) {
        None => None,
        Some(joined) => admit_resolved(resolve_path(joined.as_str()), root),
    }
}

} // verus!
