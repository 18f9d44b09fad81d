//! What the library takes from `std::path`.
//!
//! Paths are held as UTF-8 text. The grammar of paths (separators, roots,
//! `.` and `..`, trailing slashes) is that of `std::path::Path` on Unix,
//! where the root is `/`. This module calls `Path` and does not restate
//! that grammar: each function below stands for one method of `Path`, and
//! the spec function beside it names that method's result so that
//! contracts elsewhere can speak of it.

use vstd::prelude::*;

verus! {

/// What `Path::parent` returns for the path with this text.
pub uninterp spec fn path_parent(path: Seq<char>) -> Option<Seq<char>>;

/// What `Path::join` returns for the path `base` and the relative or
/// absolute path `name`.
pub uninterp spec fn path_join(base: Seq<char>, name: Seq<char>) -> Seq<char>;

/// The components that `Path::iter` yields for the path with this text.
pub uninterp spec fn path_components(path: Seq<char>) -> Seq<Seq<char>>;

/// Whether `Path` holds the two paths equal (it compares component by
/// component, so `a/b` and `a//b/` are equal).
pub uninterp spec fn path_equal(a: Seq<char>, b: Seq<char>) -> bool;

/// Text of the filesystem root.
pub open spec fn root_text() -> Seq<char> {
    seq!['/']
}

/// Calls `Path::parent`. Trusted: the result is the one that `path_parent`
/// names, and nothing else is claimed of it.
#[verifier::external_body]
pub(crate) fn parent(path: &String) -> (up: Option<String>)
    ensures
        match up {
            Some(p) => path_parent(path@) == Some(p@),
            None => path_parent(path@) is None,
        },
{
    std::path::Path::new(path.as_str()).parent().map(|p| p.to_string_lossy().into_owned())
}

/// Calls `Path::join`. Trusted: the result is the one that `path_join`
/// names.
#[verifier::external_body]
pub(crate) fn join(base: &String, name: &String) -> (joined: String)
    ensures
        joined@ == path_join(base@, name@),
{
    std::path::Path::new(base.as_str()).join(name.as_str()).to_string_lossy().into_owned()
}

/// Calls `Path::iter` and collects what it yields. Trusted: the result is
/// the sequence that `path_components` names.
#[verifier::external_body]
pub(crate) fn components(path: &String) -> (parts: Vec<String>)
    ensures
        crate::model::texts(parts@) == path_components(path@),
{
    let mut parts: Vec<String> = Vec::new();
    for part in std::path::Path::new(path.as_str()).iter() {
        parts.push(part.to_string_lossy().into_owned());
    }
    parts
}

/// Compares two paths with `Path`'s `==`. Trusted: the result is the one
/// that `path_equal` names.
#[verifier::external_body]
pub(crate) fn same_path(a: &String, b: &String) -> (same: bool)
    ensures
        same == path_equal(a@, b@),
{
    std::path::Path::new(a.as_str()) == std::path::Path::new(b.as_str())
}

/// The root as an owned path.
pub fn root() -> (path: String)
    ensures
        path@ == root_text(),
{
    let path = "/".to_string();
    proof {
        reveal_strlit("/");
        assert(path@ =~= root_text());
    }
    path
}

} // verus!
