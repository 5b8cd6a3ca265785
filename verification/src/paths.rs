//! Paths, as far as this crate looks into them.

use vstd::prelude::*;

verus! {

/// What `std::path::Path::strip_prefix` gives for a path and a base: the
/// path relative to the base where the path starts with the base, component
/// by component, and nothing where it does not.
pub uninterp spec fn path_without_prefix(path: Seq<char>, base: Seq<char>) -> Option<Seq<char>>;

/// The path as it is written from `base`: the path without the base where it
/// starts with the base, else the path itself.
pub open spec fn relative_to(path: Seq<char>, base: Seq<char>) -> Seq<char> {
    match path_without_prefix(path, base) {
        Some(rest) => rest,
        None => path,
    }
}

/// Calls `Path::strip_prefix` on the path with the base. The result is what
/// [`path_without_prefix`] names.
#[verifier::external_body]
pub(crate) fn strip_prefix(path: &str, base: &str) -> (r: Option<String>)
    ensures
        match r {
            Some(rest) => path_without_prefix(path@, base@) == Some(rest@),
            None => path_without_prefix(path@, base@) is None,
        },
{
    match std::path::Path::new(path).strip_prefix(base) {
        Ok(rest) => Some(rest.to_string_lossy().into_owned()),
        Err(_) => None,
    }
}

/// The path as it is written from `base`.
pub fn relative_path(path: &str, base: &str) -> (r: String)
    ensures
        r@ == relative_to(path@, base@),
{
    match strip_prefix(path, base) {
        Some(rest) => rest,
        None => crate::text::copy_str(path),
    }
}

/// What `std::path::Path::parent` gives for a path: the path without its
/// last component, or nothing where there is no such path.
pub uninterp spec fn path_parent(path: Seq<char>) -> Option<Seq<char>>;

/// What `std::path::Path::join` gives for a base and a path.
pub uninterp spec fn path_joined(base: Seq<char>, path: Seq<char>) -> Seq<char>;

/// Calls `Path::parent` on the path. The result is what [`path_parent`]
/// names.
#[verifier::external_body]
pub(crate) fn parent(path: &str) -> (r: Option<String>)
    ensures
        match r {
            Some(p) => path_parent(path@) == Some(p@),
            None => path_parent(path@) is None,
        },
{
    match std::path::Path::new(path).parent() {
        Some(p) => Some(p.to_string_lossy().into_owned()),
        None => None,
    }
}

/// Calls `Path::join` on the base with the path. The result is what
/// [`path_joined`] names.
#[verifier::external_body]
pub(crate) fn join(base: &str, path: &str) -> (r: String)
    ensures
        r@ == path_joined(base@, path@),
{
    std::path::Path::new(base).join(path).to_string_lossy().into_owned()
}

/// The directory of a manifest as it is written from the root of the
/// workspace: a dot, joined with the directory of the manifest relative to
/// the root. A manifest without directory stands for itself.
pub open spec fn manifest_directory(manifest: Seq<char>, root: Seq<char>) -> Seq<char> {
    path_joined(
        "."@,
        relative_to(
            match path_parent(manifest) {
                Some(p) => p,
                None => manifest,
            },
            root,
        ),
    )
}

/// The directory of a manifest as it is written from the root of the
/// workspace.
pub fn relative_directory(manifest: &str, root: &str) -> (r: String)
    ensures
        r@ == manifest_directory(manifest@, root@),
{
    let directory = match parent(manifest) {
        Some(p) => p,
        None => crate::text::copy_str(manifest),
    };
    let relative = relative_path(directory.as_str(), root);
    join(".", relative.as_str())
}

} // verus!
