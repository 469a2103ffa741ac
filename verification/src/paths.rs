//! File paths, through `std::path`.

use vstd::prelude::*;

verus! {

/// The final component of a path, as `std::path::Path::file_name` gives
/// it: `None` for a path that ends in `..` or has no component.
pub uninterp spec fn file_name_of(path: Seq<char>) -> Option<Seq<char>>;

/// The extension of a path, as `std::path::Path::extension` gives it.
pub uninterp spec fn extension_of(path: Seq<char>) -> Option<Seq<char>>;

/// The directory that holds a path, as `std::path::Path::parent` gives
/// it: `None` for a root or an empty path.
pub uninterp spec fn parent_of(path: Seq<char>) -> Option<Seq<char>>;

/// A path with another joined to it, as `std::path::Path::join` gives it.
pub uninterp spec fn join_of(base: Seq<char>, more: Seq<char>) -> Seq<char>;

/// `Path::file_name` of a path given as text. The text is valid UTF-8, so
/// the component converts to a `String` without loss. Nothing more of the
/// result is claimed than that it is the function's result on the path.
#[verifier::external_body]
pub(crate) fn path_file_name(path: &str) -> (r: Option<String>)
    ensures
        r matches Some(n) ==> file_name_of(path@) == Some(n@),
        r is None ==> file_name_of(path@) is None,
{
    match std::path::Path::new(path).file_name() {
        Some(n) => Some(n.to_string_lossy().into_owned()),
        None => None,
    }
}

/// `Path::extension` of a path given as text. Nothing more of the result
/// is claimed than that it is the function's result on the path.
#[verifier::external_body]
pub(crate) fn path_extension(path: &str) -> (r: Option<String>)
    ensures
        r matches Some(e) ==> extension_of(path@) == Some(e@),
        r is None ==> extension_of(path@) is None,
{
    match std::path::Path::new(path).extension() {
        Some(e) => Some(e.to_string_lossy().into_owned()),
        None => None,
    }
}

/// `Path::parent` of a path given as text. The text is valid UTF-8, so
/// the parent converts to a `String` without loss. Nothing more of the
/// result is claimed than that it is the function's result on the path.
#[verifier::external_body]
pub(crate) fn path_parent(path: &str) -> (r: Option<String>)
    ensures
        r matches Some(p) ==> parent_of(path@) == Some(p@),
        r is None ==> parent_of(path@) is None,
{
    match std::path::Path::new(path).parent() {
        Some(p) => Some(p.to_string_lossy().into_owned()),
        None => None,
    }
}

/// `Path::join` of two paths given as text. Both are valid UTF-8, so the
/// joined path converts to a `String` without loss. Nothing more of the
/// result is claimed than that it is the function's result on its
/// arguments.
#[verifier::external_body]
pub(crate) fn path_join(base: &str, more: &str) -> (r: String)
    ensures
        r@ == join_of(base@, more@),
{
    std::path::Path::new(base).join(more).to_string_lossy().into_owned()
}

} // verus!
