//! Paths of the file system, held as text.

use vstd::prelude::*;

verus! {

/// The path that joining `part` to `base` gives on the platform that the
/// library is built for.
pub uninterp spec fn joined_path(base: Seq<char>, part: Seq<char>) -> Seq<char>;

/// `std::path::Path::join`: `base` extended by `part`, with the platform's
/// separator between them; an absolute `part` replaces `base`. The contract
/// gives the result the name `joined_path` and claims nothing else of it.
#[verifier::external_body]
pub(crate) fn join_path(base: &str, part: &str) -> (joined: String)
    ensures
        joined@ == joined_path(base@, part@),
{
    std::path::Path::new(base).join(part).to_string_lossy().into_owned()
}

/// `base` extended by two parts, one after the other.
pub open spec fn joined_path2(base: Seq<char>, first: Seq<char>, second: Seq<char>) -> Seq<char> {
    joined_path(joined_path(base, first), second)
}

/// `base` extended by two parts, one after the other.
pub fn join_path2(base: &str, first: &str, second: &str) -> (joined: String)
    ensures
        joined@ == joined_path2(base@, first@, second@),
{
    let inner = join_path(base, first);
    join_path(inner.as_str(), second)
}

/// `base` extended by three parts, one after the other.
pub open spec fn joined_path3(
    base: Seq<char>,
    first: Seq<char>,
    second: Seq<char>,
    third: Seq<char>,
) -> Seq<char> {
    joined_path(joined_path2(base, first, second), third)
}

/// `base` extended by three parts, one after the other.
pub fn join_path3(base: &str, first: &str, second: &str, third: &str) -> (joined: String)
    ensures
        joined@ == joined_path3(base@, first@, second@, third@),
{
    let inner = join_path2(base, first, second);
    join_path(inner.as_str(), third)
}

/// The directory that holds a path, where the path has one.
pub uninterp spec fn parent_path(path: Seq<char>) -> Option<Seq<char>>;

/// `std::path::Path::parent`: the path without its last component, or
/// nothing where the path ends in a root or is empty. The contract gives the
/// result the name `parent_path`.
#[verifier::external_body]
pub(crate) fn path_parent(path: &str) -> (parent: Option<String>)
    ensures
        crate::notes::opt_view(parent) == parent_path(path@),
{
    match std::path::Path::new(path).parent() {
        Some(parent) => Some(parent.to_string_lossy().into_owned()),
        None => None,
    }
}

/// A path rebuilt from its components: without repeated separators and
/// without components that stand for the directory itself.
pub uninterp spec fn normalized_path(path: Seq<char>) -> Seq<char>;

/// `std::path::Path::components`, collected into a path again. The contract
/// gives the result the name `normalized_path`.
#[verifier::external_body]
pub(crate) fn normalize_path(path: &str) -> (normalized: String)
    ensures
        normalized@ == normalized_path(path@),
{
    let rebuilt: std::path::PathBuf = std::path::Path::new(path).components().collect();
    rebuilt.to_string_lossy().into_owned()
}

} // verus!
