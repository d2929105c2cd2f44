//! File paths, read through `std::path`. Their exact rules (separators,
//! roots, dots) belong to the standard library; the library names what the
//! calls return.
use vstd::prelude::*;

verus! {

/// What `Path::parent` returns for a path given as text.
pub uninterp spec fn parent_of(p: Seq<char>) -> Option<Seq<char>>;

/// What `Path::file_stem` returns for a path given as text.
pub uninterp spec fn file_stem_of(p: Seq<char>) -> Option<Seq<char>>;

/// What `Path::join` returns for a base and a part given as text.
pub uninterp spec fn joined(base: Seq<char>, part: Seq<char>) -> Seq<char>;

/// Relies on `Path::parent`: the path without its last component, `None`
/// when it ends in a root or prefix or is empty. The result depends on the
/// text alone; a part of a UTF-8 path is UTF-8, so the lossy conversion keeps it.
#[verifier::external_body]
pub(crate) fn parent(p: &str) -> (r: Option<String>)
    ensures
        r matches Some(q) ==> parent_of(p@) == Some(q@),
        r is None ==> parent_of(p@) is None,
{
    match std::path::Path::new(p).parent() {
        Some(q) => Some(q.to_string_lossy().to_string()),
        None => None,
    }
}

/// Relies on `Path::file_stem`: the file name without its last extension,
/// `None` when there is no file name. The result depends on the text alone.
#[verifier::external_body]
pub(crate) fn file_stem(p: &str) -> (r: Option<String>)
    ensures
        r matches Some(q) ==> file_stem_of(p@) == Some(q@),
        r is None ==> file_stem_of(p@) is None,
{
    match std::path::Path::new(p).file_stem() {
        Some(q) => Some(q.to_string_lossy().to_string()),
        None => None,
    }
}

/// Relies on `Path::join`: `part` appended to `base` with a separator where
/// one is needed. The result depends on the two texts alone.
#[verifier::external_body]
pub(crate) fn join(base: &str, part: &str) -> (r: String)
    ensures
        r@ == joined(base@, part@),
{
    std::path::Path::new(base).join(part).to_string_lossy().to_string()
}

} // verus!
