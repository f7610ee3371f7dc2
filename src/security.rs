//! Whether a path lies under one of a set of trusted directories.
use vstd::prelude::*;

verus! {

/// Name for what `std::path::Path::starts_with` decides: whether `base` is a
/// prefix of `path` by whole path components.
pub uninterp spec fn path_starts_with(path: Seq<char>, base: Seq<char>) -> bool;

/// Relies on `std::path::Path::starts_with`, which compares whole components.
#[verifier::external_body]
fn path_has_prefix(path: &str, base: &str) -> (r: bool)
    ensures
        r == path_starts_with(path@, base@),
{
    std::path::Path::new(path).starts_with(std::path::Path::new(base))
}

/// Whether `path` lies under one of `trusted_paths`, by whole components.
pub fn is_trusted_path(path: &str, trusted_paths: &[String]) -> (r: bool)
    ensures
        r == exists|i: int|
            0 <= i < trusted_paths@.len() && #[trigger] path_starts_with(
                path@,
                trusted_paths@[i]@,
            ),
{
    let mut i: usize = 0;
    while i < trusted_paths.len()
        invariant
            i <= trusted_paths@.len(),
            forall|j: int| 0 <= j < i ==> !#[trigger] path_starts_with(path@, trusted_paths@[j]@),
        decreases trusted_paths@.len() - i,
    {
        if path_has_prefix(path, trusted_paths[i].as_str()) {
            return true;
        }
        i = i + 1;
    }
    false
}

} // verus!
