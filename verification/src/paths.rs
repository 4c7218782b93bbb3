use vstd::prelude::*;

use std::path::Path;

verus! {

/// The path std forms by joining `path` onto `base` on Unix: an absolute path replaces the
/// base, an empty base adds nothing, and otherwise a `/` separates the two unless the base
/// already ends in one.
pub open spec fn joined_path(base: Seq<char>, path: Seq<char>) -> Seq<char> {
    if absolute_path(path) || base.len() == 0 {
        path
    } else if base.last() == '/' {
        base + path
    } else {
        base + seq!['/'] + path
    }
}

/// Whether a Unix path is absolute: it starts at the root.
pub open spec fn absolute_path(path: Seq<char>) -> bool {
    path.len() > 0 && path[0] == '/'
}

/// `Path::is_absolute` of std on this Unix-only controller: a path is absolute exactly when it
/// starts with the root `/`.
#[verifier::external_body]
pub(crate) fn path_is_absolute(path: &str) -> (r: bool)
    ensures
        r == absolute_path(path@),
{
    Path::new(path).is_absolute()
}

/// `Path::join` of std: the base directory joined with a path, as text (lossless, since both
/// are UTF-8), with the Unix joining rule of `joined_path`.
#[verifier::external_body]
fn path_join(base: &str, path: &str) -> (r: String)
    ensures
        r@ == joined_path(base@, path@),
{
    Path::new(base).join(path).to_string_lossy().into_owned()
}

/// Whether std considers two paths equal: `Path`'s `==` compares their components, so spellings
/// that differ only in repeated or trailing separators or in `.` components name the same path.
pub uninterp spec fn path_eq(a: Seq<char>, b: Seq<char>) -> bool;

/// `==` of std on two `Path`s. The result is named; the one fact stated of it is that identical
/// text is the same path.
#[verifier::external_body]
pub(crate) fn same_path(a: &str, b: &str) -> (r: bool)
    ensures
        r == path_eq(a@, b@),
        a@ == b@ ==> r,
{
    Path::new(a) == Path::new(b)
}

/// A path as `resolve` leaves it.
pub open spec fn resolved(path: Seq<char>, base: Seq<char>) -> Seq<char> {
    if absolute_path(path) {
        path
    } else {
        joined_path(base, path)
    }
}

/// Resolving a path against an absolute base gives an absolute path, and resolving the result
/// again against the same base changes nothing.
pub proof fn lemma_resolution_is_absolute_and_stable(path: Seq<char>, base: Seq<char>)
    requires
        absolute_path(base),
    ensures
        absolute_path(resolved(path, base)),
        resolved(resolved(path, base), base) == resolved(path, base),
{
    if !absolute_path(path) {
        let j = resolved(path, base);
        if base.last() == '/' {
            assert(j[0] == base[0]);
        } else {
            assert(j[0] == (base + seq!['/'])[0]);
        }
    }
}

/// Resolves a configured path against the directory of its configuration file: relative paths
/// are joined onto the base, absolute paths are kept.
pub fn resolve(path: &mut String, base: &str)
    ensures
        final(path)@ == if absolute_path(old(path)@) { old(path)@ } else { joined_path(base@, old(path)@) },
{
    if !path_is_absolute(path.as_str()) {
        let joined = path_join(base, path.as_str());
        *path = joined;
    }
}

} // verus!
