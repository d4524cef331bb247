//! What this library assumes of `std::path`.
//!
//! A path is modelled by its encoded bytes. On every platform a `str` is a
//! valid path whose encoded bytes are exactly the string's UTF-8 bytes.
use vstd::prelude::*;

verus! {

use std::cmp::Ordering;
use std::path::{Path, PathBuf};
use vstd::string::StringSliceAdditionalSpecFns;
use vstd::utf8::valid_utf8;

#[verifier::external_type_specification]
#[verifier::external_body]
pub struct ExPath(Path);

#[verifier::external_type_specification]
#[verifier::external_body]
pub struct ExPathBuf(PathBuf);

/// The encoded bytes of a borrowed path (`OsStr::as_encoded_bytes`).
pub uninterp spec fn path_bytes(p: &Path) -> Seq<u8>;

/// The encoded bytes held by an owned path buffer.
pub uninterp spec fn path_buf_bytes(p: &PathBuf) -> Seq<u8>;

/// Whether two paths over these bytes compare equal; std compares paths
/// component by component, so `a/b` and `a//b` are equal paths.
pub uninterp spec fn same_path(a: Seq<u8>, b: Seq<u8>) -> bool;

/// Relies on `Path::new`: a string slice is wrapped, without copying, as a
/// path over the same bytes.
#[verifier::external_body]
pub(crate) fn path_of_str<'a>(s: &'a str) -> (r: &'a Path)
    ensures
        path_bytes(r) == s.spec_bytes(),
{
    Path::new(s)
}

/// Relies on `Path::to_str`: yields the path's text when its bytes are valid
/// UTF-8, and nothing otherwise.
#[verifier::external_body]
pub(crate) fn path_to_str<'a>(p: &'a Path) -> (r: Option<&'a str>)
    ensures
        r is Some <==> valid_utf8(path_bytes(p)),
        r matches Some(s) ==> s.spec_bytes() == path_bytes(p),
{
    p.to_str()
}

/// Relies on `Path::to_path_buf`: a fresh owned buffer with the same bytes.
#[verifier::external_body]
pub(crate) fn path_to_path_buf(p: &Path) -> (r: PathBuf)
    ensures
        path_buf_bytes(&r) == path_bytes(p),
{
    p.to_path_buf()
}

/// Relies on `PathBuf::as_path`: a view of the buffer's own bytes.
#[verifier::external_body]
pub(crate) fn path_buf_as_path(b: &PathBuf) -> (r: &Path)
    ensures
        path_bytes(r) == path_buf_bytes(b),
{
    b.as_path()
}

/// Relies on `<Path as PartialEq>::eq`, which depends on the two paths'
/// bytes alone and holds of a path and itself.
#[verifier::external_body]
pub(crate) fn path_eq(a: &Path, b: &Path) -> (r: bool)
    ensures
        r == same_path(path_bytes(a), path_bytes(b)),
        path_bytes(a) == path_bytes(b) ==> r,
{
    a == b
}

/// How two paths over these bytes are ordered: std orders paths by their
/// components, lexicographically.
pub uninterp spec fn path_order(a: Seq<u8>, b: Seq<u8>) -> Ordering;

/// Relies on `<Path as Ord>::cmp`, which depends on the two paths' bytes
/// alone and finds a path equal to itself.
#[verifier::external_body]
pub(crate) fn path_cmp(a: &Path, b: &Path) -> (r: Ordering)
    ensures
        r == path_order(path_bytes(a), path_bytes(b)),
        path_bytes(a) == path_bytes(b) ==> r == Ordering::Equal,
{
    a.cmp(b)
}

/// The text that `Path::display` shows for a path over these bytes.
pub uninterp spec fn display_text(b: Seq<u8>) -> Seq<char>;

/// Relies on `Path::display`: the shown text depends on the path's bytes alone.
#[verifier::external_body]
pub(crate) fn path_display(p: &Path) -> (r: String)
    ensures
        r@ == display_text(path_bytes(p)),
{
    format!("{}", p.display())
}

/// Relies on `<Path as Hash>::hash`: feeds the path to the hasher.
#[verifier::external_body]
pub(crate) fn path_hash<H: std::hash::Hasher>(p: &Path, state: &mut H) {
    std::hash::Hash::hash(p, state)
}

/// Relies on `<Path as ToOwned>::clone_into`: the target buffer ends up
/// holding the source path's bytes.
#[verifier::external_body]
pub(crate) fn path_clone_into(p: &Path, target: &mut PathBuf)
    ensures
        path_buf_bytes(final(target)) == path_bytes(p),
{
    p.clone_into(target)
}

} // verus!
