//! `MaybePath`: a copyable reference to either a `Path` or a `str`.
use vstd::prelude::*;

verus! {

use std::cmp::Ordering;
use std::path::{Path, PathBuf};
use vstd::utf8::{decode_utf8, encode_utf8, valid_utf8};
use crate::host_path::{
    display_text, path_bytes, path_buf_bytes, path_cmp, path_display, path_eq, path_hash,
    path_of_str, path_order, path_to_path_buf, path_to_str, same_path,
};

/// The abstract value of a `MaybePath`: which shape of reference it holds,
/// and what that reference holds.
pub enum PathRepr {
    /// A path, given by its encoded bytes.
    PathShaped(Seq<u8>),
    /// A string, given by its characters.
    StrShaped(Seq<char>),
}

impl PathRepr {
    /// The bytes of the path view: a string is read as the path over its UTF-8 bytes.
    pub open spec fn bytes(self) -> Seq<u8> {
        match self {
            PathRepr::PathShaped(b) => b,
            PathRepr::StrShaped(s) => encode_utf8(s),
        }
    }

    /// The string view: absent only for a path whose bytes are not UTF-8.
    pub open spec fn text(self) -> Option<Seq<char>> {
        match self {
            PathRepr::PathShaped(b) => if valid_utf8(b) {
                Some(decode_utf8(b))
            } else {
                None
            },
            PathRepr::StrShaped(s) => Some(s),
        }
    }
}

/// The reference a `MaybePath` holds; the variant is its discriminant.
#[derive(Copy, Clone, Debug)]
enum Inner<'a> {
    Path(&'a Path),
    Str(&'a str),
}

/// A read-only path reference that can also hold a `str`, so that a path can
/// be written as a string constant. It never allocates, and copying it copies
/// a reference and a tag.
#[derive(Copy, Clone, Debug)]
pub struct MaybePath<'a> {
    inner: Inner<'a>,
}

impl<'a> View for MaybePath<'a> {
    type V = PathRepr;

    closed spec fn view(&self) -> PathRepr {
        match self.inner {
            Inner::Path(p) => PathRepr::PathShaped(path_bytes(p)),
            Inner::Str(s) => PathRepr::StrShaped(s@),
        }
    }
}

impl<'a> MaybePath<'a> {
    /// Creates a string-shaped `MaybePath`.
    pub fn new_str(str: &'a str) -> (r: Self)
        ensures
            r@ == PathRepr::StrShaped(str@),
    {
        MaybePath { inner: Inner::Str(str) }
    }

    /// Creates a path-shaped `MaybePath`.
    pub fn new_path(path: &'a Path) -> (r: Self)
        ensures
            r@ == PathRepr::PathShaped(path_bytes(path)),
    {
        MaybePath { inner: Inner::Path(path) }
    }

    /// Whether this holds a path; if not, `as_path` converts the string.
    pub fn is_path(&self) -> (r: bool)
        ensures
            r == self@ is PathShaped,
    {
        match self.inner {
            Inner::Path(_) => true,
            Inner::Str(_) => false,
        }
    }

    /// The path view of the referenced data, without copying it.
    pub fn as_path(&self) -> (r: &'a Path)
        ensures
            path_bytes(r) == self@.bytes(),
    {
        match self.inner {
            Inner::Path(p) => p,
            Inner::Str(s) => path_of_str(s),
        }
    }

    /// The string view of the referenced data; `None` for a path that is not
    /// valid UTF-8.
    pub fn as_str(&self) -> (r: Option<&'a str>)
        ensures
            r is Some <==> self@.text() is Some,
            r matches Some(s) ==> self@.text() == Some(s@),
    {
        match self.inner {
            Inner::Path(p) => {
                let r = path_to_str(p);
                proof {
                    if let Some(s) = r {
                        vstd::utf8::encode_utf8_decode_utf8(s@);
                    }
                }
                r
            },
            Inner::Str(s) => Some(s),
        }
    }

    /// The path as text for people to read; bytes that are not UTF-8 may be
    /// shown in a lossy form.
    pub fn to_display_string(&self) -> (r: String)
        ensures
            r@ == display_text(self@.bytes()),
    {
        path_display(self.as_path())
    }

    /// Copies the referenced data into a new owned path buffer.
    pub fn to_owned(&self) -> (r: PathBuf)
        ensures
            path_buf_bytes(&r) == self@.bytes(),
    {
        path_to_path_buf(self.as_path())
    }
}

impl<'a> Default for MaybePath<'a> {
    /// The empty string-shaped path.
    fn default() -> (r: Self)
        ensures
            r@ == PathRepr::StrShaped(Seq::empty()),
    {
        let r = MaybePath::new_str("");
        proof {
            reveal_strlit("");
            assert(""@ =~= Seq::<char>::empty());
        }
        r
    }
}

impl<'a> PartialEq for MaybePath<'a> {
    /// Two values are equal when their path views are equal paths.
    fn eq(&self, other: &Self) -> (r: bool) {
        path_eq(self.as_path(), other.as_path())
    }
}

impl<'a> vstd::std_specs::cmp::PartialEqSpecImpl for MaybePath<'a> {
    open spec fn obeys_eq_spec() -> bool {
        true
    }

    open spec fn eq_spec(&self, other: &Self) -> bool {
        same_path(self@.bytes(), other@.bytes())
    }
}

impl<'a> Eq for MaybePath<'a> {}

impl<'a> PartialOrd for MaybePath<'a> {
    /// Orders the path views as paths.
    fn partial_cmp(&self, other: &Self) -> (r: Option<Ordering>) {
        Some(path_cmp(self.as_path(), other.as_path()))
    }
}

impl<'a> vstd::std_specs::cmp::PartialOrdSpecImpl for MaybePath<'a> {
    open spec fn obeys_partial_cmp_spec() -> bool {
        true
    }

    open spec fn partial_cmp_spec(&self, other: &Self) -> Option<Ordering> {
        Some(path_order(self@.bytes(), other@.bytes()))
    }
}

impl<'a> std::ops::Deref for MaybePath<'a> {
    type Target = Path;

    fn deref(&self) -> (r: &Path)
        ensures
            path_bytes(r) == self@.bytes(),
    {
        self.as_path()
    }
}

impl<'a> AsRef<Path> for MaybePath<'a> {
    fn as_ref(&self) -> (r: &Path)
        ensures
            path_bytes(r) == self@.bytes(),
    {
        self.as_path()
    }
}

impl<'a> std::hash::Hash for MaybePath<'a> {
    /// Hashes the path view of either shape, so that equal values hash alike.
    fn hash<H: std::hash::Hasher>(&self, state: &mut H) {
        path_hash(self.as_path(), state)
    }
}

/// A string and the path over that string's bytes have the same path view,
/// byte for byte, and the same string view.
pub proof fn lemma_shapes_agree(s: Seq<char>)
    ensures
        PathRepr::StrShaped(s).bytes() == PathRepr::PathShaped(encode_utf8(s)).bytes(),
        PathRepr::StrShaped(s).text() == Some(s),
        PathRepr::PathShaped(encode_utf8(s)).text() == Some(s),
{
    vstd::utf8::encode_utf8_valid_utf8(s);
    vstd::utf8::encode_utf8_decode_utf8(s);
}

/// The string view gives the text back exactly when there is one: a path
/// whose bytes are valid UTF-8 reads as the text they encode, and any other
/// path has no string view.
pub proof fn lemma_text_of_path(b: Seq<u8>)
    ensures
        PathRepr::PathShaped(b).text() is Some <==> valid_utf8(b),
        PathRepr::PathShaped(b).text() matches Some(t) ==> encode_utf8(t) == b,
{
    if valid_utf8(b) {
        vstd::utf8::decode_utf8_encode_utf8(b);
    }
}

} // verus!
