//! `MaybePathBuf`: a copy-on-write path whose borrowed state is a `MaybePath`.
use vstd::prelude::*;

verus! {

use std::borrow::Cow;
use std::cmp::Ordering;
use std::path::{Path, PathBuf};
use crate::host_path::{
    path_buf_as_path, path_buf_bytes, path_bytes, path_clone_into, path_cmp, path_eq, path_hash,
    path_order, same_path,
};
use crate::maybe_path::{MaybePath, PathRepr};

/// The abstract value of a `MaybePathBuf`.
pub enum CowRepr {
    /// Borrowed data, which may be path- or string-shaped.
    Borrowed(PathRepr),
    /// An owned buffer, given by its encoded bytes.
    Owned(Seq<u8>),
}

impl CowRepr {
    /// The bytes of the path view.
    pub open spec fn bytes(self) -> Seq<u8> {
        match self {
            CowRepr::Borrowed(b) => b.bytes(),
            CowRepr::Owned(o) => o,
        }
    }

    /// The state after asking for mutable access: owned, with the same bytes.
    pub open spec fn promoted(self) -> CowRepr {
        CowRepr::Owned(self.bytes())
    }
}

/// A copy-on-write path with three states: a borrowed `Path`, a borrowed
/// `str`, or an owned `PathBuf`. It becomes owned only on request, and an
/// owned value stays owned.
#[derive(Debug)]
pub enum MaybePathBuf<'a> {
    /// Borrowed data
    Borrowed(MaybePath<'a>),
    /// Owned data
    Owned(PathBuf),
}

impl<'a> View for MaybePathBuf<'a> {
    type V = CowRepr;

    open spec fn view(&self) -> CowRepr {
        match self {
            MaybePathBuf::Borrowed(b) => CowRepr::Borrowed(b@),
            MaybePathBuf::Owned(o) => CowRepr::Owned(path_buf_bytes(o)),
        }
    }
}

impl<'a> MaybePathBuf<'a> {
    /// Borrows a path.
    pub fn new_path(path: &'a Path) -> (r: Self)
        ensures
            r@ == CowRepr::Borrowed(PathRepr::PathShaped(path_bytes(path))),
    {
        MaybePathBuf::Borrowed(MaybePath::new_path(path))
    }

    /// Borrows a string.
    pub fn new_str(s: &'a str) -> (r: Self)
        ensures
            r@ == CowRepr::Borrowed(PathRepr::StrShaped(s@)),
    {
        MaybePathBuf::Borrowed(MaybePath::new_str(s))
    }

    /// Takes ownership of a path buffer.
    pub fn new_pathbuf(path: PathBuf) -> (r: Self)
        ensures
            r == MaybePathBuf::Owned(path),
            r@ == CowRepr::Owned(path_buf_bytes(&path)),
    {
        MaybePathBuf::Owned(path)
    }

    /// Whether the data is borrowed.
    pub fn is_borrowed(&self) -> (r: bool)
        ensures
            r == self@ is Borrowed,
    {
        match self {
            MaybePathBuf::Borrowed(_) => true,
            MaybePathBuf::Owned(_) => false,
        }
    }

    /// The path view of the data, borrowed or owned.
    pub fn as_path(&self) -> (r: &Path)
        ensures
            path_bytes(r) == self@.bytes(),
    {
        match self {
            MaybePathBuf::Borrowed(b) => b.as_path(),
            MaybePathBuf::Owned(o) => path_buf_as_path(o),
        }
    }

    /// Mutable access to the owned buffer. Borrowed data is first copied into
    /// a new buffer, once; an owned value hands out its own buffer.
    pub fn to_mut(&mut self) -> (r: &mut PathBuf)
        ensures
            path_buf_bytes(r) == old(self)@.bytes(),
            MaybePathBuf::<'a>::Owned(*r)@ == old(self)@.promoted(),
            (*old(self)) is Owned ==> *r == (*old(self))->Owned_0,
            *final(self) == MaybePathBuf::<'a>::Owned(*final(r)),
    {
        if let MaybePathBuf::Borrowed(b) = self {
            let o = b.to_owned();
            *self = MaybePathBuf::Owned(o);
        }
        match self {
            MaybePathBuf::Owned(o) => o,
            MaybePathBuf::Borrowed(_) => {
                proof {
                    assert(false);
                }
                loop
                    invariant
                        false,
                    decreases 0nat,
                {
                }
            },
        }
    }

    /// Converts into an owned buffer; an owned value is returned as it is.
    pub fn into_owned(self) -> (r: PathBuf)
        ensures
            path_buf_bytes(&r) == self@.bytes(),
            self matches MaybePathBuf::Owned(o) ==> r == o,
    {
        match self {
            MaybePathBuf::Borrowed(b) => b.to_owned(),
            MaybePathBuf::Owned(o) => o,
        }
    }

    /// Converts into std's copy-on-write path, keeping the state.
    pub fn into_cow(self) -> (r: Cow<'a, Path>)
        ensures
            match r {
                Cow::Borrowed(p) => self@ is Borrowed && path_bytes(p) == self@.bytes(),
                Cow::Owned(o) => self == MaybePathBuf::<'a>::Owned(o),
            },
    {
        match self {
            MaybePathBuf::Borrowed(b) => Cow::Borrowed(b.as_path()),
            MaybePathBuf::Owned(o) => Cow::Owned(o),
        }
    }
}

impl<'a> Default for MaybePathBuf<'a> {
    /// The empty string, borrowed.
    fn default() -> (r: Self)
        ensures
            r@ == CowRepr::Borrowed(PathRepr::StrShaped(Seq::empty())),
    {
        let r = MaybePathBuf::new_str("");
        proof {
            reveal_strlit("");
            assert(""@ =~= Seq::<char>::empty());
        }
        r
    }
}

impl<'a> Clone for MaybePathBuf<'a> {
    /// Borrowed data is copied as a reference; an owned buffer is copied.
    fn clone(&self) -> (r: Self)
        ensures
            r@ == self@,
    {
        match self {
            MaybePathBuf::Borrowed(b) => MaybePathBuf::Borrowed(*b),
            MaybePathBuf::Owned(o) => {
                let b = MaybePath::new_path(path_buf_as_path(o));
                MaybePathBuf::Owned(b.to_owned())
            },
        }
    }

    /// Copies into an owned destination reuse its buffer.
    fn clone_from(&mut self, source: &Self)
        ensures
            final(self)@ == source@,
    {
        if let MaybePathBuf::Owned(o) = source {
            if let MaybePathBuf::Owned(dest) = self {
                path_clone_into(MaybePath::new_path(path_buf_as_path(o)).as_path(), dest);
                return;
            }
        }
        *self = source.clone();
    }
}

impl<'a> PartialEq for MaybePathBuf<'a> {
    /// Equal when both are borrowed or both owned, and the paths are equal.
    fn eq(&self, other: &Self) -> (r: bool) {
        match (self, other) {
            (MaybePathBuf::Borrowed(a), MaybePathBuf::Borrowed(b)) => a == b,
            (MaybePathBuf::Owned(a), MaybePathBuf::Owned(b)) => path_eq(
                path_buf_as_path(a),
                path_buf_as_path(b),
            ),
            _ => false,
        }
    }
}

impl<'a> vstd::std_specs::cmp::PartialEqSpecImpl for MaybePathBuf<'a> {
    open spec fn obeys_eq_spec() -> bool {
        true
    }

    open spec fn eq_spec(&self, other: &Self) -> bool {
        &&& (self@ is Borrowed) == (other@ is Borrowed)
        &&& same_path(self@.bytes(), other@.bytes())
    }
}

impl<'a> Eq for MaybePathBuf<'a> {}

impl<'a> PartialOrd for MaybePathBuf<'a> {
    /// Borrowed values come before owned ones; within a state, the paths
    /// are ordered as paths.
    fn partial_cmp(&self, other: &Self) -> (r: Option<Ordering>) {
        match (self, other) {
            (MaybePathBuf::Borrowed(_), MaybePathBuf::Owned(_)) => Some(Ordering::Less),
            (MaybePathBuf::Owned(_), MaybePathBuf::Borrowed(_)) => Some(Ordering::Greater),
            _ => Some(path_cmp(self.as_path(), other.as_path())),
        }
    }
}

impl<'a> vstd::std_specs::cmp::PartialOrdSpecImpl for MaybePathBuf<'a> {
    open spec fn obeys_partial_cmp_spec() -> bool {
        true
    }

    open spec fn partial_cmp_spec(&self, other: &Self) -> Option<Ordering> {
        match (self@, other@) {
            (CowRepr::Borrowed(_), CowRepr::Owned(_)) => Some(Ordering::Less),
            (CowRepr::Owned(_), CowRepr::Borrowed(_)) => Some(Ordering::Greater),
            _ => Some(path_order(self@.bytes(), other@.bytes())),
        }
    }
}

impl<'a> std::hash::Hash for MaybePathBuf<'a> {
    /// Hashes the path view, so that equal values hash alike.
    fn hash<H: std::hash::Hasher>(&self, state: &mut H) {
        path_hash(self.as_path(), state)
    }
}

impl<'a> std::ops::Deref for MaybePathBuf<'a> {
    type Target = Path;

    fn deref(&self) -> (r: &Path)
        ensures
            path_bytes(r) == self@.bytes(),
    {
        self.as_path()
    }
}

impl<'a> AsRef<Path> for MaybePathBuf<'a> {
    fn as_ref(&self) -> (r: &Path)
        ensures
            path_bytes(r) == self@.bytes(),
    {
        self.as_path()
    }
}

impl<'a> std::borrow::Borrow<Path> for MaybePathBuf<'a> {
    fn borrow(&self) -> (r: &Path)
        ensures
            path_bytes(r) == self@.bytes(),
    {
        self.as_path()
    }
}

/// Copying a value's data into an owned buffer and wrapping that buffer again,
/// owned or borrowed, keeps the path view byte for byte.
pub proof fn lemma_owned_round_trip(v: PathRepr)
    ensures
        CowRepr::Owned(v.bytes()).bytes() == v.bytes(),
        CowRepr::Borrowed(PathRepr::PathShaped(v.bytes())).bytes() == v.bytes(),
{
}

/// Asking for mutable access twice is asking once: the first request leaves
/// the value owned, and an owned value is left as it is.
pub proof fn lemma_promote_idempotent(v: CowRepr)
    ensures
        v.promoted() is Owned,
        v.promoted().promoted() == v.promoted(),
        v is Owned ==> v.promoted() == v,
        v.promoted().bytes() == v.bytes(),
{
}

} // verus!
