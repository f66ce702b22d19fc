//! The buffers that a reply is put together in. Short ones need no allocation of their own.

use smallvec::SmallVec;
use vstd::prelude::*;

verus! {

/// The bytes of a reply, in a `smallvec::SmallVec` with room for 32 of them.
#[verifier::external_body]
#[derive(Debug)]
pub struct ResponseBuf {
    inner: SmallVec<[u8; 32]>,
}

/// What a buffer holds.
pub uninterp spec fn buf_bytes(buf: ResponseBuf) -> Seq<u8>;

impl View for ResponseBuf {
    type V = Seq<u8>;

    open spec fn view(&self) -> Seq<u8> {
        buf_bytes(*self)
    }
}

impl ResponseBuf {
    /// `SmallVec::new`: the vector is empty.
    #[verifier::external_body]
    pub(crate) fn new() -> (r: ResponseBuf)
        ensures
            buf_bytes(r) == Seq::<u8>::empty(),
    {
        ResponseBuf { inner: SmallVec::new() }
    }

    /// `SmallVec::from_slice`: the vector holds a copy of the slice.
    #[verifier::external_body]
    pub(crate) fn from_slice(slice: &[u8]) -> (r: ResponseBuf)
        ensures
            buf_bytes(r) == slice@,
    {
        ResponseBuf { inner: SmallVec::from_slice(slice) }
    }

    /// `SmallVec::from_vec`: the vector holds what `vec` held.
    #[verifier::external_body]
    pub(crate) fn from_vec(vec: Vec<u8>) -> (r: ResponseBuf)
        ensures
            buf_bytes(r) == vec@,
    {
        ResponseBuf { inner: SmallVec::from_vec(vec) }
    }

    /// `SmallVec::as_slice`: the slice of all that the vector holds.
    #[verifier::external_body]
    pub(crate) fn as_slice(&self) -> (r: &[u8])
        ensures
            r@ == buf_bytes(*self),
    {
        self.inner.as_slice()
    }

    /// `SmallVec::extend_from_slice`: a copy of the slice is appended. The vector grows to the
    /// next power of two, which must not be more than can be allocated.
    #[verifier::external_body]
    pub(crate) fn extend_from_slice(&mut self, slice: &[u8])
        requires
            buf_bytes(*old(self)).len() + slice@.len() <= usize::MAX / 4,
        ensures
            buf_bytes(*final(self)) == buf_bytes(*old(self)) + slice@,
    {
        self.inner.extend_from_slice(slice)
    }

    /// `SmallVec::resize`: the vector is cut to `len`, or filled up to it with copies of `value`.
    /// It grows to the next power of two, which must not be more than can be allocated.
    #[verifier::external_body]
    pub(crate) fn resize(&mut self, len: usize, value: u8)
        requires
            len <= usize::MAX / 4,
        ensures
            buf_bytes(*final(self)) == (if len <= buf_bytes(*old(self)).len() {
                buf_bytes(*old(self)).take(len as int)
            } else {
                buf_bytes(*old(self)) + Seq::new(
                    (len - buf_bytes(*old(self)).len()) as nat,
                    |i: int| value,
                )
            }),
    {
        self.inner.resize(len, value)
    }
}

/// The slices that are handed to the system together, in a `smallvec::SmallVec` with room for
/// three of them.
#[verifier::external_body]
#[derive(Debug)]
pub struct IoVec<'a> {
    inner: SmallVec<[&'a [u8]; 3]>,
}

/// The slices, in order.
pub uninterp spec fn iovec_slices(v: IoVec) -> Seq<Seq<u8>>;

/// What the slices of a list hold, in order.
pub open spec fn slices_of(s: Seq<&[u8]>) -> Seq<Seq<u8>> {
    s.map_values(|x: &[u8]| x@)
}

/// The sequences one after the other.
pub open spec fn joined(s: Seq<Seq<u8>>) -> Seq<u8>
    decreases s.len(),
{
    if s.len() == 0 {
        Seq::empty()
    } else {
        joined(s.drop_last()) + s.last()
    }
}

impl<'a> View for IoVec<'a> {
    type V = Seq<Seq<u8>>;

    open spec fn view(&self) -> Seq<Seq<u8>> {
        iovec_slices(*self)
    }
}

impl<'a> IoVec<'a> {
    /// `SmallVec::new`: the vector is empty.
    #[verifier::external_body]
    pub(crate) fn new() -> (r: IoVec<'a>)
        ensures
            iovec_slices(r) == Seq::<Seq<u8>>::empty(),
    {
        IoVec { inner: SmallVec::new() }
    }

    /// `SmallVec::push`: the slice is appended. The vector grows to the next power of two, which
    /// must not be more than can be allocated.
    #[verifier::external_body]
    pub(crate) fn push(&mut self, slice: &'a [u8])
        requires
            iovec_slices(*old(self)).len() < usize::MAX / 64,
        ensures
            iovec_slices(*final(self)) == iovec_slices(*old(self)).push(slice@),
    {
        self.inner.push(slice)
    }

    /// `SmallVec::as_slice`: the slice of all that the vector holds.
    #[verifier::external_body]
    pub(crate) fn as_slice(&self) -> (r: &[&'a [u8]])
        ensures
            slices_of(r@) == iovec_slices(*self),
    {
        self.inner.as_slice()
    }
}

} // verus!
