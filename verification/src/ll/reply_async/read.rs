//! The answer to a request that reads.

use std::sync::Arc;
use vstd::prelude::*;
use vstd::slice::slice_subrange;

use crate::ll::reply::Response;

verus! {

/// What is answered, of its own or shared with others.
#[derive(Debug)]
enum ReadResponseData {
    Owned(Vec<u8>),
    Shared { data: Arc<[u8]>, start: usize, end: usize },
}

/// The answer to a request that reads.
#[derive(Debug)]
pub struct ReadResponse {
    data: ReadResponseData,
}

/// The part of `data` that begins at `offset` and is `size` long, as far as `data` goes.
pub open spec fn clamped(data: Seq<u8>, offset: int, size: int) -> Seq<u8> {
    if offset >= data.len() {
        Seq::empty()
    } else if offset + size >= data.len() {
        data.skip(offset)
    } else {
        data.subrange(offset, offset + size)
    }
}

impl View for ReadResponse {
    type V = Seq<u8>;

    /// The bytes that are answered.
    closed spec fn view(&self) -> Seq<u8> {
        match self.data {
            ReadResponseData::Owned(data) => data@,
            ReadResponseData::Shared { data, start, end } => data@.subrange(
                start as int,
                end as int,
            ),
        }
    }
}

impl ReadResponse {
    /// A part that is shared lies within the data.
    #[verifier::type_invariant]
    spec fn within(self) -> bool {
        self.data matches ReadResponseData::Shared { data, start, end } ==> start <= end
            <= data@.len()
    }

    /// All of `data`.
    pub fn new(data: Vec<u8>) -> (r: ReadResponse)
        ensures
            r@ == data@,
    {
        ReadResponse { data: ReadResponseData::Owned(data) }
    }

    /// Creates a [`ReadResponse`] backed by a slice of shared data without copying it.
    ///
    /// The requested range is clamped to the bounds of `data`.
    pub fn from_shared_slice(data: Arc<[u8]>, offset: usize, size: usize) -> (r: ReadResponse)
        ensures
            r@ == clamped(data@, offset as int, size as int),
    {
        let len: usize = data.len();
        let start: usize = if offset < len {
            offset
        } else {
            len
        };
        let end: usize = if size < len - start {
            start + size
        } else {
            len
        };
        assert(data@.subrange(start as int, end as int) =~= clamped(
            data@,
            offset as int,
            size as int,
        ));
        ReadResponse { data: ReadResponseData::Shared { data, start, end } }
    }

    /// The bytes that are answered.
    pub fn bytes(&self) -> (r: &[u8])
        ensures
            r@ == self@,
    {
        proof {
            use_type_invariant(self);
        }
        match &self.data {
            ReadResponseData::Owned(data) => data.as_slice(),
            ReadResponseData::Shared { data, start, end } => slice_subrange(&**data, *start, *end),
        }
    }

    /// What is sent.
    pub fn payload<'a>(&'a self) -> (r: Response<'a>)
        ensures
            r is Slice,
            r.payload() == self@,
    {
        Response::new_slice(self.bytes())
    }
}

/// Of a shared slice as much is answered as was asked for and is there, byte by byte from the
/// offset on.
pub proof fn lemma_what_is_there(data: Seq<u8>, offset: nat, size: nat)
    ensures
        clamped(data, offset as int, size as int).len() <= size,
        offset + size <= data.len() ==> clamped(data, offset as int, size as int).len() == size,
        offset + size > data.len() && offset <= data.len() ==> clamped(
            data,
            offset as int,
            size as int,
        ).len() == data.len() - offset,
        offset > data.len() ==> clamped(data, offset as int, size as int).len() == 0,
        forall|i: int|
            0 <= i < clamped(data, offset as int, size as int).len() ==> #[trigger] clamped(
                data,
                offset as int,
                size as int,
            )[i] == data[offset + i],
{
}

} // verus!
