//! The answer to a request that writes.

use vstd::prelude::*;

use crate::ll::fuse_abi::fuse_write_out;
use crate::ll::reply::Response;
use crate::ll::wire::IntoBytes;

verus! {

/// The answer to a request that writes.
#[derive(Clone, Copy, Debug)]
pub struct WriteResponse {
    pub size: u32,
}

impl WriteResponse {
    /// `size` bytes were written.
    pub fn new(size: u32) -> (r: WriteResponse)
        ensures
            r == (WriteResponse { size }),
    {
        WriteResponse { size }
    }

    /// What is sent.
    pub fn payload<'a>(&self) -> (r: Response<'a>)
        ensures
            r is Data,
            r.payload() == (fuse_write_out { size: self.size, padding: 0 }).spec_bytes(),
    {
        Response::new_write(self.size)
    }
}

} // verus!
