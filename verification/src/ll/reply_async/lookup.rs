//! The answer to a request that looks up a name.

use vstd::prelude::*;

use crate::file_attr::FileAttr;
use crate::ids::Generation;
use crate::ll::fuse_abi::{fuse_attr, fuse_entry_out};
use crate::ll::reply::{attr_matches, times_fit, Attr, Response};
use crate::ll::wire::IntoBytes;
use crate::time::Duration;

verus! {

/// Whether `bytes` are sent for an inode that may be cached for `ttl`, its name and its attributes.
pub open spec fn is_entry_reply(
    bytes: Seq<u8>,
    ttl: Duration,
    attr: FileAttr,
    generation: Generation,
) -> bool {
    exists|f: fuse_attr| #[trigger]
        attr_matches(attr, f) && bytes == (fuse_entry_out {
            nodeid: attr.ino.0,
            generation: generation.0,
            entry_valid: ttl.secs,
            attr_valid: ttl.secs,
            entry_valid_nsec: ttl.nanos,
            attr_valid_nsec: ttl.nanos,
            attr: f,
        }).spec_bytes()
}

/// The answer to a request that looks up a name.
#[derive(Clone, Copy, Debug)]
pub struct LookupResponse {
    pub ttl: Duration,
    pub attr: FileAttr,
    pub generation: Generation,
}

impl LookupResponse {
    /// `ttl` is the time for which this response may be cached
    /// `attr` is the attributes of the file
    /// `generation`
    pub fn new(ttl: Duration, attr: FileAttr, generation: Generation) -> (r: LookupResponse)
        ensures
            r == (LookupResponse { ttl, attr, generation }),
    {
        LookupResponse { ttl, attr, generation }
    }

    /// What is sent.
    pub fn payload<'a>(&self) -> (r: Response<'a>)
        requires
            times_fit(self.attr),
        ensures
            r is Data,
            is_entry_reply(r.payload(), self.ttl, self.attr, self.generation),
    {
        let attr = Attr::from(&self.attr);
        assert(attr_matches(self.attr, attr.attr));
        Response::new_entry(self.attr.ino, self.generation, &attr, self.ttl, self.ttl)
    }
}

} // verus!
