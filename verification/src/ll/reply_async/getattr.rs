//! The answer to a request for attributes.

use vstd::prelude::*;

use crate::file_attr::FileAttr;
use crate::ll::fuse_abi::{fuse_attr, fuse_attr_out};
use crate::ll::reply::{attr_matches, times_fit, Attr, Response};
use crate::ll::wire::IntoBytes;
use crate::time::Duration;

verus! {

/// Whether `bytes` are sent for attributes that may be cached for `ttl`.
pub open spec fn is_attr_reply(bytes: Seq<u8>, ttl: Duration, attr: FileAttr) -> bool {
    exists|f: fuse_attr| #[trigger]
        attr_matches(attr, f) && bytes == (fuse_attr_out {
            attr_valid: ttl.secs,
            attr_valid_nsec: ttl.nanos,
            dummy: 0,
            attr: f,
        }).spec_bytes()
}

/// The answer to a request for attributes.
#[derive(Clone, Copy, Debug)]
pub struct GetAttrResponse {
    pub ttl: Duration,
    pub attr: FileAttr,
}

impl GetAttrResponse {
    /// Attributes that may be cached for `ttl`.
    pub fn new(ttl: Duration, attr: FileAttr) -> (r: GetAttrResponse)
        ensures
            r == (GetAttrResponse { ttl, attr }),
    {
        GetAttrResponse { ttl, attr }
    }

    /// What is sent.
    pub fn payload<'a>(&self) -> (r: Response<'a>)
        requires
            times_fit(self.attr),
        ensures
            r is Data,
            is_attr_reply(r.payload(), self.ttl, self.attr),
    {
        let attr = Attr::from(&self.attr);
        assert(attr_matches(self.attr, attr.attr));
        Response::new_attr(&self.ttl, &attr)
    }
}

} // verus!
