//! Answers of a filesystem that runs apart from the session, and the replies they come to.

use vstd::prelude::*;
use vstd::std_specs::convert::FromSpecImpl;

use crate::file_attr::{FileAttr, FileType};
use crate::ids::{Errno, Generation, INodeNo, RequestId};
use crate::ll::reply::{times_fit, DirEntList, DirEntOffset, DirEntry, EntListBuf, Response};
use crate::ll::reply_async::getattr::is_attr_reply;
use crate::ll::reply_async::lookup::is_entry_reply;
use crate::ll::request::Request;
use crate::time::Duration;

verus! {

/// Standard request context for all filesystem operations
#[derive(Clone, Copy, Debug)]
pub struct RequestContext {
    pub uid: u32,
    pub gid: u32,
    pub pid: u32,
    pub request_id: RequestId,
}

impl RequestContext {
    /// The context of a request.
    pub fn new(uid: u32, gid: u32, pid: u32, request_id: RequestId) -> (r: RequestContext)
        ensures
            r == (RequestContext { uid, gid, pid, request_id }),
    {
        RequestContext { uid, gid, pid, request_id }
    }

    /// The user making the request
    pub fn user_id(&self) -> (r: u32)
        ensures
            r == self.uid,
    {
        self.uid
    }

    /// The group the user belongs to
    pub fn group_id(&self) -> (r: u32)
        ensures
            r == self.gid,
    {
        self.gid
    }

    /// The process ID of the process that made the request
    pub fn process_id(&self) -> (r: u32)
        ensures
            r == self.pid,
    {
        self.pid
    }

    /// The unique ID of the request
    pub fn request_id(&self) -> (r: RequestId)
        ensures
            r == self.request_id,
    {
        self.request_id
    }
}

impl<'a, 'b> FromSpecImpl<&'b Request<'a>> for RequestContext {
    open spec fn obeys_from_spec() -> bool {
        true
    }

    open spec fn from_spec(req: &'b Request<'a>) -> RequestContext {
        RequestContext {
            uid: req.header.uid,
            gid: req.header.gid,
            pid: req.header.pid,
            request_id: RequestId(req.header.unique),
        }
    }
}

impl<'a, 'b> From<&'b Request<'a>> for RequestContext {
    fn from(req: &'b Request<'a>) -> (r: RequestContext) {
        RequestContext::new(req.uid(), req.gid(), req.pid(), RequestId(req.unique()))
    }
}

/// A directory listing under construction.
#[derive(Debug)]
pub struct DirEntListBuilder<'a> {
    pub entries: &'a mut DirEntList,
}

impl<'a> DirEntListBuilder<'a> {
    /// Add an entry to the directory reply buffer. Returns true if the buffer is full.
    /// A transparent offset value can be provided for each entry. The kernel uses these
    /// value to request the next entries in further readdir calls
    #[must_use]
    pub fn add(&mut self, ino: INodeNo, offset: u64, kind: FileType, name: &[u8]) -> (full: bool)
        requires
            old(self).entries.0.wf(),
            name@.len() <= u32::MAX,
            old(self).entries.0.pushable(
                (DirEntry { ino, offset: DirEntOffset(offset), kind, name }).spec_bytes(),
            ),
        ensures
            final(self).entries.0.wf(),
            full == old(self).entries.0.full_for(
                (DirEntry { ino, offset: DirEntOffset(offset), kind, name }).spec_bytes(),
            ),
            EntListBuf::pushed(
                old(self).entries.0,
                (DirEntry { ino, offset: DirEntOffset(offset), kind, name }).spec_bytes(),
                final(self).entries.0,
            ),
    {
        let entry = DirEntry::new(ino, DirEntOffset(offset), kind, name);
        self.entries.push(&entry)
    }
}

/// The answer to a request that looks up a name.
#[derive(Clone, Copy, Debug)]
pub struct LookupResponse {
    pub ttl: Duration,
    pub attr: FileAttr,
    pub generation: Generation,
}

impl LookupResponse {
    /// `ttl` is the time for which this response may be cached
    /// `attr` is the attributes of the file
    /// `generation`
    pub fn new(ttl: Duration, attr: FileAttr, generation: Generation) -> (r: LookupResponse)
        ensures
            r == (LookupResponse { ttl, attr, generation }),
    {
        LookupResponse { ttl, attr, generation }
    }
}

/// The answer to a request for attributes.
#[derive(Clone, Copy, Debug)]
pub struct GetAttrResponse {
    pub ttl: Duration,
    pub attr: FileAttr,
}

impl GetAttrResponse {
    /// Attributes that may be cached for `ttl`.
    pub fn new(ttl: Duration, attr: FileAttr) -> (r: GetAttrResponse)
        ensures
            r == (GetAttrResponse { ttl, attr }),
    {
        GetAttrResponse { ttl, attr }
    }
}

/// The reply when a name was looked up.
pub fn lookup_reply<'a>(answer: Result<LookupResponse, Errno>) -> (r: Response<'a>)
    requires
        answer matches Ok(found) ==> times_fit(found.attr),
    ensures
        match answer {
            Ok(found) => r is Data && is_entry_reply(
                r.payload(),
                found.ttl,
                found.attr,
                found.generation,
            ),
            Err(e) => r == Response::Error(Some(e)),
        },
{
    match answer {
        Ok(found) => crate::ll::reply_async::lookup::LookupResponse::new(
            found.ttl,
            found.attr,
            found.generation,
        ).payload(),
        Err(e) => Response::new_error(e),
    }
}

/// The reply when attributes were asked for.
pub fn getattr_reply<'a>(answer: Result<GetAttrResponse, Errno>) -> (r: Response<'a>)
    requires
        answer matches Ok(found) ==> times_fit(found.attr),
    ensures
        match answer {
            Ok(found) => r is Data && is_attr_reply(r.payload(), found.ttl, found.attr),
            Err(e) => r == Response::Error(Some(e)),
        },
{
    match answer {
        Ok(found) => crate::ll::reply_async::getattr::GetAttrResponse::new(
            found.ttl,
            found.attr,
        ).payload(),
        Err(e) => Response::new_error(e),
    }
}

/// The reply when a file was read into `data`.
pub fn read_reply<'a>(answer: Result<(), Errno>, data: &'a [u8]) -> (r: Response<'a>)
    ensures
        r == (match answer {
            Ok(_) => Response::Slice(data),
            Err(e) => Response::Error(Some(e)),
        }),
{
    match answer {
        Ok(_) => Response::new_slice(data),
        Err(e) => Response::new_error(e),
    }
}

/// The reply when a directory was listed in `entries`.
pub fn readdir_reply<'a>(answer: Result<(), Errno>, entries: DirEntList) -> (r: Response<'a>)
    requires
        entries.0.wf(),
    ensures
        r == (match answer {
            Ok(_) => Response::Data(entries.0.buf),
            Err(e) => Response::Error(Some(e)),
        }),
{
    match answer {
        Ok(_) => entries.into_response(),
        Err(e) => Response::new_error(e),
    }
}

/// The context of a request tells who made it and which it is.
pub proof fn lemma_context_tells<'a, 'b>(
    req: &'b Request<'a>,
    context: RequestContext,
    uid: u32,
    gid: u32,
    pid: u32,
    id: RequestId,
)
    requires
        call_ensures(<RequestContext as From<&'b Request<'a>>>::from, (req,), context),
        call_ensures(RequestContext::user_id, (&context,), uid),
        call_ensures(RequestContext::group_id, (&context,), gid),
        call_ensures(RequestContext::process_id, (&context,), pid),
        call_ensures(RequestContext::request_id, (&context,), id),
    ensures
        req.header.uid == uid,
        req.header.gid == gid,
        req.header.pid == pid,
        req.header.unique == id.0,
{
}

} // verus!
