//! The answer to a request that lists a directory.

use vstd::prelude::*;

use crate::file_attr::FileType;
use crate::ids::INodeNo;
use crate::ll::reply::{DirEntList, DirEntOffset, DirEntry, EntListBuf, Response};

verus! {

/// The answer to a request that lists a directory.
#[derive(Debug)]
pub struct DirectoryResponse {
    pub data: DirEntList,
}

impl DirectoryResponse {
    /// The entries so far fit.
    pub open spec fn wf(self) -> bool {
        self.data.0.wf()
    }

    /// No entries, with room for `size` bytes.
    pub fn new(size: usize) -> (r: DirectoryResponse)
        ensures
            r.wf(),
            r.data.0.max_size == size,
            r.data.0.buf@ == Seq::<u8>::empty(),
    {
        DirectoryResponse { data: DirEntList::new(size) }
    }

    /// Add an entry to the directory reply buffer. Returns true if the buffer is full.
    /// A transparent offset value can be provided for each entry. The kernel uses these
    /// value to request the next entries in further readdir calls
    #[must_use]
    pub fn add(&mut self, ino: INodeNo, offset: u64, kind: FileType, name: &[u8]) -> (full: bool)
        requires
            old(self).wf(),
            name@.len() <= u32::MAX,
            old(self).data.0.pushable(
                (DirEntry { ino, offset: DirEntOffset(offset), kind, name }).spec_bytes(),
            ),
        ensures
            final(self).wf(),
            full == old(self).data.0.full_for(
                (DirEntry { ino, offset: DirEntOffset(offset), kind, name }).spec_bytes(),
            ),
            EntListBuf::pushed(
                old(self).data.0,
                (DirEntry { ino, offset: DirEntOffset(offset), kind, name }).spec_bytes(),
                final(self).data.0,
            ),
    {
        let entry = DirEntry::new(ino, DirEntOffset(offset), kind, name);
        self.data.push(&entry)
    }

    /// What is sent.
    pub fn payload<'a>(&'a self) -> (r: Response<'a>)
        ensures
            r is Slice,
            r.payload() == self.data.0.buf@,
    {
        Response::new_slice(self.data.0.buf.as_slice())
    }
}

} // verus!
