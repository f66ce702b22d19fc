//! Notifications: what is sent to the kernel driver without a request.

use vstd::prelude::*;

use crate::ids::INodeNo;
use crate::ll::fuse_abi::{
    fuse_notify_code, fuse_notify_delete_out, fuse_notify_inval_entry_out,
    fuse_notify_inval_inode_out, fuse_notify_poll_wakeup_out, fuse_notify_store_out,
    fuse_out_header,
};
use crate::ll::response_buf::{slices_of, IoVec};
use crate::ll::wire::{group_lengths, IntoBytes};
use crate::notify::PollHandle;

verus! {

broadcast use group_lengths;

/// A length does not fit the field that holds it.
#[derive(Clone, Copy, Debug, PartialEq, Eq, Structural)]
pub struct TooBig {}

/// What a notification says.
#[derive(Debug)]
pub struct Notification<'a> {
    /// The structure that it begins with.
    pub head: Vec<u8>,
    /// The data that follows.
    pub data: &'a [u8],
    /// Whether the data is a name, with a zero byte behind it.
    pub terminated: bool,
}

impl<'a> Notification<'a> {
    /// The slices behind the header.
    pub open spec fn spec_body(self) -> Seq<Seq<u8>> {
        if self.terminated {
            seq![self.head@, self.data@, seq![0u8]]
        } else if self.data@.len() > 0 {
            seq![self.head@, self.data@]
        } else {
            seq![self.head@]
        }
    }

    /// The length of the body.
    pub open spec fn spec_len(self) -> nat {
        self.head@.len() + self.data@.len() + (if self.terminated {
            1nat
        } else {
            0nat
        })
    }

    /// The header: a notification answers no request, and its code stands in place of an error.
    pub open spec fn spec_header(self, code: fuse_notify_code) -> fuse_out_header {
        fuse_out_header {
            len: (16 + self.spec_len()) as u32,
            error: code.spec_number() as i32,
            unique: 0,
        }
    }

    /// The slices that are sent.
    pub open spec fn spec_iovec(self, code: fuse_notify_code) -> Seq<Seq<u8>> {
        seq![self.spec_header(code).spec_bytes()] + self.spec_body()
    }

    /// Hands the slices that are sent to `f`, unless they are too long together.
    pub fn with_iovec<F: FnOnce(&[&[u8]]) -> T, T>(&self, code: fuse_notify_code, f: F) -> (r:
        Result<T, TooBig>)
        requires
            self.head@.len() <= 64,
            forall|iov: &[&[u8]]|
                slices_of(iov@) == self.spec_iovec(code) ==> #[trigger] call_requires(f, (iov,)),
        ensures
            r is Ok <==> 16 + self.spec_len() <= u32::MAX,
            r is Ok ==> exists|iov: &[&[u8]], x: T|
                slices_of(iov@) == self.spec_iovec(code) && #[trigger] call_ensures(f, (iov,), x)
                    && r == Ok::<T, TooBig>(x),
    {
        let tail: usize = if self.terminated {
            1
        } else {
            0
        };
        if self.data.len() > 0xffff_ffff - 16 - self.head.len() - tail {
            return Err(TooBig {  });
        }
        let len: usize = 16 + self.head.len() + self.data.len() + tail;
        let number: u32 = code.number();
        let header = fuse_out_header { len: len as u32, error: number as i32, unique: 0 };
        let bytes: Vec<u8> = header.as_bytes();
        let zero: [u8; 1] = [0];
        let mut v = IoVec::new();
        v.push(bytes.as_slice());
        v.push(self.head.as_slice());
        if self.terminated {
            v.push(self.data);
            v.push(zero.as_slice());
            assert(zero@ =~= seq![0u8]);
        } else if self.data.len() > 0 {
            v.push(self.data);
        }
        assert(v@ =~= self.spec_iovec(code));
        let iov: &[&[u8]] = v.as_slice();
        let x = f(iov);
        assert(call_ensures(f, (iov,), x));
        Ok(x)
    }

    /// A structure without data.
    fn from_struct<T: IntoBytes>(head: &T) -> (r: Notification<'a>)
        ensures
            r.head@ == head.spec_bytes(),
            r.data@ == Seq::<u8>::empty(),
            !r.terminated,
    {
        Notification { head: head.as_bytes(), data: &[], terminated: false }
    }

    /// A poll is ready.
    pub fn new_poll(kh: PollHandle) -> (r: Notification<'a>)
        ensures
            r.head@ == (fuse_notify_poll_wakeup_out { kh: kh.0 }).spec_bytes(),
            r.data@ == Seq::<u8>::empty(),
            !r.terminated,
    {
        Self::from_struct(&fuse_notify_poll_wakeup_out { kh: kh.0 })
    }

    /// All directory entries are stale.
    pub fn new_inc_epoch() -> (r: Notification<'a>)
        ensures
            r.head@ == Seq::<u8>::empty(),
            r.data@ == Seq::<u8>::empty(),
            !r.terminated,
    {
        Notification { head: Vec::new(), data: &[], terminated: false }
    }

    /// A range of an inode is stale.
    pub fn new_inval_inode(ino: INodeNo, offset: i64, len: i64) -> (r: Notification<'a>)
        ensures
            r.head@ == (fuse_notify_inval_inode_out { ino: ino.0, off: offset, len }).spec_bytes(),
            r.data@ == Seq::<u8>::empty(),
            !r.terminated,
    {
        Self::from_struct(&fuse_notify_inval_inode_out { ino: ino.0, off: offset, len })
    }

    /// A directory entry is stale. The flags stand where there was padding once.
    pub fn new_inval_entry(parent: INodeNo, name: &'a [u8], flags: u32) -> (r: Result<
        Notification<'a>,
        TooBig,
    >)
        ensures
            match r {
                Ok(n) => {
                    &&& name@.len() <= u32::MAX
                    &&& n.head@ == (fuse_notify_inval_entry_out {
                        parent: parent.0,
                        namelen: name@.len() as u32,
                        padding: flags,
                    }).spec_bytes()
                    &&& n.data == name
                    &&& n.terminated
                },
                Err(_) => name@.len() > u32::MAX,
            },
    {
        if name.len() > 0xffff_ffff {
            return Err(TooBig {  });
        }
        let head = fuse_notify_inval_entry_out {
            parent: parent.0,
            namelen: name.len() as u32,
            padding: flags,
        };
        Ok(Notification { head: head.as_bytes(), data: name, terminated: true })
    }

    /// Data for the page cache.
    pub fn new_store(ino: INodeNo, offset: u64, data: &'a [u8]) -> (r: Result<
        Notification<'a>,
        TooBig,
    >)
        ensures
            match r {
                Ok(n) => {
                    &&& data@.len() <= u32::MAX
                    &&& n.head@ == (fuse_notify_store_out {
                        nodeid: ino.0,
                        offset,
                        size: data@.len() as u32,
                        padding: 0,
                    }).spec_bytes()
                    &&& n.data == data
                    &&& !n.terminated
                },
                Err(_) => data@.len() > u32::MAX,
            },
    {
        if data.len() > 0xffff_ffff {
            return Err(TooBig {  });
        }
        let head = fuse_notify_store_out {
            nodeid: ino.0,
            offset,
            size: data.len() as u32,
            padding: 0,
        };
        Ok(Notification { head: head.as_bytes(), data, terminated: false })
    }

    /// A directory entry is gone.
    pub fn new_delete(parent: INodeNo, child: INodeNo, name: &'a [u8]) -> (r: Result<
        Notification<'a>,
        TooBig,
    >)
        ensures
            match r {
                Ok(n) => {
                    &&& name@.len() <= u32::MAX
                    &&& n.head@ == (fuse_notify_delete_out {
                        parent: parent.0,
                        child: child.0,
                        namelen: name@.len() as u32,
                        padding: 0,
                    }).spec_bytes()
                    &&& n.data == name
                    &&& n.terminated
                },
                Err(_) => name@.len() > u32::MAX,
            },
    {
        if name.len() > 0xffff_ffff {
            return Err(TooBig {  });
        }
        let head = fuse_notify_delete_out {
            parent: parent.0,
            child: child.0,
            namelen: name.len() as u32,
            padding: 0,
        };
        Ok(Notification { head: head.as_bytes(), data: name, terminated: true })
    }
}

} // verus!
