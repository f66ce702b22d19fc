//! A filesystem that implements nothing, and what it answers.

use vstd::prelude::*;

use crate::experimental::RequestContext;
use crate::filesystem::Filesystem;
use crate::ids::Errno;
use crate::kernel_config::KernelConfig;
use crate::ll::fuse_abi::{fuse_kstatfs, fuse_open_out, fuse_statfs_out};
use crate::ll::layout::{lemma_fuse_open_out_is_written, lemma_fuse_statfs_out_is_written};
use crate::ll::reply::Response;
use crate::ll::wire::{u32_at, u64_at};

verus! {

/// A filesystem that leaves every request to the default answer.
#[derive(Clone, Copy, Debug)]
pub struct NullFs;

impl Filesystem for NullFs {

}

/// Whether the answer is an error, and which.
pub open spec fn refuses(r: Response, number: int) -> bool {
    r matches Response::Error(Some(e)) && e.0 == number
}

/// What is not implemented is answered so, whatever is asked.
pub proof fn lemma_not_implemented()
    ensures
        forall|args, r| #[trigger]
            call_ensures(<NullFs as Filesystem>::lookup, args, r) ==> refuses(r, 38),
        forall|args, r| #[trigger]
            call_ensures(<NullFs as Filesystem>::getattr, args, r) ==> refuses(r, 38),
        forall|args, r| #[trigger]
            call_ensures(<NullFs as Filesystem>::statx, args, r) ==> refuses(r, 38),
        forall|args, r| #[trigger]
            call_ensures(<NullFs as Filesystem>::setattr, args, r) ==> refuses(r, 38),
        forall|args, r| #[trigger]
            call_ensures(<NullFs as Filesystem>::readlink, args, r) ==> refuses(r, 38),
        forall|args, r| #[trigger]
            call_ensures(<NullFs as Filesystem>::mknod, args, r) ==> refuses(r, 38),
        forall|args, r| #[trigger]
            call_ensures(<NullFs as Filesystem>::mkdir, args, r) ==> refuses(r, 38),
        forall|args, r| #[trigger]
            call_ensures(<NullFs as Filesystem>::unlink, args, r) ==> refuses(r, 38),
        forall|args, r| #[trigger]
            call_ensures(<NullFs as Filesystem>::rmdir, args, r) ==> refuses(r, 38),
        forall|args, r| #[trigger]
            call_ensures(<NullFs as Filesystem>::rename, args, r) ==> refuses(r, 38),
        forall|args, r| #[trigger]
            call_ensures(<NullFs as Filesystem>::read, args, r) ==> refuses(r, 38),
        forall|args, r| #[trigger]
            call_ensures(<NullFs as Filesystem>::write, args, r) ==> refuses(r, 38),
        forall|args, r| #[trigger]
            call_ensures(<NullFs as Filesystem>::flush, args, r) ==> refuses(r, 38),
        forall|args, r| #[trigger]
            call_ensures(<NullFs as Filesystem>::fsync, args, r) ==> refuses(r, 38),
        forall|args, r| #[trigger]
            call_ensures(<NullFs as Filesystem>::readdir, args, r) ==> refuses(r, 38),
        forall|args, r| #[trigger]
            call_ensures(<NullFs as Filesystem>::readdirplus, args, r) ==> refuses(r, 38),
        forall|args, r| #[trigger]
            call_ensures(<NullFs as Filesystem>::fsyncdir, args, r) ==> refuses(r, 38),
        forall|args, r| #[trigger]
            call_ensures(<NullFs as Filesystem>::setxattr, args, r) ==> refuses(r, 38),
        forall|args, r| #[trigger]
            call_ensures(<NullFs as Filesystem>::getxattr, args, r) ==> refuses(r, 38),
        forall|args, r| #[trigger]
            call_ensures(<NullFs as Filesystem>::listxattr, args, r) ==> refuses(r, 38),
        forall|args, r| #[trigger]
            call_ensures(<NullFs as Filesystem>::removexattr, args, r) ==> refuses(r, 38),
        forall|args, r| #[trigger]
            call_ensures(<NullFs as Filesystem>::access, args, r) ==> refuses(r, 38),
        forall|args, r| #[trigger]
            call_ensures(<NullFs as Filesystem>::create, args, r) ==> refuses(r, 38),
        forall|args, r| #[trigger]
            call_ensures(<NullFs as Filesystem>::getlk, args, r) ==> refuses(r, 38),
        forall|args, r| #[trigger]
            call_ensures(<NullFs as Filesystem>::setlk, args, r) ==> refuses(r, 38),
        forall|args, r| #[trigger]
            call_ensures(<NullFs as Filesystem>::bmap, args, r) ==> refuses(r, 38),
        forall|args, r| #[trigger]
            call_ensures(<NullFs as Filesystem>::ioctl, args, r) ==> refuses(r, 38),
        forall|args, r| #[trigger]
            call_ensures(<NullFs as Filesystem>::poll, args, r) ==> refuses(r, 38),
        forall|args, r| #[trigger]
            call_ensures(<NullFs as Filesystem>::fallocate, args, r) ==> refuses(r, 38),
        forall|args, r| #[trigger]
            call_ensures(<NullFs as Filesystem>::lseek, args, r) ==> refuses(r, 38),
        forall|args, r| #[trigger]
            call_ensures(<NullFs as Filesystem>::copy_file_range, args, r) ==> refuses(r, 38),
        forall|args, r| #[trigger]
            call_ensures(<NullFs as Filesystem>::tmpfile, args, r) ==> refuses(r, 38),
        forall|args, r| #[trigger]
            call_ensures(<NullFs as Filesystem>::syncfs, args, r) ==> refuses(r, 38),
{
}

/// Links are not permitted by default, neither symbolic nor hard ones.
pub proof fn lemma_links_are_not_permitted()
    ensures
        forall|args, r| #[trigger]
            call_ensures(<NullFs as Filesystem>::symlink, args, r) ==> refuses(r, 1),
        forall|args, r| #[trigger]
            call_ensures(<NullFs as Filesystem>::link, args, r) ==> refuses(r, 1),
{
}

/// Opening succeeds by default, with a handle of zero and without flags, and so does what ends it.
pub proof fn lemma_opening_succeeds()
    ensures
        forall|args, r| #[trigger]
            call_ensures(<NullFs as Filesystem>::open, args, r) ==> is_zero_handle(r),
        forall|args, r| #[trigger]
            call_ensures(<NullFs as Filesystem>::opendir, args, r) ==> is_zero_handle(r),
        forall|args, r| #[trigger]
            call_ensures(<NullFs as Filesystem>::release, args, r) ==> (r matches Response::Error(e)
                && e is None),
        forall|args, r| #[trigger]
            call_ensures(<NullFs as Filesystem>::releasedir, args, r)
                ==> (r matches Response::Error(
                e,
            ) && e is None),
{
    lemma_fuse_open_out_is_written(fuse_open_out { fh: 0, open_flags: 0, backing_id: 0 });
}

/// Whether the answer is a handle of zero without flags: sixteen bytes of zero.
pub open spec fn is_zero_handle(r: Response) -> bool {
    &&& r is Data
    &&& r.payload().len() == 16
    &&& u64_at(r.payload(), 0) == 0
    &&& u32_at(r.payload(), 8) == 0
    &&& u32_at(r.payload(), 12) == 0
}

/// By default there are no blocks and no files, and all that is told is how large a block would be
/// and how long a name may be.
pub proof fn lemma_nothing_is_counted()
    ensures
        forall|args, r| #[trigger]
            call_ensures(<NullFs as Filesystem>::statfs, args, r) ==> {
                &&& r is Data
                &&& r.payload().len() == 80
                &&& u64_at(r.payload(), 0) == 0
                &&& u64_at(r.payload(), 8) == 0
                &&& u64_at(r.payload(), 16) == 0
                &&& u64_at(r.payload(), 24) == 0
                &&& u64_at(r.payload(), 32) == 0
                &&& u32_at(r.payload(), 40) == 512
                &&& u32_at(r.payload(), 44) == 255
                &&& u32_at(r.payload(), 48) == 0
            },
{
    lemma_fuse_statfs_out_is_written(
        fuse_statfs_out {
            st: fuse_kstatfs {
                blocks: 0,
                bfree: 0,
                bavail: 0,
                files: 0,
                ffree: 0,
                bsize: 512,
                namelen: 255,
                frsize: 0,
                padding: 0,
                spare: [0, 0, 0, 0, 0, 0],
            },
        },
    );
}

/// Before anything is asked, a filesystem that does nothing leaves the connection as it is offered.
pub proof fn lemma_connection_is_left(
    fs: &mut NullFs,
    req: &RequestContext,
    config: &mut KernelConfig,
    r: Result<(), Errno>,
)
    requires
        call_ensures(<NullFs as Filesystem>::init, (fs, req, config), r),
    ensures
        r is Ok,
        *final(config) == *old(config),
{
}

} // verus!
