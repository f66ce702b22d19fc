//! The channel to the kernel driver.

use vstd::prelude::*;

use crate::ll::ioctl::{
    request_code, spec_request_code, FUSE_DEV_IOC_CLONE, FUSE_DEV_IOC_MAGIC, IOC_READ,
};
use crate::ll::ioslice_concat::IosliceConcat;
use crate::ll::response_buf::{joined, slices_of};

verus! {

/// The request that makes a descriptor of the device serve the connection of another one. It
/// carries that descriptor, in four bytes.
pub fn clone_request() -> (r: u32)
    ensures
        r == 0x8004_e500,
        r == spec_request_code(IOC_READ, 4, FUSE_DEV_IOC_MAGIC, FUSE_DEV_IOC_CLONE),
{
    assert((2u32 << 30) | (4u32 << 16) | ((229u8 as u32) << 8) | 0u8 as u32 == 0x8004_e500)
        by (bit_vector);
    request_code(IOC_READ, 4, FUSE_DEV_IOC_MAGIC, FUSE_DEV_IOC_CLONE)
}

/// What a system call that returns a negative number on failure came to; `errno` is the number of
/// the error.
pub fn check_call(rc: isize, errno: i32) -> (r: Result<usize, i32>)
    ensures
        r == (if rc < 0 {
            Err::<usize, i32>(errno)
        } else {
            Ok::<usize, i32>(rc as usize)
        }),
{
    if rc < 0 {
        Err(errno)
    } else {
        Ok(rc as usize)
    }
}

/// Whether a write of `bufs` that wrote `written` bytes wrote all of them.
pub fn wrote_all(bufs: &[&[u8]], written: usize) -> (r: bool)
    requires
        joined(slices_of(bufs@)).len() <= usize::MAX,
    ensures
        r == (joined(slices_of(bufs@)).len() == written),
{
    bufs.sum_len() == written
}

/// A call that gives a negative number has failed, and its error is told; else its number is.
pub proof fn lemma_call_is_checked(rc: isize, errno: i32, r: Result<usize, i32>)
    requires
        call_ensures(check_call, (rc, errno), r),
    ensures
        rc >= 0 ==> (r matches Ok(n) && n == rc),
        rc < 0 ==> (r matches Err(e) && e == errno),
{
}

} // verus!
