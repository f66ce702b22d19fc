//! The requests that are made of the device itself.

use vstd::prelude::*;


verus! {

/// What the device is told of a file that backs another.
#[allow(non_camel_case_types)]
#[derive(Clone, Copy, Debug, PartialEq, Eq, Structural)]
pub struct fuse_backing_map {
    pub fd: u32,
    pub flags: u32,
    pub padding: u64,
}

pub const FUSE_DEV_IOC_MAGIC: u8 = 229;

pub const FUSE_DEV_IOC_CLONE: u8 = 0;

pub const FUSE_DEV_IOC_BACKING_OPEN: u8 = 1;

pub const FUSE_DEV_IOC_BACKING_CLOSE: u8 = 2;

/// The direction of a request from which the caller reads.
pub const IOC_READ: u32 = 2;

/// The direction of a request to which the caller writes.
pub const IOC_WRITE: u32 = 1;

/// The number of a request: its direction, the size of what it carries, and two numbers that name
/// it.
pub open spec fn spec_request_code(direction: u32, size: u32, magic: u8, number: u8) -> u32 {
    (direction << 30) | (size << 16) | ((magic as u32) << 8) | number as u32
}

/// The number of a request.
pub fn request_code(direction: u32, size: u32, magic: u8, number: u8) -> (r: u32)
    requires
        direction < 4,
        size < 0x4000,
    ensures
        r == spec_request_code(direction, size, magic, number),
{
    (direction << 30) | (size << 16) | ((magic as u32) << 8) | number as u32
}

/// The parts of the number of a request can be read of it again.
pub proof fn lemma_request_code_parts(direction: u32, size: u32, magic: u8, number: u8)
    requires
        direction < 4,
        size < 0x4000,
    ensures
        ({
            let code = spec_request_code(direction, size, magic, number);
            &&& code >> 30 == direction
            &&& (code >> 16) & 0x3fff == size
            &&& (code >> 8) & 0xff == magic
            &&& code & 0xff == number
        }),
{
    assert({
        let code = (direction << 30) | (size << 16) | ((magic as u32) << 8) | number as u32;
        &&& code >> 30 == direction
        &&& (code >> 16) & 0x3fff == size
        &&& (code >> 8) & 0xff == magic
        &&& code & 0xff == number
    }) by (bit_vector)
        requires
            direction < 4,
            size < 0x4000,
    ;
}

/// The number of a request holds its parts side by side: the direction above the size, and below
/// both the two numbers that name it.
pub proof fn lemma_parts_side_by_side(direction: u32, size: u32, magic: u8, number: u8, r: u32)
    requires
        direction < 4,
        size < 0x4000,
        call_ensures(request_code, (direction, size, magic, number), r),
    ensures
        r == 0x4000_0000 * direction + 0x1_0000 * size + 0x100 * magic + number,
{
    assert((direction << 30) | (size << 16) | ((magic as u32) << 8) | number as u32 == 0x4000_0000
        * direction + 0x1_0000 * size + 0x100 * magic + number) by (bit_vector)
        requires
            direction < 4,
            size < 0x4000,
    ;
}

} // verus!
