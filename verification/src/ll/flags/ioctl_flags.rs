//! Flags of a control operation.

use vstd::prelude::*;

use crate::text::{decimal, to_decimal};

verus! {

/// Ioctl flags.
#[derive(Clone, Copy, Debug, PartialEq, Eq, Hash, Structural)]
pub struct IoctlFlags {
    /// The bits that are set, known ones and others.
    pub bits: u32,
}

impl IoctlFlags {
    /// 32bit compat ioctl on 64bit machine.
    pub const FUSE_IOCTL_COMPAT: u32 = 0x1;

    /// Not restricted to well-formed ioctls, retry allowed.
    pub const FUSE_IOCTL_UNRESTRICTED: u32 = 0x2;

    /// Retry with new iovecs.
    pub const FUSE_IOCTL_RETRY: u32 = 0x4;

    /// 32bit ioctl.
    pub const FUSE_IOCTL_32BIT: u32 = 0x8;

    /// Is a directory.
    pub const FUSE_IOCTL_DIR: u32 = 0x10;

    /// X32 compat ioctl on 64bit machine (64bit time_t).
    pub const FUSE_IOCTL_COMPAT_X32: u32 = 0x20;

    /// The flags with exactly these bits set.
    pub fn from_bits_retain(bits: u32) -> (r: Self)
        ensures
            r.bits == bits,
    {
        IoctlFlags { bits }
    }

    /// The bits that are set.
    pub fn bits(self) -> (r: u32)
        ensures
            r == self.bits,
    {
        self.bits
    }

    /// Whether all of `flags` are set.
    pub fn contains(self, flags: u32) -> (r: bool)
        ensures
            r == (self.bits & flags == flags),
    {
        self.bits & flags == flags
    }

    /// The bits as a decimal number.
    pub fn text(&self) -> (r: String)
        ensures
            r@ == decimal(self.bits as int),
    {
        to_decimal(self.bits as u64)
    }
}

} // verus!
