//! The events of a poll.

use vstd::prelude::*;

use crate::text::{decimal, to_decimal};

verus! {

/// Poll events for use with fuse poll operations.
///
/// These correspond to the standard poll(2) events from libc.
#[derive(Clone, Copy, Debug, PartialEq, Eq, Hash, Structural)]
pub struct PollEvents {
    /// The bits that are set, known ones and others.
    pub bits: u32,
}

impl PollEvents {
    /// There is data to read.
    pub const POLLIN: u32 = 1;

    /// There is some exceptional condition on the file descriptor.
    pub const POLLPRI: u32 = 2;

    /// Writing is now possible.
    pub const POLLOUT: u32 = 4;

    /// Error condition.
    pub const POLLERR: u32 = 8;

    /// Hang up.
    pub const POLLHUP: u32 = 16;

    /// Invalid request: fd not open.
    pub const POLLNVAL: u32 = 32;

    /// Normal data may be read.
    pub const POLLRDNORM: u32 = 64;

    /// Priority data may be read.
    pub const POLLRDBAND: u32 = 128;

    /// Normal data may be written.
    pub const POLLWRNORM: u32 = 256;

    /// Priority data may be written.
    pub const POLLWRBAND: u32 = 512;

    /// The flags with exactly these bits set.
    pub fn from_bits_retain(bits: u32) -> (r: Self)
        ensures
            r.bits == bits,
    {
        PollEvents { bits }
    }

    /// The bits that are set.
    pub fn bits(self) -> (r: u32)
        ensures
            r == self.bits,
    {
        self.bits
    }

    /// Whether all of `flags` are set.
    pub fn contains(self, flags: u32) -> (r: bool)
        ensures
            r == (self.bits & flags == flags),
    {
        self.bits & flags == flags
    }

    /// The bits as a decimal number.
    pub fn text(&self) -> (r: String)
        ensures
            r@ == decimal(self.bits as int),
    {
        to_decimal(self.bits as u64)
    }
}

} // verus!
