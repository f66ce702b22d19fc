//! Flags of a poll.

use vstd::prelude::*;

use crate::text::{decimal, to_decimal};

verus! {

/// Poll flags.
#[derive(Clone, Copy, Debug, PartialEq, Eq, Hash, Structural)]
pub struct PollFlags {
    /// The bits that are set, known ones and others.
    pub bits: u32,
}

impl PollFlags {
    /// Request poll notify.
    pub const FUSE_POLL_SCHEDULE_NOTIFY: u32 = 0x1;

    /// The flags with exactly these bits set.
    pub fn from_bits_retain(bits: u32) -> (r: Self)
        ensures
            r.bits == bits,
    {
        PollFlags { bits }
    }

    /// The bits that are set.
    pub fn bits(self) -> (r: u32)
        ensures
            r == self.bits,
    {
        self.bits
    }

    /// Whether all of `flags` are set.
    pub fn contains(self, flags: u32) -> (r: bool)
        ensures
            r == (self.bits & flags == flags),
    {
        self.bits & flags == flags
    }

    /// The bits as a decimal number.
    pub fn text(&self) -> (r: String)
        ensures
            r@ == decimal(self.bits as int),
    {
        to_decimal(self.bits as u64)
    }
}

} // verus!
