//! How an entry is renamed.

use vstd::prelude::*;

use crate::text::{decimal, to_decimal};

verus! {

/// `renameat2` flags.
#[derive(Clone, Copy, Debug, PartialEq, Eq, Hash, Structural)]
pub struct RenameFlags {
    /// The bits that are set, known ones and others.
    pub bits: u32,
}

impl RenameFlags {
    /// Don't overwrite newpath of the rename.
    pub const RENAME_NOREPLACE: u32 = 1;

    /// Atomically exchange oldpath and newpath.
    pub const RENAME_EXCHANGE: u32 = 2;

    /// Overlay/union-specific operation.
    pub const RENAME_WHITEOUT: u32 = 4;

    /// The flags with exactly these bits set.
    pub fn from_bits_retain(bits: u32) -> (r: Self)
        ensures
            r.bits == bits,
    {
        RenameFlags { bits }
    }

    /// The bits that are set.
    pub fn bits(self) -> (r: u32)
        ensures
            r == self.bits,
    {
        self.bits
    }

    /// Whether all of `flags` are set.
    pub fn contains(self, flags: u32) -> (r: bool)
        ensures
            r == (self.bits & flags == flags),
    {
        self.bits & flags == flags
    }

    /// The bits as a decimal number.
    pub fn text(&self) -> (r: String)
        ensures
            r@ == decimal(self.bits as int),
    {
        to_decimal(self.bits as u64)
    }
}

} // verus!
