//! Which access is to be tested.

use vstd::prelude::*;

use crate::text::{decimal, to_signed_decimal};

verus! {

/// Flags for `access` operation.
#[derive(Clone, Copy, Debug, PartialEq, Eq, Hash, Structural)]
pub struct AccessFlags {
    /// The bits that are set, known ones and others.
    pub bits: i32,
}

impl AccessFlags {
    /// Test for the existence of a file. This is not a flag, but a constant zero.
    pub const F_OK: i32 = 0;

    /// Test for read permission.
    pub const R_OK: i32 = 4;

    /// Test for write permission.
    pub const W_OK: i32 = 2;

    /// Test for execute permission.
    pub const X_OK: i32 = 1;

    /// The flags with exactly these bits set.
    pub fn from_bits_retain(bits: i32) -> (r: Self)
        ensures
            r.bits == bits,
    {
        AccessFlags { bits }
    }

    /// The bits that are set.
    pub fn bits(self) -> (r: i32)
        ensures
            r == self.bits,
    {
        self.bits
    }

    /// Whether all of `flags` are set.
    pub fn contains(self, flags: i32) -> (r: bool)
        ensures
            r == (self.bits & flags == flags),
    {
        self.bits & flags == flags
    }

    /// The bits as a decimal number.
    pub fn text(&self) -> (r: String)
        ensures
            r@ == decimal(self.bits as int),
    {
        to_signed_decimal(self.bits as i64)
    }
}

} // verus!
