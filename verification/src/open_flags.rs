//! How files are opened.

use vstd::prelude::*;

use crate::text::{digits, to_digits, to_upper, upper};

verus! {

/// The bits of open flags that hold the access mode.
pub const O_ACCMODE: i32 = 3;

/// How the file should be opened: read-only, write-only, or read-write.
#[derive(Clone, Copy, Debug, PartialEq, Eq, Hash, Structural)]
#[allow(non_camel_case_types)]
pub enum OpenAccMode {
    /// Open file for reading only.
    O_RDONLY,
    /// Open file for writing only.
    O_WRONLY,
    /// Open file for reading and writing.
    O_RDWR,
}

/// Open flags as passed to open operation.
#[derive(Clone, Copy, Debug, PartialEq, Eq, Hash, Structural)]
pub struct OpenFlags(pub i32);

impl OpenFlags {
    /// The access mode is in the bits for it. Where both are set, which opens nothing, the file is
    /// taken to be opened for reading.
    pub open spec fn spec_acc_mode(self) -> OpenAccMode {
        if self.0 & O_ACCMODE == 1 {
            OpenAccMode::O_WRONLY
        } else if self.0 & O_ACCMODE == 2 {
            OpenAccMode::O_RDWR
        } else {
            OpenAccMode::O_RDONLY
        }
    }

    /// File access mode.
    pub fn acc_mode(self) -> (r: OpenAccMode)
        ensures
            r == self.spec_acc_mode(),
    {
        match self.0 & O_ACCMODE {
            1 => OpenAccMode::O_WRONLY,
            2 => OpenAccMode::O_RDWR,
            _ => OpenAccMode::O_RDONLY,
        }
    }

    /// The bits in hexadecimal, in lower case.
    pub fn lower_hex(&self) -> (r: String)
        ensures
            r@ == digits(self.0 as u32 as nat, 16),
    {
        to_digits(self.0 as u32 as u64, 16)
    }

    /// The bits in hexadecimal, in upper case.
    pub fn upper_hex(&self) -> (r: String)
        ensures
            r@ == upper(digits(self.0 as u32 as nat, 16)),
    {
        to_upper(to_digits(self.0 as u32 as u64, 16))
    }
}

/// The two lowest bits tell how a file is opened: the first alone for writing, the second alone for
/// both.
pub proof fn lemma_lowest_bits_tell(flags: OpenFlags, r: OpenAccMode)
    requires
        call_ensures(OpenFlags::acc_mode, (flags,), r),
    ensures
        r is O_WRONLY <==> flags.0 & 1 != 0 && flags.0 & 2 == 0,
        r is O_RDWR <==> flags.0 & 1 == 0 && flags.0 & 2 != 0,
{
    let n: i32 = flags.0;
    assert({
        &&& n & 3 == 1 <==> n & 1 != 0 && n & 2 == 0
        &&& n & 3 == 2 <==> n & 1 == 0 && n & 2 != 0
    }) by (bit_vector);
}

} // verus!
