//! The device through which the kernel driver is reached.

use vstd::prelude::*;
use vstd::string::StringExecFns;

use crate::mnt::mount::ErrorKind;

verus! {

/// An error of the system: its kind, and what it says.
#[derive(Clone, Debug)]
pub struct IoError {
    pub kind: ErrorKind,
    pub text: String,
}

/// Where the device is.
pub fn device_path() -> (r: &'static str)
    ensures
        r@ == "/dev/fuse"@,
{
    "/dev/fuse"
}

/// What is said when the device could not be opened.
pub open spec fn open_error_text(kind: ErrorKind, text: Seq<char>) -> Seq<char> {
    if kind is NotFound {
        "/dev/fuse not found, try 'modprobe fuse'"@
    } else {
        "opening /dev/fuse: "@ + text
    }
}

/// Name the device, so that "No such file or directory" says which file. The error kind is
/// preserved for callers that match on it
pub fn open_error(err: IoError) -> (r: IoError)
    ensures
        r.kind == err.kind,
        r.text@ == open_error_text(err.kind, err.text@),
{
    if err.kind == ErrorKind::NotFound {
        IoError {
            kind: err.kind,
            text: String::from_str("/dev/fuse not found, try 'modprobe fuse'"),
        }
    } else {
        IoError { kind: err.kind, text: after_name("opening /dev/fuse: ", &err.text) }
    }
}

/// An error behind the name of what was tried.
fn after_name(name: &str, text: &String) -> (r: String)
    ensures
        r@ == name@ + text@,
{
    let mut s = String::from_str(name);
    s.append(text.as_str());
    s
}

/// What was tried with a device that is to be waited on.
#[derive(Clone, Copy, Debug, PartialEq, Eq, Structural)]
pub enum AsyncStep {
    /// Calls on it are not to block.
    SetNonblocking,
    /// It is watched.
    Watch,
}

/// An error with the name of what was tried. The kind stays.
pub fn async_error(step: AsyncStep, err: IoError) -> (r: IoError)
    ensures
        r.kind == err.kind,
        r.text@ == (match step {
            AsyncStep::SetNonblocking => "set_nonblocking: "@,
            AsyncStep::Watch => "AsyncFd::new: "@,
        }) + err.text@,
{
    IoError {
        kind: err.kind,
        text: match step {
            AsyncStep::SetNonblocking => after_name("set_nonblocking: ", &err.text),
            AsyncStep::Watch => after_name("AsyncFd::new: ", &err.text),
        },
    }
}

/// The status flag of a descriptor whose calls do not block.
pub const O_NONBLOCK: i32 = 0o4000;

/// The status flags `flags`, with calls that do not block. No other flag changes.
pub fn set_nonblocking(flags: i32) -> (r: i32)
    ensures
        r & O_NONBLOCK == O_NONBLOCK,
        r & !O_NONBLOCK == flags & !O_NONBLOCK,
{
    assert((flags | 0o4000) & 0o4000 == 0o4000) by (bit_vector);
    assert((flags | 0o4000) & !0o4000i32 == flags & !0o4000i32) by (bit_vector);
    flags | O_NONBLOCK
}

/// An error of opening the device keeps its kind and names the device; one that is not there comes
/// with advice, every other with what was said of it.
pub proof fn lemma_device_is_named(err: IoError, r: IoError)
    requires
        call_ensures(open_error, (err,), r),
    ensures
        err.kind == r.kind,
        err.kind is NotFound ==> r.text@ == "/dev/fuse not found, try 'modprobe fuse'"@,
        !(err.kind is NotFound) ==> r.text@.len() == 19 + err.text@.len() && r.text@.skip(19)
            == err.text@ && r.text@.take(19) == "opening /dev/fuse: "@,
{
    reveal_strlit("opening /dev/fuse: ");
    if !(err.kind is NotFound) {
        assert(r.text@.skip(19) =~= err.text@);
        assert(r.text@.take(19) =~= "opening /dev/fuse: "@);
    }
}

/// Of the status flags only the one for calls that do not block changes: it is set.
pub proof fn lemma_only_blocking_changes(flags: i32, r: i32)
    requires
        call_ensures(set_nonblocking, (flags,), r),
    ensures
        r & 2048 == 2048,
        r & !2048i32 == flags & !2048i32,
{
}

} // verus!
