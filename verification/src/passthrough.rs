//! Files that back others.

use vstd::prelude::*;

use crate::ll::ioctl::fuse_backing_map;

verus! {

/// What the device is told to make the file of the descriptor `fd` back others.
pub fn backing_map(fd: i32) -> (r: fuse_backing_map)
    ensures
        r == (fuse_backing_map { fd: fd as u32, flags: 0, padding: 0 }),
{
    fuse_backing_map { fd: fd as u32, flags: 0, padding: 0 }
}

/// A reference to a previously opened fd intended to be used for passthrough
///
/// It is made by asking the device, and the device is told when it is let go, unless the channel to
/// it `C` is closed by then or the number was taken out.
#[derive(Debug)]
pub struct BackingId<C> {
    pub channel: C,
    /// The `backing_id` field passed to and from the kernel
    pub backing_id: u32,
}

impl<C> BackingId<C> {
    /// The reference that the device answered with, or its error.
    pub fn create<E>(channel: C, answer: Result<i32, E>) -> (r: Result<BackingId<C>, E>)
        ensures
            r == (match answer {
                Ok(id) => Ok::<BackingId<C>, E>(BackingId { channel, backing_id: id as u32 }),
                Err(e) => Err::<BackingId<C>, E>(e),
            }),
    {
        match answer {
            Ok(id) => Ok(BackingId { channel, backing_id: id as u32 }),
            Err(e) => Err(e),
        }
    }

    /// The reference with a number that was taken out of one before.
    pub fn wrap_raw(channel: C, id: u32) -> (r: BackingId<C>)
        ensures
            r == (BackingId { channel, backing_id: id }),
    {
        BackingId { channel, backing_id: id }
    }

    /// Converts this backing file reference into the raw `backing_id` value as returned by the
    /// kernel.
    ///
    /// This method transfers ownership of the backing file to the caller: the reference is gone,
    /// and the device is not told.
    pub fn into_raw(self) -> (r: u32)
        ensures
            r == self.backing_id,
    {
        self.backing_id
    }

    /// What the device is told when the reference is let go: the number, where the channel is still
    /// open.
    pub fn let_go(self, channel_open: bool) -> (r: Option<u32>)
        ensures
            r == (if channel_open {
                Some(self.backing_id)
            } else {
                None
            }),
    {
        if channel_open {
            Some(self.backing_id)
        } else {
            None
        }
    }
}

/// A file that backs another is named by its descriptor.
pub proof fn lemma_backing_file_is_named(fd: i32, r: fuse_backing_map)
    requires
        fd >= 0,
        call_ensures(backing_map, (fd,), r),
    ensures
        r.fd == fd,
        r.flags == 0,
        r.padding == 0,
{
}

/// A backing file is let go by its number, and only while there is a channel.
pub proof fn lemma_backing_file_is_let_go<C>(id: BackingId<C>, channel_open: bool, r: Option<u32>)
    requires
        call_ensures(BackingId::<C>::let_go, (id, channel_open), r),
    ensures
        !channel_open ==> r is None,
        channel_open ==> r == Some(id.backing_id),
{
}

} // verus!
