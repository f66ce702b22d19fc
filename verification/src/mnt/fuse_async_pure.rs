//! Mounts that are made and ended while other work goes on.

use vstd::prelude::*;

verus! {

/// A mount: `K` is the socket that keeps a mount helper from unmounting, and `D` is the device.
#[derive(Debug)]
pub struct AsyncMount<K, D> {
    pub auto_unmount_socket: Option<K>,
    pub fuse_device: Option<D>,
    /// Whether something waits to unmount the filesystem.
    pub unmount_awaited: bool,
}

/// What is done when the filesystem is unmounted.
#[derive(Clone, Copy, Debug, PartialEq, Eq, Structural)]
pub enum UnmountAction<K> {
    /// It is not mounted any more.
    Nothing,
    /// The socket is closed, if there is one, and the system call is made.
    SystemCall(Option<K>),
    /// The socket is closed, if there is one, and a mount helper is called.
    Helper(Option<K>),
}

impl<K, D> AsyncMount<K, D> {
    /// A mount that was not made yet.
    pub fn new() -> (r: AsyncMount<K, D>)
        ensures
            r.auto_unmount_socket is None,
            r.fuse_device is None,
            !r.unmount_awaited,
    {
        AsyncMount { auto_unmount_socket: None, fuse_device: None, unmount_awaited: false }
    }

    /// Whether the filesystem is to be mounted. It is not if it is already mounted.
    pub fn mount_impl(&self) -> (needed: bool)
        ensures
            needed == (self.fuse_device is None),
    {
        self.fuse_device.is_none()
    }

    /// The mount was made: this is its device, and the socket that the helper left, if it did.
    pub fn mounted(&mut self, device: D, socket: Option<K>)
        ensures
            final(self).fuse_device == Some(device),
            final(self).auto_unmount_socket == socket,
            final(self).unmount_awaited,
    {
        self.fuse_device = Some(device);
        self.auto_unmount_socket = socket;
        self.unmount_awaited = true;
    }

    /// Unmount the filesystem. This is a no-op if the filesystem is already unmounted.
    ///
    /// `mounted` says whether the filesystem of the device is still mounted, and counts only where
    /// there is a device; `root` says whether the caller is root, who needs no helper.
    pub fn umount_impl(&mut self, mounted: bool, root: bool) -> (r: UnmountAction<K>)
        ensures
            r == (if old(self).fuse_device is Some && !mounted {
                UnmountAction::Nothing
            } else if root {
                UnmountAction::SystemCall(old(self).auto_unmount_socket)
            } else {
                UnmountAction::Helper(old(self).auto_unmount_socket)
            }),
            final(self).auto_unmount_socket == (if r is Nothing {
                old(self).auto_unmount_socket
            } else {
                None
            }),
            final(self).fuse_device == old(self).fuse_device,
            final(self).unmount_awaited == old(self).unmount_awaited,
    {
        if self.fuse_device.is_some() && !mounted {
            return UnmountAction::Nothing;
        }
        let socket = self.auto_unmount_socket.take();
        if root {
            UnmountAction::SystemCall(socket)
        } else {
            UnmountAction::Helper(socket)
        }
    }

    /// Asks what waits to unmount the filesystem to do so. Returns whether it is there to be asked,
    /// which it is once.
    pub fn umount_impl_sync(&mut self) -> (asked: bool)
        ensures
            asked == old(self).unmount_awaited,
            !final(self).unmount_awaited,
            final(self).auto_unmount_socket == old(self).auto_unmount_socket,
            final(self).fuse_device == old(self).fuse_device,
    {
        let asked = self.unmount_awaited;
        self.unmount_awaited = false;
        asked
    }

    /// The device, once the mount was made.
    pub fn dev_fuse(&self) -> (r: Option<&D>)
        ensures
            match r {
                Some(d) => self.fuse_device == Some(*d),
                None => self.fuse_device is None,
            },
    {
        self.fuse_device.as_ref()
    }
}

/// What is mounted no longer is left alone; else root unmounts by the system call and others by a
/// helper, and either way the socket is handed out.
pub proof fn lemma_how_to_unmount<K, D>(
    mount: &mut AsyncMount<K, D>,
    mounted: bool,
    root: bool,
    r: UnmountAction<K>,
)
    requires
        call_ensures(AsyncMount::<K, D>::umount_impl, (mount, mounted, root), r),
    ensures
        r is Nothing <==> !mounted && old(mount).fuse_device is Some,
        r is SystemCall ==> root && r->SystemCall_0 == old(mount).auto_unmount_socket,
        r is Helper ==> !root && r->Helper_0 == old(mount).auto_unmount_socket,
        !(r is Nothing) ==> final(mount).auto_unmount_socket is None,
{
}

} // verus!
