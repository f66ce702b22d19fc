//! Mounting: options, what is handed to the system, and what follows from its answers.

pub mod conflicts;
pub mod fuse_async_pure;
pub mod fuse_direct;
pub mod fuse_pure;
pub mod fusermount;
pub mod libfuse;
pub mod mount;
pub mod mount_options;
pub mod mtab;
pub mod option_list;
pub mod system_mount;
pub mod unmount_options;
