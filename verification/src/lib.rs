//! A user-space implementation of the FUSE protocol, with its rules stated and proved.

pub mod access_flags;
pub mod async_session;
pub mod bsd_file_flags;
pub mod channel;
pub mod container;
pub mod dev_fuse;
pub mod experimental;
pub mod file_attr;
pub mod filesystem;
pub mod ids;
pub mod io_ops;
pub mod kernel_config;
pub mod ll;
pub mod mnt;
pub mod mount_options;
pub mod notify;
pub mod null_fs;
pub mod open_flags;
pub mod passthrough;
pub mod poll_events;
pub mod rename_flags;
pub mod text;
pub mod time;

pub use crate::access_flags::AccessFlags;
pub use crate::bsd_file_flags::BsdFileFlags;
pub use crate::file_attr::{FileAttr, FileType, StatxAttr};
pub use crate::filesystem::Filesystem;
pub use crate::ids::{Errno, FileHandle, Generation, INodeNo, LockOwner, RequestId, Version};
pub use crate::kernel_config::{KernelConfig, SessionACL, FUSE_INVALID_UIDGID};
pub use crate::ll::flags::copy_file_range_flags::CopyFileRangeFlags;
pub use crate::ll::flags::fopen_flags::FopenFlags;
pub use crate::ll::flags::init_flags::InitFlags;
pub use crate::ll::flags::ioctl_flags::IoctlFlags;
pub use crate::ll::flags::poll_flags::PollFlags;
pub use crate::ll::flags::statx_flags::{StatxAttributes, StatxMask};
pub use crate::ll::flags::write_flags::WriteFlags;
pub use crate::mnt::mount_options::{Config, MountOption};
pub use crate::notify::{Notifier, PollHandle, PollNotifier};
pub use crate::open_flags::{OpenAccMode, OpenFlags};
pub use crate::passthrough::BackingId;
pub use crate::poll_events::PollEvents;
pub use crate::rename_flags::RenameFlags;
pub use crate::time::TimeOrNow;
