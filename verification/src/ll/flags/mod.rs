//! Flags of the protocol.

pub mod copy_file_range_flags;
pub mod cuse_init_flags;
pub mod fattr_flags;
pub mod fopen_flags;
pub mod fsync_flags;
pub mod getattr_flags;
pub mod init_flags;
pub mod ioctl_flags;
pub mod numbers;
pub mod open_in_flags;
pub mod poll_flags;
pub mod read_flags;
pub mod release_flags;
pub mod statx_flags;
pub mod write_flags;
