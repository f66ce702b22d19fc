//! The protocol between the kernel driver and a filesystem: requests, replies and their bytes.

pub mod answers;
pub mod argument;
pub mod byte_order;
pub mod descriptions;
pub mod errno;
pub mod flags;
pub mod fuse_abi;
pub mod ioctl;
pub mod ioslice_concat;
pub mod layout;
pub mod listing;
pub mod notify;
pub mod reply;
pub mod reply_async;
pub mod request;
pub mod response_buf;
pub mod wire;
