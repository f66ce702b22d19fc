//! Answers that a filesystem returns, in place of sending them itself.

pub mod getattr;
pub mod lookup;
pub mod read;
pub mod readdir;
pub mod write;
