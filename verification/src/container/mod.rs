//! Slices under various kinds of ownership.

pub mod kinds;
pub mod specialized;
pub mod utils;
