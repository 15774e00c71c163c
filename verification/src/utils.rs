//! Helpers grouped by what they read.

pub mod sysinfo;
