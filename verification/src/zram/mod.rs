//! zram management.

pub mod recompression;
pub mod setup;
pub mod stats;
pub mod writeback;
