//! What the daemon reads of the operating system.
use vstd::prelude::*;

verus! {

/// A second in nanoseconds.
pub const NANOS_PER_SECOND: u128 = 1_000_000_000;

/// The memory pages of the system.
#[derive(Clone, Copy, Debug)]
pub struct PageInfo {
    /// The size of one page, in bytes.
    pub page_size: u64,
    /// How many pages of physical memory there are.
    pub page_count: u64,
}

} // verus!
