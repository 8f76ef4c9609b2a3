//! Statistics of the zram device.
use vstd::prelude::*;

verus! {

/// Memory statistics of the zram device.
#[derive(Debug, Clone, Copy)]
pub struct ZramMmStat {
    /// The uncompressed size of the data on the device, in bytes.
    pub orig_data_size: u64,
}

/// Backing device statistics of the zram device.
#[derive(Debug, Clone, Copy)]
pub struct ZramBdStat {
    /// How many pages are on the backing device.
    pub bd_count_pages: u64,
}

} // verus!
