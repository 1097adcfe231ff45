//! Space in use on the disks of the host.
//!
//! The caller reads the sizes; the whole numbers that are reported of them
//! are computed here. The share in use, a fraction, is left to the caller.

use vstd::prelude::*;

verus! {

/// Bytes in a gigabyte, as disks are sold.
pub const BYTES_PER_GB: u64 = 1_000_000_000;

/// The space of one disk, in whole gigabytes, and the bytes in use.
#[derive(Debug, Clone, Copy, PartialEq, Eq, Structural)]
pub struct DiskSpace {
    /// Bytes in use.
    pub used: u64,
    /// Size of the disk in whole gigabytes.
    pub total_gb: u64,
    /// Space in use in whole gigabytes.
    pub used_gb: u64,
}

/// The space of a disk of `total` bytes of which `available` are free.
pub open spec fn disk_space_spec(total: u64, available: u64) -> DiskSpace {
    DiskSpace {
        used: (total - available) as u64,
        total_gb: total / BYTES_PER_GB,
        used_gb: ((total - available) as u64) / BYTES_PER_GB,
    }
}

/// Computes the space of a disk of `total` bytes of which `available` are free.
pub fn disk_space(total: u64, available: u64) -> (space: DiskSpace)
    requires
        available <= total,
    ensures
        space == disk_space_spec(total, available),
        space.used_gb <= space.total_gb,
{
    let used = total - available;
    DiskSpace { used, total_gb: total / BYTES_PER_GB, used_gb: used / BYTES_PER_GB }
}

} // verus!
