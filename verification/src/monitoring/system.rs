//! Static system data: what does not change over the runtime of the
//! dashboard, such as system name, drive layout, and total available RAM.

use vstd::prelude::*;

use crate::monitoring::polling::SystemPoller;

verus! {

/// SystemData struct holds various pieces of static system data.
///
/// Static system data refers to data that will not change over the runtime
/// of the system, such as system name, number of drives, total available
/// RAM, etc.
pub struct SystemData {
    pub info: SystemInformation,
    pub disks: Vec<DiskInformation>,
}

/// Holds general information about the name, make, and model of the system.
///
/// Should be instantiated via the appropriate system information monitoring
/// backend.
pub struct SystemInformation {
    pub os: String,
    pub os_version: String,
    pub kernel_version: String,
    pub host_name: String,
    pub logical_processors: usize,
    pub physical_processors: usize,
    pub total_memory: u64,
}

/// Contains information about, and usage of, a single disk known to the
/// operating system.
///
/// Should be instantiated via the appropriate system information monitoring
/// backend. `available_space` holds the used share of the disk (the total
/// less the free bytes), and never exceeds `total_space`.
pub struct DiskInformation {
    pub name: String,
    pub kind: String,
    pub available_space: u64,
    pub total_space: u64,
}

impl SystemData {
    /// Queries a fresh poller once for the system's static information and
    /// its disks. Comparatively expensive; meant for startup, not for the
    /// periodic hot path.
    pub fn new_from_poll() -> (r: Self)
        ensures
            forall|i: int|
                0 <= i < r.disks@.len() ==> #[trigger] r.disks@[i].available_space
                    <= r.disks@[i].total_space,
    {
        let mut s = SystemPoller::new();

        let info = s.get_system_info();
        let disks = s.get_disk_info();
        SystemData { info, disks }
    }
}

} // verus!
