//! Selection types for a coarse system monitor: which metric categories
//! it may be asked to track, and the fixed-size measurement name it uses.

use vstd::prelude::*;

verus! {

/// SystemMonitorTargets enum allows selection of specific targets when
/// performing a system poll.
#[derive(Debug, Clone, Copy)]
pub enum SystemMonitorTargets {
    CpuUsage,
    CpuTemperature,
    CpuFanspeed,
    RamUsage,
}

/// Struct TimePoint encodes a moment in time.
#[derive(Copy, Clone, Debug)]
pub struct TimePoint(pub std::time::Instant);

/// A fixed-width measurement name: up to 64 bytes, zero-padded.
#[derive(Copy, Clone, Debug)]
pub struct MeasurementName(pub [u8; 64]);

impl Default for MeasurementName {
    /// The all-zero name.
    fn default() -> (r: Self)
        ensures
            forall|i: int| 0 <= i < 64 ==> r.0@[i] == 0u8,
    {
        MeasurementName([0u8; 64])
    }
}

} // verus!
