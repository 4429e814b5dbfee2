//! The sampler: polls the selected metric targets each cycle and normalizes
//! the heterogeneous hardware readings into one result shape.
//!
//! A failed reading never aborts a poll cycle: each metric degrades to a
//! documented default, so one broken sensor cannot blank the dashboard.

use vstd::prelude::*;

use crate::monitoring::platform;
use crate::monitoring::system::{DiskInformation, SystemInformation};

verus! {

/// SystemPollerTarget enum allows selection of specific targets when
/// performing a system poll.
///
/// The following polling targets are available:
/// - [`Self::CpuUsage`] current usage percentages of available cores.
/// - [`Self::CpuTemperature`] current average cpu temperature.
/// - [`Self::Gpu`] current usage stats about available gpus.
/// - [`Self::Memory`] total and available RAM.
#[derive(Debug, Clone, Copy, PartialEq, Eq, Structural)]
pub enum SystemPollerTarget {
    CpuUsage,
    CpuTemperature,
    Gpu,
    Memory,
}

/// Struct TimePoint encodes a moment in time.
#[derive(Copy, Clone, Debug)]
pub struct TimePoint(pub std::time::Instant);

impl Default for TimePoint {
    /// The moment of the call.
    ///
    /// Relies on std::time::Instant::now through the platform boundary;
    /// nothing can be promised of the clock's value.
    fn default() -> Self {
        TimePoint(platform::instant_now())
    }
}

/// Measurement encodes a single measurement of some integer-valued metric
/// at a moment in time. The unit of `value` depends on the producing
/// target: whole percent for utilization, whole degrees Celsius for
/// temperature, bytes for memory.
#[derive(Clone, Debug)]
pub struct Measurement {
    pub name: String,
    pub time: TimePoint,
    pub value: i64,
}

impl Default for Measurement {
    /// The zero reading with an empty name, stamped with the moment of the
    /// call.
    fn default() -> (r: Self)
        ensures
            r.name@ == Seq::<char>::empty(),
            r.value == 0,
    {
        Measurement { name: String::new(), time: TimePoint::default(), value: 0 }
    }
}

/// One GPU's readings: name, temperature in whole degrees Celsius,
/// utilization in whole percent, and memory figures in bytes.
#[derive(Clone, Debug)]
pub struct GpuPollResult {
    pub name: String,
    pub temp: i64,
    pub usage: i64,
    pub memory_total: u64,
    pub memory_used: u64,
}

impl Default for GpuPollResult {
    /// An unknown device: placeholder name, zero readings.
    fn default() -> (r: Self)
        ensures
            r.name@ == "???"@,
            r.temp == 0,
            r.usage == 0,
            r.memory_total == 0,
            r.memory_used == 0,
    {
        GpuPollResult {
            name: "???".to_string(),
            temp: 0,
            usage: 0,
            memory_total: 0,
            memory_used: 0,
        }
    }
}

/// SystemPollResult struct holds the latest polled system data, and is
/// returned from a call to `SystemPoller::poll()`.
///
/// Fields correspond to flag options of SystemPollerTarget, and if the
/// poller is not set up to track that metric, the corresponding field in
/// this struct will be empty.
#[derive(Clone, Debug)]
pub struct SystemPollResult {
    pub cpu_usage: Vec<Measurement>,
    pub cpu_temperature: Measurement,
    pub memory_usage: Measurement,
    pub gpu_info: Vec<GpuPollResult>,
}

impl SystemPollResult {
    /// An empty result: no per-core readings, zero-valued single readings,
    /// no GPUs.
    pub fn new() -> (r: Self)
        ensures
            r.cpu_usage@.len() == 0,
            r.cpu_temperature.value == 0,
            r.cpu_temperature.name@ == Seq::<char>::empty(),
            r.memory_usage.value == 0,
            r.memory_usage.name@ == Seq::<char>::empty(),
            r.gpu_info@.len() == 0,
    {
        SystemPollResult {
            cpu_usage: Vec::new(),
            cpu_temperature: Measurement::default(),
            memory_usage: Measurement::default(),
            gpu_info: Vec::new(),
        }
    }
}

impl Default for SystemPollResult {
    /// The same empty result that [`SystemPollResult::new`] builds.
    fn default() -> (r: Self)
        ensures
            r.cpu_usage@.len() == 0,
            r.cpu_temperature.value == 0,
            r.memory_usage.value == 0,
            r.gpu_info@.len() == 0,
    {
        SystemPollResult::new()
    }
}

/// The temperature reading a poll records: the sensor's whole degrees where
/// one could be read, and a sentinel low reading of ten degrees where not.
pub open spec fn temperature_value(reading: Option<i64>) -> int {
    match reading {
        Some(v) => v as int,
        None => 10,
    }
}

/// Builds the CPU temperature measurement from what the platform sensor
/// returned, whatever that was: the value follows [`temperature_value`] and
/// the measurement carries the poll cycle's shared timestamp.
pub fn temperature_measurement(reading: Option<i64>, ts: TimePoint) -> (m: Measurement)
    ensures
        m.value == temperature_value(reading),
        m.time == ts,
        m.name@ == Seq::<char>::empty(),
{
    let value: i64 = match reading {
        Some(v) => v,
        None => 10,
    };
    Measurement { name: String::new(), time: ts, value }
}

/// The memory reading a poll records for a used-bytes figure: the figure
/// itself, clipped only where it cannot be held in a signed measurement.
pub open spec fn memory_value(used: u64) -> int {
    if used <= i64::MAX as u64 {
        used as int
    } else {
        i64::MAX as int
    }
}

/// Builds the memory measurement from the platform's used-bytes figure,
/// whatever it was: the value follows [`memory_value`], the name is
/// "memory", and the measurement carries the poll cycle's shared timestamp.
pub fn memory_measurement(used: u64, ts: TimePoint) -> (m: Measurement)
    ensures
        m.value == memory_value(used),
        m.time == ts,
        m.name@ == "memory"@,
{
    let value: i64 = if used <= i64::MAX as u64 {
        used as i64
    } else {
        i64::MAX
    };
    Measurement { name: "memory".to_string(), time: ts, value }
}

/// Builds one GPU's readings from what the platform handed back for it,
/// whatever that was: each absent reading degrades to zero, and the name is
/// taken as given.
pub fn gpu_reading(
    name: String,
    temp: Option<u32>,
    usage: Option<u32>,
    memory: Option<(u64, u64)>,
) -> (g: GpuPollResult)
    ensures
        g.name == name,
        g.temp == match temp {
            Some(t) => t as int,
            None => 0,
        },
        g.usage == match usage {
            Some(u) => u as int,
            None => 0,
        },
        g.memory_total == match memory {
            Some(m) => m.0,
            None => 0,
        },
        g.memory_used == match memory {
            Some(m) => m.1,
            None => 0,
        },
{
    GpuPollResult {
        name,
        temp: match temp {
            Some(t) => t as i64,
            None => 0,
        },
        usage: match usage {
            Some(u) => u as i64,
            None => 0,
        },
        memory_total: match memory {
            Some(m) => m.0,
            None => 0,
        },
        memory_used: match memory {
            Some(m) => m.1,
            None => 0,
        },
    }
}

/// SystemPoller manages the polling of system data.
///
/// System data includes metrics like cpu usage, temperature, memory
/// usage, and gpu usage, as well as time invariant data like hostname and
/// operating system.
///
/// Instantiate new [`SystemPoller`] instances with [`SystemPoller::new()`].
///
/// By default, not all system metrics will be polled. Select which metrics
/// should be recorded with [`SystemPoller::with_poll_targets()`].
pub struct SystemPoller {
    sysinfo_system: sysinfo::System,
    gsi_system: get_sys_info::System,
    nvml: Option<nvml_wrapper::Nvml>,
    target_flags: Vec<SystemPollerTarget>,
}

impl SystemPoller {
    /// The targets this poller reads on each poll.
    pub closed spec fn targets(&self) -> Seq<SystemPollerTarget> {
        self.target_flags@
    }

    /// Whether a GPU backend could be opened when this poller was made.
    pub closed spec fn has_gpu_handle(&self) -> bool {
        self.nvml is Some
    }

    /// Initialize a new SystemPoller compatible object using the sysinfo
    /// crate as a backend. No targets are selected yet; where no GPU
    /// driver is available, the poller simply has no GPU backend.
    pub fn new() -> (r: Self)
        ensures
            r.targets() == Seq::<SystemPollerTarget>::empty(),
    {
        let mut sysinfo_system = platform::si_new_all();
        platform::si_refresh_all(&mut sysinfo_system);

        SystemPoller {
            sysinfo_system,
            gsi_system: platform::gsi_new(),
            nvml: platform::nvml_init(),
            target_flags: Vec::new(),
        }
    }

    /// Select which poll targets this poller object should fetch.
    ///
    /// As polling can be an expensive process, only select the metrics you
    /// want to read.
    ///
    /// This function accepts a vector of [`SystemPollerTarget`] enum
    /// variants, which will determine which system data will be fetched on
    /// each call to [`SystemPoller::poll()`].
    pub fn with_poll_targets(self, targets: Vec<SystemPollerTarget>) -> (r: Self)
        ensures
            r.targets() == targets@,
            r.has_gpu_handle() == self.has_gpu_handle(),
    {
        let mut s = self;
        s.target_flags = targets;
        s
    }

    /// Poll the system for each of the previously defined poll targets.
    ///
    /// Every requested metric is read once; every metric that was not
    /// requested stays empty or zero. All measurements of one poll cycle
    /// carry the same timestamp. A reading that the platform cannot
    /// produce degrades to its documented default instead of failing the
    /// poll: the temperature to a sentinel ten degrees, the GPU list to
    /// emptiness.
    pub fn poll(&mut self) -> (r: SystemPollResult)
        ensures
            final(self).targets() == old(self).targets(),
            final(self).has_gpu_handle() == old(self).has_gpu_handle(),
            r.cpu_temperature.time == r.memory_usage.time,
            forall|i: int|
                0 <= i < r.cpu_usage@.len() ==> r.cpu_usage@[i].time == r.cpu_temperature.time,
            !old(self).targets().contains(SystemPollerTarget::CpuUsage) ==> r.cpu_usage@.len()
                == 0,
            !old(self).targets().contains(SystemPollerTarget::CpuTemperature)
                ==> r.cpu_temperature.value == 0,
            !old(self).targets().contains(SystemPollerTarget::Memory) ==> r.memory_usage.value
                == 0,
            !old(self).targets().contains(SystemPollerTarget::Gpu) ==> r.gpu_info@.len() == 0,
            !old(self).has_gpu_handle() ==> r.gpu_info@.len() == 0,
            old(self).targets().contains(SystemPollerTarget::Memory) ==> r.memory_usage.name@
                == "memory"@,
    {
        let ghost orig = *self;
        let mut res = SystemPollResult::new();
        let time = TimePoint(platform::instant_now());
        res.cpu_temperature.time = time;
        res.memory_usage.time = time;

        let n = self.target_flags.len();
        let mut k: usize = 0;
        while k < n
            invariant
                self.targets() == orig.targets(),
                self.has_gpu_handle() == orig.has_gpu_handle(),
                n == self.target_flags.len(),
                k <= n,
                res.cpu_temperature.time == time,
                res.memory_usage.time == time,
                forall|i: int| 0 <= i < res.cpu_usage@.len() ==> res.cpu_usage@[i].time == time,
                !orig.targets().contains(SystemPollerTarget::CpuUsage) ==> res.cpu_usage@.len()
                    == 0,
                !orig.targets().contains(SystemPollerTarget::CpuTemperature)
                    ==> res.cpu_temperature.value == 0,
                !orig.targets().contains(SystemPollerTarget::Memory) ==> res.memory_usage.value
                    == 0,
                !orig.targets().contains(SystemPollerTarget::Gpu) ==> res.gpu_info@.len() == 0,
                !orig.has_gpu_handle() ==> res.gpu_info@.len() == 0,
                (exists|j: int|
                    0 <= j < k && orig.targets()[j] == SystemPollerTarget::Memory)
                    ==> res.memory_usage.name@ == "memory"@,
            decreases n - k,
        {
            let target = self.target_flags[k];
            proof {
                assert(orig.targets().contains(orig.targets()[k as int]));
            }
            match target {
                SystemPollerTarget::CpuUsage => {
                    platform::si_refresh_cpu_usage(&mut self.sysinfo_system);
                    let cpus = platform::si_cpus(&self.sysinfo_system);
                    let mut j: usize = 0;
                    while j < cpus.len()
                        invariant
                            j <= cpus@.len(),
                            res.cpu_temperature.time == time,
                            res.memory_usage.time == time,
                            forall|i: int|
                                0 <= i < res.cpu_usage@.len() ==> res.cpu_usage@[i].time
                                    == time,
                            !orig.targets().contains(SystemPollerTarget::CpuTemperature)
                                ==> res.cpu_temperature.value == 0,
                            !orig.targets().contains(SystemPollerTarget::Memory)
                                ==> res.memory_usage.value == 0,
                            !orig.targets().contains(SystemPollerTarget::Gpu)
                                ==> res.gpu_info@.len() == 0,
                            !orig.has_gpu_handle() ==> res.gpu_info@.len() == 0,
                            (exists|j2: int|
                                0 <= j2 < k && orig.targets()[j2] == SystemPollerTarget::Memory)
                                ==> res.memory_usage.name@ == "memory"@,
                        decreases cpus@.len() - j,
                    {
                        let name = platform::si_cpu_name(&cpus[j]);
                        let value = platform::si_cpu_usage_percent(&cpus[j]);
                        res.cpu_usage.push(Measurement { name, time, value });
                        j = j + 1;
                    }
                },
                SystemPollerTarget::CpuTemperature => {
                    let reading = platform::gsi_cpu_temp(&self.gsi_system);
                    res.cpu_temperature = temperature_measurement(reading, time);
                },
                SystemPollerTarget::Gpu => {
                    res.gpu_info = self.poll_gpus();
                },
                SystemPollerTarget::Memory => {
                    platform::si_refresh_memory(&mut self.sysinfo_system);
                    let used = platform::si_used_memory(&self.sysinfo_system);
                    res.memory_usage = memory_measurement(used, time);
                },
            }
            k = k + 1;
        }

        res
    }

    /// Reads every available GPU once.
    ///
    /// Without a GPU backend the list is empty, never an error. With one,
    /// a device the driver fails to describe degrades to the default
    /// placeholder reading, and a failed device count to an empty list.
    pub fn poll_gpus(&self) -> (gpus: Vec<GpuPollResult>)
        ensures
            !self.has_gpu_handle() ==> gpus@.len() == 0,
    {
        match &self.nvml {
            None => Vec::new(),
            Some(nvml) => {
                let count = match platform::nvml_device_count(nvml) {
                    Some(c) => c,
                    None => 0,
                };

                let mut gpus = Vec::<GpuPollResult>::new();
                let mut i: u32 = 0;
                while i < count
                    invariant
                        i <= count,
                    decreases count - i,
                {
                    let g = match platform::nvml_device_by_index(nvml, i) {
                        Some(device) => {
                            let name = platform::nvml_device_name(&device);
                            let temp = platform::nvml_device_temperature(&device);
                            let usage = platform::nvml_device_utilization(&device);
                            let memory = platform::nvml_device_memory(&device);
                            gpu_reading(name, temp, usage, memory)
                        },
                        None => GpuPollResult::default(),
                    };
                    gpus.push(g);
                    i = i + 1;
                }

                gpus
            },
        }
    }

    /// Get a [`SystemInformation`] object representing the current system.
    ///
    /// Calls [`Self::poll()`] once in order to obtain accurate readings.
    /// Every name the platform cannot give degrades to emptiness, and an
    /// unknown physical core count to zero.
    pub fn get_system_info(&mut self) -> (r: SystemInformation)
        ensures
            final(self).targets() == old(self).targets(),
            final(self).has_gpu_handle() == old(self).has_gpu_handle(),
    {
        self.poll();

        let cpus = platform::si_cpus(&self.sysinfo_system);
        let logical_processors = cpus.len();

        SystemInformation {
            os: match platform::si_os_name() {
                Some(s) => s,
                None => String::new(),
            },
            kernel_version: match platform::si_kernel_version() {
                Some(s) => s,
                None => String::new(),
            },
            os_version: match platform::si_os_version() {
                Some(s) => s,
                None => String::new(),
            },
            host_name: match platform::si_host_name() {
                Some(s) => s,
                None => String::new(),
            },
            logical_processors,
            physical_processors: match platform::si_physical_core_count() {
                Some(c) => c,
                None => 0,
            },
            total_memory: platform::si_total_memory(&self.sysinfo_system),
        }
    }

    /// Construct a disk data object for each disk.
    ///
    /// The recorded `available_space` is the used share of the disk: the
    /// total less the free bytes, and zero where the platform reports more
    /// free bytes than the disk's size. It therefore never exceeds
    /// `total_space`.
    pub fn get_disk_info(&mut self) -> (r: Vec<DiskInformation>)
        ensures
            forall|i: int|
                0 <= i < r@.len() ==> #[trigger] r@[i].available_space <= r@[i].total_space,
    {
        let disks = platform::si_disks_refreshed();
        let list = platform::si_disks_list(&disks);

        let mut out = Vec::<DiskInformation>::new();
        let mut i: usize = 0;
        while i < list.len()
            invariant
                i <= list@.len(),
                forall|j: int|
                    0 <= j < out@.len() ==> #[trigger] out@[j].available_space
                        <= out@[j].total_space,
            decreases list@.len() - i,
        {
            let total = platform::si_disk_total_space(&list[i]);
            let free = platform::si_disk_available_space(&list[i]);
            let used = if free <= total {
                total - free
            } else {
                0
            };

            out.push(
                DiskInformation {
                    name: platform::si_disk_name(&list[i]),
                    kind: platform::si_disk_kind(&list[i]),
                    available_space: used,
                    total_space: total,
                },
            );
            i = i + 1;
        }

        out
    }
}

} // verus!
