//! The trusted boundary to the platform metrics providers.
//!
//! Every reading of CPU, memory, disk, or GPU state comes from an outside
//! crate (`sysinfo`, `get_sys_info`, `nvml_wrapper`) or from the standard
//! library's clock. Each item here either declares one of their types or
//! wraps exactly one of their calls; what a reading means is decided by the
//! verified code in [`crate::monitoring::polling`] and
//! [`crate::monitoring::system`], which takes these results as arguments.
//! Nothing is promised of the values themselves: they depend on the machine
//! and the moment.

use vstd::prelude::*;

verus! {

#[verifier::external_type_specification]
#[verifier::external_body]
pub struct ExSysinfoSystem(sysinfo::System);

#[verifier::external_type_specification]
#[verifier::external_body]
pub struct ExCpu(sysinfo::Cpu);

#[verifier::external_type_specification]
#[verifier::external_body]
pub struct ExDisks(sysinfo::Disks);

#[verifier::external_type_specification]
#[verifier::external_body]
pub struct ExDisk(sysinfo::Disk);

#[verifier::external_type_specification]
#[verifier::external_body]
pub struct ExGsiSystem(get_sys_info::System);

#[verifier::external_type_specification]
#[verifier::external_body]
pub struct ExNvml(nvml_wrapper::Nvml);

#[verifier::external_type_specification]
#[verifier::external_body]
pub struct ExDevice<'a>(nvml_wrapper::Device<'a>);

#[verifier::external_type_specification]
#[verifier::external_body]
pub struct ExInstant(std::time::Instant);

/// Relies on std::time::Instant::now: the current moment of the monotonic
/// clock; nothing can be promised of its value.
#[verifier::external_body]
pub(crate) fn instant_now() -> std::time::Instant {
    std::time::Instant::now()
}

/// Relies on sysinfo::System::new_all: a system handle with every resource
/// listed once.
#[verifier::external_body]
pub(crate) fn si_new_all() -> sysinfo::System {
    sysinfo::System::new_all()
}

/// Relies on sysinfo::System::refresh_all: re-reads every resource behind
/// the handle.
#[verifier::external_body]
pub(crate) fn si_refresh_all(sys: &mut sysinfo::System) {
    sys.refresh_all()
}

/// Relies on sysinfo::System::refresh_cpu_usage: re-reads per-core usage.
#[verifier::external_body]
pub(crate) fn si_refresh_cpu_usage(sys: &mut sysinfo::System) {
    sys.refresh_cpu_usage()
}

/// Relies on sysinfo::System::refresh_memory: re-reads memory figures.
#[verifier::external_body]
pub(crate) fn si_refresh_memory(sys: &mut sysinfo::System) {
    sys.refresh_memory()
}

/// Relies on sysinfo::System::cpus: one entry per logical core, in a stable
/// order.
#[verifier::external_body]
pub(crate) fn si_cpus(sys: &sysinfo::System) -> &[sysinfo::Cpu] {
    sys.cpus()
}

/// Relies on sysinfo::Cpu::name: the core's label, e.g. "cpu0".
#[verifier::external_body]
pub(crate) fn si_cpu_name(cpu: &sysinfo::Cpu) -> String {
    cpu.name().to_owned()
}

/// Relies on sysinfo::Cpu::cpu_usage: the core's utilization percentage,
/// truncated to whole percent.
#[verifier::external_body]
pub(crate) fn si_cpu_usage_percent(cpu: &sysinfo::Cpu) -> i64 {
    cpu.cpu_usage() as i64
}

/// Relies on sysinfo::System::used_memory: used RAM in bytes.
#[verifier::external_body]
pub(crate) fn si_used_memory(sys: &sysinfo::System) -> u64 {
    sys.used_memory()
}

/// Relies on sysinfo::System::total_memory: total RAM in bytes.
#[verifier::external_body]
pub(crate) fn si_total_memory(sys: &sysinfo::System) -> u64 {
    sys.total_memory()
}

/// Relies on sysinfo::System::name: the OS name, if known.
#[verifier::external_body]
pub(crate) fn si_os_name() -> Option<String> {
    sysinfo::System::name()
}

/// Relies on sysinfo::System::kernel_version, if known.
#[verifier::external_body]
pub(crate) fn si_kernel_version() -> Option<String> {
    sysinfo::System::kernel_version()
}

/// Relies on sysinfo::System::os_version, if known.
#[verifier::external_body]
pub(crate) fn si_os_version() -> Option<String> {
    sysinfo::System::os_version()
}

/// Relies on sysinfo::System::host_name, if known.
#[verifier::external_body]
pub(crate) fn si_host_name() -> Option<String> {
    sysinfo::System::host_name()
}

/// Relies on sysinfo::System::physical_core_count, if known.
#[verifier::external_body]
pub(crate) fn si_physical_core_count() -> Option<usize> {
    sysinfo::System::physical_core_count()
}

/// Relies on sysinfo::Disks::new_with_refreshed_list: every disk known to
/// the OS, freshly read.
#[verifier::external_body]
pub(crate) fn si_disks_refreshed() -> sysinfo::Disks {
    sysinfo::Disks::new_with_refreshed_list()
}

/// Relies on sysinfo::Disks::list: the listed disks.
#[verifier::external_body]
pub(crate) fn si_disks_list(disks: &sysinfo::Disks) -> &[sysinfo::Disk] {
    disks.list()
}

/// Relies on sysinfo::Disk::name: the disk's name, lossily decoded.
#[verifier::external_body]
pub(crate) fn si_disk_name(disk: &sysinfo::Disk) -> String {
    disk.name().to_string_lossy().to_string()
}

/// Relies on sysinfo::Disk::kind: the disk's kind as a label, one arm per
/// variant.
#[verifier::external_body]
pub(crate) fn si_disk_kind(disk: &sysinfo::Disk) -> String {
    match disk.kind() {
        sysinfo::DiskKind::SSD => "SSD".to_string(),
        sysinfo::DiskKind::HDD => "HDD".to_string(),
        sysinfo::DiskKind::Unknown(s) => format!("??? ({})", s),
    }
}

/// Relies on sysinfo::Disk::available_space: free bytes on the disk.
#[verifier::external_body]
pub(crate) fn si_disk_available_space(disk: &sysinfo::Disk) -> u64 {
    disk.available_space()
}

/// Relies on sysinfo::Disk::total_space: the disk's size in bytes.
#[verifier::external_body]
pub(crate) fn si_disk_total_space(disk: &sysinfo::Disk) -> u64 {
    disk.total_space()
}

/// Relies on get_sys_info::Platform::new for get_sys_info::System: a
/// platform handle for temperature readings.
#[verifier::external_body]
pub(crate) fn gsi_new() -> get_sys_info::System {
    <get_sys_info::System as get_sys_info::Platform>::new()
}

/// Relies on get_sys_info::Platform::cpu_temp: the CPU temperature in
/// degrees Celsius, truncated to whole degrees, or nothing where the
/// platform cannot read one.
#[verifier::external_body]
pub(crate) fn gsi_cpu_temp(sys: &get_sys_info::System) -> Option<i64> {
    match get_sys_info::Platform::cpu_temp(sys) {
        Ok(v) => Some(v as i64),
        Err(_) => None,
    }
}

/// Relies on nvml_wrapper::Nvml::init: a handle to the NVIDIA management
/// library, or nothing where no driver is available.
#[verifier::external_body]
pub(crate) fn nvml_init() -> Option<nvml_wrapper::Nvml> {
    match nvml_wrapper::Nvml::init() {
        Ok(nvml) => Some(nvml),
        Err(_) => None,
    }
}

/// Relies on nvml_wrapper::Nvml::device_count: how many devices the driver
/// reports, or nothing on a driver error.
#[verifier::external_body]
pub(crate) fn nvml_device_count(nvml: &nvml_wrapper::Nvml) -> Option<u32> {
    match nvml.device_count() {
        Ok(c) => Some(c),
        Err(_) => None,
    }
}

/// Relies on nvml_wrapper::Nvml::device_by_index: the device at the given
/// index, or nothing on a driver error.
#[verifier::external_body]
pub(crate) fn nvml_device_by_index<'a>(nvml: &'a nvml_wrapper::Nvml, index: u32) -> Option<
    nvml_wrapper::Device<'a>,
> {
    match nvml.device_by_index(index) {
        Ok(d) => Some(d),
        Err(_) => None,
    }
}

/// Relies on nvml_wrapper::Device::name: the device's marketed name, or the
/// driver error rendered as text.
#[verifier::external_body]
pub(crate) fn nvml_device_name(device: &nvml_wrapper::Device<'_>) -> String {
    match device.name() {
        Ok(n) => n,
        Err(e) => e.to_string(),
    }
}

/// Relies on nvml_wrapper::Device::temperature for the GPU die sensor:
/// degrees Celsius, or nothing on a driver error.
#[verifier::external_body]
pub(crate) fn nvml_device_temperature(device: &nvml_wrapper::Device<'_>) -> Option<u32> {
    match device.temperature(nvml_wrapper::enum_wrappers::device::TemperatureSensor::Gpu) {
        Ok(t) => Some(t),
        Err(_) => None,
    }
}

/// Relies on nvml_wrapper::Device::utilization_rates: the GPU utilization
/// percentage, or nothing on a driver error.
#[verifier::external_body]
pub(crate) fn nvml_device_utilization(device: &nvml_wrapper::Device<'_>) -> Option<u32> {
    match device.utilization_rates() {
        Ok(r) => Some(r.gpu),
        Err(_) => None,
    }
}

/// Relies on nvml_wrapper::Device::memory_info: the device's total and used
/// memory in bytes, or nothing on a driver error.
#[verifier::external_body]
pub(crate) fn nvml_device_memory(device: &nvml_wrapper::Device<'_>) -> Option<(u64, u64)> {
    match device.memory_info() {
        Ok(m) => Some((m.total, m.used)),
        Err(_) => None,
    }
}

} // verus!
