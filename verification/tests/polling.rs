use std::time::Instant;

use mainframe::monitoring::polling::{
    gpu_reading, memory_measurement, temperature_measurement, GpuPollResult, Measurement,
    SystemPollResult, SystemPoller, SystemPollerTarget, TimePoint,
};

#[test]
fn empty_result_has_empty_fields() {
    let r = SystemPollResult::new();
    assert!(r.cpu_usage.is_empty());
    assert!(r.gpu_info.is_empty());
    assert_eq!(r.cpu_temperature.value, 0);
    assert_eq!(r.cpu_temperature.name, "");
    assert_eq!(r.memory_usage.value, 0);
    assert_eq!(r.memory_usage.name, "");
}

#[test]
fn default_gpu_reading_is_a_placeholder() {
    let g = GpuPollResult::default();
    assert_eq!(g.name, "???");
    assert_eq!(g.temp, 0);
    assert_eq!(g.usage, 0);
    assert_eq!(g.memory_total, 0);
    assert_eq!(g.memory_used, 0);
}

#[test]
fn default_measurement_is_zero_valued() {
    let m = Measurement::default();
    assert_eq!(m.name, "");
    assert_eq!(m.value, 0);
}

#[test]
fn poll_without_targets_reads_nothing() {
    let mut poller = SystemPoller::new().with_poll_targets(vec![]);
    let r = poller.poll();
    assert!(r.cpu_usage.is_empty());
    assert!(r.gpu_info.is_empty());
    assert_eq!(r.cpu_temperature.value, 0);
    assert_eq!(r.memory_usage.value, 0);
}

#[test]
fn poll_with_unavailable_gpu_backend_degrades_to_empty_list() {
    // This host has no GPU driver, so the GPU backend is unavailable:
    // the poll must still return a complete sample, with an empty GPU
    // list rather than an error, and every other requested target read.
    let mut poller = SystemPoller::new().with_poll_targets(vec![
        SystemPollerTarget::CpuUsage,
        SystemPollerTarget::CpuTemperature,
        SystemPollerTarget::Gpu,
        SystemPollerTarget::Memory,
    ]);
    let r = poller.poll();

    assert!(r.gpu_info.is_empty());
    assert_eq!(r.memory_usage.name, "memory");
    assert!(r.memory_usage.value >= 0);
    // The temperature is a real reading or the documented sentinel of
    // ten degrees; either way the field is present and plausible.
    assert!(r.cpu_temperature.value >= 0);
    for m in &r.cpu_usage {
        assert!(!m.name.is_empty());
    }
}

#[test]
fn repeated_polls_keep_the_selected_targets() {
    let mut poller =
        SystemPoller::new().with_poll_targets(vec![SystemPollerTarget::Memory]);
    for _ in 0..3 {
        let r = poller.poll();
        assert!(r.cpu_usage.is_empty());
        assert!(r.gpu_info.is_empty());
        assert_eq!(r.memory_usage.name, "memory");
    }
}

#[test]
fn temperature_degrades_to_the_sentinel() {
    let ts = TimePoint(Instant::now());
    let read = temperature_measurement(Some(55), ts);
    assert_eq!(read.value, 55);
    assert_eq!(read.name, "");

    let unread = temperature_measurement(None, ts);
    assert_eq!(unread.value, 10);
}

#[test]
fn memory_measurement_is_named_and_clipped() {
    let ts = TimePoint(Instant::now());
    let m = memory_measurement(8 * 1024 * 1024 * 1024, ts);
    assert_eq!(m.name, "memory");
    assert_eq!(m.value, 8 * 1024 * 1024 * 1024);

    let huge = memory_measurement(u64::MAX, ts);
    assert_eq!(huge.value, i64::MAX);
}

#[test]
fn gpu_reading_defaults_each_absent_field() {
    let g = gpu_reading("Card".to_string(), Some(61), None, Some((16, 4)));
    assert_eq!(g.name, "Card");
    assert_eq!(g.temp, 61);
    assert_eq!(g.usage, 0);
    assert_eq!(g.memory_total, 16);
    assert_eq!(g.memory_used, 4);

    let g = gpu_reading("Card".to_string(), None, Some(30), None);
    assert_eq!(g.temp, 0);
    assert_eq!(g.usage, 30);
    assert_eq!(g.memory_total, 0);
    assert_eq!(g.memory_used, 0);
}
