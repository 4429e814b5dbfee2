use mainframe::monitoring::monitor::MeasurementName;
use mainframe::monitoring::system::SystemData;

#[test]
fn static_system_data_is_complete_and_consistent() {
    let data = SystemData::new_from_poll();

    // Whatever the platform reports, the used share of a disk never
    // exceeds its size.
    for disk in &data.disks {
        assert!(disk.available_space <= disk.total_space);
        assert!(!disk.kind.is_empty());
    }

    // The counts are plain figures, present even where unknown.
    let _ = data.info.logical_processors;
    let _ = data.info.physical_processors;
}

#[test]
fn default_measurement_name_is_zeroed() {
    let name = MeasurementName::default();
    assert_eq!(name.0, [0u8; 64]);
}
