use std::time::Instant;

use mainframe::display::cpu::cpu_average;
use mainframe::display::graph::GraphOpts;
use mainframe::display::memory::used_memory_percent;
use mainframe::display::state::UIState;
use mainframe::errors::MFError;
use mainframe::monitoring::polling::{Measurement, TimePoint};

fn reading(name: &str, value: i64) -> Measurement {
    Measurement { name: name.to_string(), time: TimePoint(Instant::now()), value }
}

#[test]
fn average_of_readings_rounds_down() {
    let readings = vec![reading("cpu0", 10), reading("cpu1", 20), reading("cpu2", 31)];
    assert_eq!(cpu_average(&readings), 20);

    let readings = vec![reading("cpu0", 99), reading("cpu1", 100)];
    assert_eq!(cpu_average(&readings), 99);
}

#[test]
fn average_of_no_readings_is_zero() {
    let readings: Vec<Measurement> = vec![];
    assert_eq!(cpu_average(&readings), 0);
}

#[test]
fn memory_percentage_is_exact() {
    assert_eq!(used_memory_percent(50, 200), 25);
    assert_eq!(used_memory_percent(1, 3), 33);
    assert_eq!(used_memory_percent(0, 8), 0);
    assert_eq!(used_memory_percent(8, 8), 100);
}

#[test]
fn fresh_ui_state_shows_the_first_tab() {
    let s = UIState::new();
    assert_eq!(s.current_tab, 0);
    assert_eq!(s.cpu_scroll, 0);

    let shared = UIState::new_shared();
    let locked = shared.lock().unwrap();
    assert_eq!(locked.current_tab, 0);
}

#[test]
fn graph_defaults_to_twenty_points() {
    assert_eq!(GraphOpts::default().visible_time_points, 20);
}

#[test]
fn error_carries_its_message() {
    let e = MFError("something broke".to_string());
    assert_eq!(e.message(), "something broke");
}
