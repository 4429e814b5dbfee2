use mainframe::runner::{Runner, RunnerAction, RunnerConfig, RunnerEvent};

#[test]
fn a_clean_run_releases_the_display_exactly_once() {
    let mut runner = Runner::new();

    assert_eq!(runner.step(RunnerEvent::DisplayAcquired), RunnerAction::LaunchLoops);
    assert_eq!(runner.step(RunnerEvent::QuitRequested), RunnerAction::SignalStop);
    assert_eq!(runner.step(RunnerEvent::LoopsStopped), RunnerAction::ReleaseDisplay);

    // Whatever arrives after the stop, the display is never released a
    // second time.
    assert_eq!(runner.step(RunnerEvent::QuitRequested), RunnerAction::Continue);
    assert_eq!(runner.step(RunnerEvent::LoopsStopped), RunnerAction::Continue);
    assert_eq!(runner.step(RunnerEvent::IoError), RunnerAction::Continue);
}

#[test]
fn an_io_error_shuts_down_like_a_quit() {
    let mut runner = Runner::new();
    runner.step(RunnerEvent::DisplayAcquired);
    assert_eq!(runner.step(RunnerEvent::IoError), RunnerAction::SignalStop);
    assert_eq!(runner.step(RunnerEvent::LoopsStopped), RunnerAction::ReleaseDisplay);
}

#[test]
fn a_closed_channel_is_an_implicit_stop() {
    let mut runner = Runner::new();
    runner.step(RunnerEvent::DisplayAcquired);
    assert_eq!(runner.step(RunnerEvent::ChannelClosed), RunnerAction::SignalStop);
    assert_eq!(runner.step(RunnerEvent::LoopsStopped), RunnerAction::ReleaseDisplay);
}

#[test]
fn stray_events_change_nothing() {
    let mut runner = Runner::new();
    assert_eq!(runner.step(RunnerEvent::LoopsStopped), RunnerAction::Continue);
    assert_eq!(runner.step(RunnerEvent::QuitRequested), RunnerAction::Continue);
    assert_eq!(runner.step(RunnerEvent::DisplayAcquired), RunnerAction::LaunchLoops);
    assert_eq!(runner.step(RunnerEvent::DisplayAcquired), RunnerAction::Continue);
    assert_eq!(runner.step(RunnerEvent::LoopsStopped), RunnerAction::Continue);
    assert_eq!(runner.step(RunnerEvent::QuitRequested), RunnerAction::SignalStop);
}

#[test]
fn config_defaults_and_periods() {
    let c = RunnerConfig::new();
    assert_eq!(c.refresh_rate_millihertz, 20000);
    assert_eq!(c.poll_rate_millihertz, 1000);
    assert_eq!(c.refresh_period_millis(), 50);
    assert_eq!(c.poll_period_millis(), 1000);

    let c = RunnerConfig::new().with_poll_rate(3000).with_refresh_rate(10000);
    assert_eq!(c.poll_period_millis(), 333);
    assert_eq!(c.refresh_period_millis(), 100);
}
