//! The runner: the decisions of the dashboard's lifecycle.
//!
//! The runner owns no clock, terminal, or task of its own. The surrounding
//! shell performs the outside work -- acquiring the terminal, launching the
//! two timed loops, waiting for input -- and feeds each outcome back here
//! as an event; the runner answers with the next action. Its contract pins
//! the lifecycle `Idle -> Running -> ShuttingDown -> Stopped` and the rule
//! that the display resource is released exactly once, strictly after both
//! loops have been told to stop, on every exit path.

use vstd::prelude::*;

verus! {

/// The lifecycle phase of the dashboard runner.
#[derive(Debug, Clone, Copy, PartialEq, Eq, Structural)]
pub enum RunnerPhase {
    /// No resources acquired yet.
    Idle,
    /// The display is held and both timed loops run.
    Running,
    /// The loops have been signaled to stop; the display is still held.
    ShuttingDown,
    /// The loops are gone and the display has been released.
    Stopped,
}

/// An outcome of the shell's outside work, fed to the runner.
#[derive(Debug, Clone, Copy, PartialEq, Eq, Structural)]
pub enum RunnerEvent {
    /// The terminal resource was acquired.
    DisplayAcquired,
    /// The quit key was pressed.
    QuitRequested,
    /// A draw call or the input stream failed.
    IoError,
    /// The render task's control channel closed unexpectedly; an implicit
    /// stop, not a crash.
    ChannelClosed,
    /// Both timed loops have observed the stop signal and ended.
    LoopsStopped,
}

/// What the shell must do next.
#[derive(Debug, Clone, Copy, PartialEq, Eq, Structural)]
pub enum RunnerAction {
    /// Launch the sample loop, the render loop, and the input task.
    LaunchLoops,
    /// Signal both timed loops to stop.
    SignalStop,
    /// Release the terminal resource.
    ReleaseDisplay,
    /// Nothing; keep waiting for events.
    Continue,
}

/// One step of the runner's transition function: the next phase and the
/// action it orders.
pub open spec fn step_spec(phase: RunnerPhase, event: RunnerEvent) -> (RunnerPhase, RunnerAction) {
    match (phase, event) {
        (RunnerPhase::Idle, RunnerEvent::DisplayAcquired) => (
            RunnerPhase::Running,
            RunnerAction::LaunchLoops,
        ),
        (RunnerPhase::Running, RunnerEvent::QuitRequested) => (
            RunnerPhase::ShuttingDown,
            RunnerAction::SignalStop,
        ),
        (RunnerPhase::Running, RunnerEvent::IoError) => (
            RunnerPhase::ShuttingDown,
            RunnerAction::SignalStop,
        ),
        (RunnerPhase::Running, RunnerEvent::ChannelClosed) => (
            RunnerPhase::ShuttingDown,
            RunnerAction::SignalStop,
        ),
        (RunnerPhase::ShuttingDown, RunnerEvent::LoopsStopped) => (
            RunnerPhase::Stopped,
            RunnerAction::ReleaseDisplay,
        ),
        _ => (phase, RunnerAction::Continue),
    }
}

/// The phase after feeding `events`, in order, to a runner in `phase`.
pub open spec fn phase_after(phase: RunnerPhase, events: Seq<RunnerEvent>) -> RunnerPhase
    decreases events.len(),
{
    if events.len() == 0 {
        phase
    } else {
        step_spec(phase_after(phase, events.drop_last()), events.last()).0
    }
}

/// How many of the steps taken while feeding `events` to a runner in
/// `phase` ordered the display released.
pub open spec fn releases_in(phase: RunnerPhase, events: Seq<RunnerEvent>) -> int
    decreases events.len(),
{
    if events.len() == 0 {
        0
    } else {
        releases_in(phase, events.drop_last()) + (
        if step_spec(phase_after(phase, events.drop_last()), events.last()).1
            == RunnerAction::ReleaseDisplay {
            1int
        } else {
            0int
        })
    }
}

/// Whatever events a run feeds it, a runner that starts idle orders the
/// display released exactly once if it reaches `Stopped`, and not at all
/// before: release happens on every exit path, never twice, and only
/// through `ShuttingDown`, strictly after the loops were told to stop.
pub proof fn lemma_release_exactly_once(events: Seq<RunnerEvent>)
    ensures
        releases_in(RunnerPhase::Idle, events) == if phase_after(RunnerPhase::Idle, events)
            == RunnerPhase::Stopped {
            1int
        } else {
            0int
        },
    decreases events.len(),
{
    if events.len() > 0 {
        lemma_release_exactly_once(events.drop_last());
        lemma_stopped_is_final(events.drop_last(), events.last());
    }
}

/// `Stopped` is final: no further event leaves it or orders another
/// release.
pub proof fn lemma_stopped_is_final(events: Seq<RunnerEvent>, next: RunnerEvent)
    ensures
        phase_after(RunnerPhase::Idle, events) == RunnerPhase::Stopped ==> step_spec(
            RunnerPhase::Stopped,
            next,
        ).0 == RunnerPhase::Stopped && step_spec(RunnerPhase::Stopped, next).1
            != RunnerAction::ReleaseDisplay,
{
}

/// The runner itself: its current phase, with the transition function as
/// its one exec step.
pub struct Runner {
    phase: RunnerPhase,
}

impl Runner {
    /// The phase this runner is in.
    pub closed spec fn phase(&self) -> RunnerPhase {
        self.phase
    }

    /// A runner that has acquired nothing yet.
    pub fn new() -> (r: Self)
        ensures
            r.phase() == RunnerPhase::Idle,
    {
        Runner { phase: RunnerPhase::Idle }
    }

    /// Feeds one event to the runner and returns the action the shell must
    /// perform: exactly the transition of [`step_spec`].
    pub fn step(&mut self, event: RunnerEvent) -> (action: RunnerAction)
        ensures
            final(self).phase() == step_spec(old(self).phase(), event).0,
            action == step_spec(old(self).phase(), event).1,
    {
        let (next, action) = match (self.phase, event) {
            (RunnerPhase::Idle, RunnerEvent::DisplayAcquired) => (
                RunnerPhase::Running,
                RunnerAction::LaunchLoops,
            ),
            (RunnerPhase::Running, RunnerEvent::QuitRequested) => (
                RunnerPhase::ShuttingDown,
                RunnerAction::SignalStop,
            ),
            (RunnerPhase::Running, RunnerEvent::IoError) => (
                RunnerPhase::ShuttingDown,
                RunnerAction::SignalStop,
            ),
            (RunnerPhase::Running, RunnerEvent::ChannelClosed) => (
                RunnerPhase::ShuttingDown,
                RunnerAction::SignalStop,
            ),
            (RunnerPhase::ShuttingDown, RunnerEvent::LoopsStopped) => (
                RunnerPhase::Stopped,
                RunnerAction::ReleaseDisplay,
            ),
            _ => (self.phase, RunnerAction::Continue),
        };
        self.phase = next;
        action
    }
}

/// The two timer periods of the dashboard, configured in millihertz so
/// fractional rates stay exact.
pub struct RunnerConfig {
    /// How often the render loop wakes, in thousandths of a hertz.
    pub refresh_rate_millihertz: u32,
    /// How often the sample loop wakes, in thousandths of a hertz.
    pub poll_rate_millihertz: u32,
}

impl RunnerConfig {
    /// The default cadence: redraw at 20 Hz, poll at 1 Hz.
    pub fn new() -> (r: Self)
        ensures
            r.refresh_rate_millihertz == 20000,
            r.poll_rate_millihertz == 1000,
    {
        RunnerConfig { refresh_rate_millihertz: 20000, poll_rate_millihertz: 1000 }
    }

    /// Set the ui refresh interval for the configuration.
    ///
    /// Interval is taken in millihertz - thousandths of a redraw per
    /// second. A 60 fps refresh rate would supply 60000.
    pub fn with_refresh_rate(self, millihertz: u32) -> (r: Self)
        ensures
            r.refresh_rate_millihertz == millihertz,
            r.poll_rate_millihertz == self.poll_rate_millihertz,
    {
        let mut s = self;
        s.refresh_rate_millihertz = millihertz;
        s
    }

    /// Set the data poll interval for the configuration.
    ///
    /// Interval is taken in millihertz - thousandths of a poll per second.
    pub fn with_poll_rate(self, millihertz: u32) -> (r: Self)
        ensures
            r.poll_rate_millihertz == millihertz,
            r.refresh_rate_millihertz == self.refresh_rate_millihertz,
    {
        let mut s = self;
        s.poll_rate_millihertz = millihertz;
        s
    }

    /// The render loop's timer period in milliseconds: the reciprocal of
    /// the refresh rate, rounded down. The rate must be positive.
    pub fn refresh_period_millis(&self) -> (r: u64)
        requires
            self.refresh_rate_millihertz >= 1,
        ensures
            r == 1000000int / self.refresh_rate_millihertz as int,
    {
        1000000u64 / (self.refresh_rate_millihertz as u64)
    }

    /// The sample loop's timer period in milliseconds: the reciprocal of
    /// the poll rate, rounded down. The rate must be positive.
    pub fn poll_period_millis(&self) -> (r: u64)
        requires
            self.poll_rate_millihertz >= 1,
        ensures
            r == 1000000int / self.poll_rate_millihertz as int,
    {
        1000000u64 / (self.poll_rate_millihertz as u64)
    }
}

} // verus!
