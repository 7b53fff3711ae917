//! The distribution scheduler's decisions. The loop that owns the timer and
//! the configuration channel hands each event to `Scheduler::step` and
//! performs the action it returns.
use vstd::prelude::*;
use crate::events::ServerEvent;

verus! {

/// The default period between distribution cycles, in seconds.
pub const DEFAULT_INTERVAL_SECONDS: u64 = 30;

#[derive(Debug, Clone, Copy, PartialEq, Eq, Structural)]
pub struct AutoDistributionConfig {
    pub enabled: bool,
    pub interval_seconds: u64,
}

/// The period actually used for an interval setting: at least one second.
pub open spec fn effective_period(seconds: u64) -> u64 {
    if seconds < 1 { 1 } else { seconds }
}

impl Default for AutoDistributionConfig {
    fn default() -> (r: AutoDistributionConfig)
        ensures
            !r.enabled,
            r.interval_seconds == DEFAULT_INTERVAL_SECONDS,
    {
        AutoDistributionConfig { enabled: false, interval_seconds: DEFAULT_INTERVAL_SECONDS }
    }
}

/// The period of the timer for an interval setting.
pub fn timer_period(seconds: u64) -> (r: u64)
    ensures
        r == effective_period(seconds),
{
    if seconds < 1 { 1 } else { seconds }
}

/// The configuration that an administrative update installs (the interval is
/// at least one second), and the notification that announces it.
pub fn update_config(enabled: bool, interval_seconds: u64) -> (r: (AutoDistributionConfig, ServerEvent))
    ensures
        r.0.enabled == enabled,
        r.0.interval_seconds == effective_period(interval_seconds),
        r.1.event_type@ == "settings-updated"@,
        r.1.message is None,
{
    (AutoDistributionConfig { enabled, interval_seconds: timer_period(interval_seconds) }, ServerEvent::settings_updated())
}

#[derive(Debug, Clone, Copy, PartialEq, Eq, Structural)]
pub enum Phase {
    /// Disabled, or waiting for the next tick.
    Idle,
    /// One distribution cycle is in flight.
    Running,
    /// The configuration channel closed; the loop is over.
    Stopped,
}

#[derive(Debug, Clone, Copy, PartialEq, Eq, Structural)]
pub enum SchedulerEvent {
    /// The timer fired.
    Tick,
    /// The cycle in flight finished (whether or not it failed).
    CycleFinished,
    /// A new configuration was published.
    ConfigChanged(AutoDistributionConfig),
    /// The configuration channel closed for good.
    ChannelClosed,
}

#[derive(Debug, Clone, Copy, PartialEq, Eq, Structural)]
pub enum SchedulerAction {
    /// Nothing to do.
    Wait,
    /// Start one distribution cycle.
    RunCycle,
    /// Replace the timer by one with this period, in seconds; missed ticks are
    /// skipped rather than fired in a burst.
    ResetTimer(u64),
    /// Leave the loop.
    Stop,
}

#[derive(Debug, Clone, Copy, PartialEq, Eq, Structural)]
pub struct Scheduler {
    pub config: AutoDistributionConfig,
    pub phase: Phase,
}

/// The state after an event and the action to take, as a function.
pub open spec fn step_spec(s: Scheduler, e: SchedulerEvent) -> (Scheduler, SchedulerAction) {
    match s.phase {
        Phase::Stopped => (s, SchedulerAction::Wait),
        _ => match e {
            SchedulerEvent::Tick => if s.phase == Phase::Idle && s.config.enabled {
                (Scheduler { phase: Phase::Running, ..s }, SchedulerAction::RunCycle)
            } else {
                (s, SchedulerAction::Wait)
            },
            SchedulerEvent::CycleFinished => (Scheduler { phase: Phase::Idle, ..s }, SchedulerAction::Wait),
            SchedulerEvent::ConfigChanged(c) => {
                let period = effective_period(c.interval_seconds);
                (
                    Scheduler {
                        config: AutoDistributionConfig { enabled: c.enabled, interval_seconds: period },
                        ..s
                    },
                    SchedulerAction::ResetTimer(period),
                )
            },
            SchedulerEvent::ChannelClosed => (Scheduler { phase: Phase::Stopped, ..s }, SchedulerAction::Stop),
        },
    }
}

impl Scheduler {
    /// Idle, with the given configuration.
    pub fn new(config: AutoDistributionConfig) -> (r: Scheduler)
        ensures
            r.phase == Phase::Idle,
            r.config == config,
    {
        Scheduler { config, phase: Phase::Idle }
    }

    /// The period of the timer to start with.
    pub fn initial_period(&self) -> (r: u64)
        ensures
            r == effective_period(self.config.interval_seconds),
    {
        timer_period(self.config.interval_seconds)
    }

    /// Handles one event: a tick starts a cycle only when idle and enabled (a
    /// cycle never overlaps another); a configuration change replaces the
    /// configuration and the timer without interrupting a cycle in flight;
    /// closing the channel ends the loop.
    pub fn step(&mut self, event: SchedulerEvent) -> (action: SchedulerAction)
        ensures
            (*final(self), action) == step_spec(*old(self), event),
    {
        match self.phase {
            Phase::Stopped => SchedulerAction::Wait,
            _ => match event {
                SchedulerEvent::Tick => {
                    if self.phase == Phase::Idle && self.config.enabled {
                        self.phase = Phase::Running;
                        SchedulerAction::RunCycle
                    } else {
                        SchedulerAction::Wait
                    }
                },
                SchedulerEvent::CycleFinished => {
                    self.phase = Phase::Idle;
                    SchedulerAction::Wait
                },
                SchedulerEvent::ConfigChanged(c) => {
                    let period = timer_period(c.interval_seconds);
                    self.config = AutoDistributionConfig { enabled: c.enabled, interval_seconds: period };
                    SchedulerAction::ResetTimer(period)
                },
                SchedulerEvent::ChannelClosed => {
                    self.phase = Phase::Stopped;
                    SchedulerAction::Stop
                },
            },
        }
    }
}

/// A configuration change reaches the timer at once: whatever the phase
/// before it (short of stopped), the timer is reset to the new period and the
/// phase is kept, so a cycle in flight runs on.
pub proof fn lemma_config_change_resets_timer(s: Scheduler, c: AutoDistributionConfig)
    requires
        s.phase != Phase::Stopped,
    ensures
        step_spec(s, SchedulerEvent::ConfigChanged(c)).1 == SchedulerAction::ResetTimer(effective_period(c.interval_seconds)),
        step_spec(s, SchedulerEvent::ConfigChanged(c)).0.phase == s.phase,
        step_spec(s, SchedulerEvent::ConfigChanged(c)).0.config.enabled == c.enabled,
        effective_period(c.interval_seconds) >= 1,
{
}

/// No two cycles overlap: a tick while a cycle runs starts nothing.
pub proof fn lemma_cycles_never_overlap(s: Scheduler)
    requires
        s.phase == Phase::Running,
    ensures
        step_spec(s, SchedulerEvent::Tick) == (s, SchedulerAction::Wait),
{
}

} // verus!
