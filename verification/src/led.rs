//! The status indicator: which blink of the LED shows which state of the
//! link.
//!
//! The driver plans a blink as a list of [`Step`]s and leaves the pin and
//! the timer to its caller.

use crate::ble::ConnectionStatus;
use vstd::prelude::*;

verus! {

/// Default duration of each half of a short blink, in microseconds.
pub const DEFAULT_SHORT_BLINK_DURATION: u64 = 100_000;

/// Default duration of each half of a long blink, in microseconds.
pub const DEFAULT_LONG_BLINK_DURATION: u64 = 800_000;

/// Time between two looks of the indicator at the status of the link, in
/// microseconds.
pub const STATUS_TICK: u64 = 500_000;

/// Durations of the two blinks, in microseconds.
#[derive(Debug, Clone, Copy, PartialEq, Eq, Structural)]
pub struct DriverConfig {
    /// Duration of each half of a short blink.
    pub short_blink_duration: u64,
    /// Duration of each half of a long blink.
    pub long_blink_duration: u64,
}

impl DriverConfig {
    /// The default durations.
    pub open spec fn spec_default() -> DriverConfig {
        DriverConfig {
            short_blink_duration: DEFAULT_SHORT_BLINK_DURATION,
            long_blink_duration: DEFAULT_LONG_BLINK_DURATION,
        }
    }
}

impl Default for DriverConfig {
    fn default() -> (config: DriverConfig)
        ensures
            config == DriverConfig::spec_default(),
    {
        DriverConfig {
            short_blink_duration: DEFAULT_SHORT_BLINK_DURATION,
            long_blink_duration: DEFAULT_LONG_BLINK_DURATION,
        }
    }
}

/// One thing to do with the LED or the timer.
#[derive(Debug, Clone, Copy, PartialEq, Eq, Structural)]
pub enum Step {
    /// Light the LED.
    On,
    /// Put the LED out.
    Off,
    /// Wait for this many microseconds.
    Wait(u64),
}

/// The ways in which the indicator shows the link.
#[derive(Debug, Clone, Copy, PartialEq, Eq, Structural)]
pub enum Pattern {
    /// The LED stays dark.
    Idle,
    /// Short blinks: the device waits for a host.
    Short,
    /// Long blinks: a host is connected.
    Long,
}

/// One blink: the LED is lit for `duration`, then dark for `duration`.
pub open spec fn blink_steps(duration: u64) -> Seq<Step> {
    seq![Step::On, Step::Wait(duration), Step::Off, Step::Wait(duration)]
}

impl Pattern {
    /// The pattern that shows `status`.
    pub open spec fn spec_of(status: ConnectionStatus) -> Pattern {
        match status {
            ConnectionStatus::NotStarted => Pattern::Idle,
            ConnectionStatus::Unpaired => Pattern::Short,
            ConnectionStatus::Paired => Pattern::Long,
        }
    }

    /// The steps of one cycle of the pattern with the durations of
    /// `config`.
    pub open spec fn steps(self, config: DriverConfig) -> Seq<Step> {
        match self {
            Pattern::Idle => Seq::empty(),
            Pattern::Short => blink_steps(config.short_blink_duration),
            Pattern::Long => blink_steps(config.long_blink_duration),
        }
    }

    /// The pattern that shows `status`.
    #[verifier::when_used_as_spec(spec_of)]
    pub fn of(status: ConnectionStatus) -> (pattern: Pattern)
        ensures
            pattern == Pattern::spec_of(status),
    {
        match status {
            ConnectionStatus::NotStarted => Pattern::Idle,
            ConnectionStatus::Unpaired => Pattern::Short,
            ConnectionStatus::Paired => Pattern::Long,
        }
    }
}

/// Plans the blinks of the status LED.
#[derive(Debug, Clone, Copy, PartialEq, Eq)]
pub struct Blinker {
    config: DriverConfig,
}

impl Blinker {
    /// The durations that the blinker works with.
    pub closed spec fn spec_config(&self) -> DriverConfig {
        self.config
    }

    /// Builds a blinker that works with the durations of `config`.
    pub fn new(config: DriverConfig) -> (blinker: Blinker)
        ensures
            blinker.config() == config,
    {
        Blinker { config }
    }

    /// The durations that the blinker works with.
    #[verifier::when_used_as_spec(spec_config)]
    pub fn config(&self) -> (config: DriverConfig)
        ensures
            config == self.spec_config(),
    {
        self.config
    }

    /// One short blink.
    pub fn short_blink(&self) -> (steps: Vec<Step>)
        ensures
            steps@ == blink_steps(self.config().short_blink_duration),
    {
        self.blink(self.config.short_blink_duration)
    }

    /// One long blink.
    pub fn long_blink(&self) -> (steps: Vec<Step>)
        ensures
            steps@ == blink_steps(self.config().long_blink_duration),
    {
        self.blink(self.config.long_blink_duration)
    }

    /// One blink: the LED is lit for `d` microseconds, then dark for as
    /// long.
    pub fn blink(&self, d: u64) -> (steps: Vec<Step>)
        ensures
            steps@ == blink_steps(d),
    {
        let mut steps: Vec<Step> = Vec::new();
        steps.push(Step::On);
        steps.push(Step::Wait(d));
        steps.push(Step::Off);
        steps.push(Step::Wait(d));
        assert(steps@ =~= blink_steps(d));
        steps
    }

    /// What the indicator does on a tick at which the link is in `status`:
    /// nothing before the coordinator has started, one short blink while
    /// the device waits for a host, one long blink while a host is
    /// connected.
    pub fn indicate(&self, status: ConnectionStatus) -> (steps: Vec<Step>)
        ensures
            steps@ == Pattern::spec_of(status).steps(self.config()),
    {
        match Pattern::of(status) {
            Pattern::Idle => Vec::new(),
            Pattern::Short => self.short_blink(),
            Pattern::Long => self.long_blink(),
        }
    }
}

impl Default for Blinker {
    fn default() -> (blinker: Blinker)
        ensures
            blinker.config() == DriverConfig::spec_default(),
    {
        Blinker::new(DriverConfig::default())
    }
}

} // verus!
