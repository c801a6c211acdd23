//! Debounce engine for one physical key.
//!
//! A [`Key`] is fed the level of its signal pin together with the current
//! time and answers with at most one [`Event`] per sample. Times are
//! microseconds on a monotonic clock.

use vstd::prelude::*;

verus! {

/// Default debounce timeout, in microseconds, before a fresh press raises
/// [`Event::Down`].
pub const DEFAULT_DEBOUNCE_TIMEOUT: u64 = 900;

/// Default release timeout, in microseconds, before a lifted key raises
/// [`Event::Up`].
pub const DEFAULT_RELEASE_TIMEOUT: u64 = 1_000;

/// Default hold timeout, in microseconds, after which a pressed key counts
/// as long-pressed.
pub const DEFAULT_HOLD_TIMEOUT: u64 = 500_000;

/// Default repeat timeout, in microseconds, between two [`Event::Down`] of a
/// key that stays long-pressed.
pub const DEFAULT_HOLD_REPEAT_TIMEOUT: u64 = 100_000;

/// Level of a key's signal pin. Keys pull their pin up, so a closed contact
/// reads [`Level::Low`].
#[derive(Debug, Clone, Copy, PartialEq, Eq, Structural)]
pub enum Level {
    /// The contact is open.
    High,
    /// The contact is closed.
    Low,
}

/// Thresholds of the [`Key`] state machine, all in microseconds.
#[derive(Debug, Clone, Copy, PartialEq, Eq, Structural)]
pub struct Config {
    /// How long the pin has to stay low before a press is reported.
    pub debounce: u64,
    /// How long the pin has to stay high before a release is reported.
    pub release: u64,
    /// How long a reported press has to last to become a long press.
    pub hold: u64,
    /// Interval between the repeated presses of a long press.
    pub hold_repeat: u64,
}

impl Config {
    /// The default thresholds.
    pub open spec fn spec_default() -> Config {
        Config {
            debounce: DEFAULT_DEBOUNCE_TIMEOUT,
            release: DEFAULT_RELEASE_TIMEOUT,
            hold: DEFAULT_HOLD_TIMEOUT,
            hold_repeat: DEFAULT_HOLD_REPEAT_TIMEOUT,
        }
    }
}

impl Default for Config {
    fn default() -> (config: Config)
        ensures
            config == Config::spec_default(),
    {
        Config {
            debounce: DEFAULT_DEBOUNCE_TIMEOUT,
            release: DEFAULT_RELEASE_TIMEOUT,
            hold: DEFAULT_HOLD_TIMEOUT,
            hold_repeat: DEFAULT_HOLD_REPEAT_TIMEOUT,
        }
    }
}

/// What a [`Key`] can report after a sample.
#[derive(Debug, Clone, Copy, PartialEq, Eq, Structural)]
pub enum Event {
    /// The key has been released.
    Up,
    /// The key has been pressed, or is still being pressed.
    Down,
}

/// States of the [`Key`] state machine. Every state but `Released` carries
/// the time at which it was entered.
#[derive(Debug, Clone, Copy, PartialEq, Eq, Structural)]
pub enum State {
    /// The key is at rest.
    Released,
    /// The pin went low; the press is not confirmed yet.
    Down(u64),
    /// The press is confirmed.
    Pressed(u64),
    /// The press lasted long enough to repeat.
    Held(u64),
    /// The pin went high; the release is not confirmed yet.
    Up(u64),
}

/// Time that has passed at `now` since `since`; zero if the clock reads
/// earlier than `since`.
pub open spec fn elapsed(now: u64, since: u64) -> nat {
    if now >= since {
        (now - since) as nat
    } else {
        0
    }
}

impl State {
    /// The transition table: the state that follows `self` when the pin reads
    /// `level` at time `now`, and the event raised on the way.
    pub open spec fn step(self, config: Config, level: Level, now: u64) -> (State, Option<Event>) {
        match (self, level) {
            (State::Released, Level::Low) => (State::Down(now), None),
            (State::Released, Level::High) => (State::Released, None),
            (State::Down(since), Level::Low) => if elapsed(now, since) >= config.debounce {
                (State::Pressed(now), Some(Event::Down))
            } else {
                (self, None)
            },
            (State::Pressed(since), Level::Low) => if elapsed(now, since) >= config.hold {
                (State::Held(now), Some(Event::Down))
            } else {
                (self, None)
            },
            (State::Held(since), Level::Low) => if elapsed(now, since) >= config.hold_repeat {
                (State::Held(now), Some(Event::Down))
            } else {
                (self, None)
            },
            (State::Down(_), Level::High) => (State::Up(now), None),
            (State::Pressed(_), Level::High) => (State::Up(now), None),
            (State::Held(_), Level::High) => (State::Up(now), None),
            (State::Up(since), Level::High) => if elapsed(now, since) >= config.release {
                (State::Released, Some(Event::Up))
            } else {
                (self, None)
            },
            (State::Up(since), Level::Low) => if elapsed(now, since) < config.release {
                (State::Down(now), None)
            } else {
                (self, None)
            },
        }
    }
}

/// One reading of a key's pin: the level seen and the time it was taken at.
#[derive(Debug, Clone, Copy, PartialEq, Eq, Structural)]
pub struct Sample {
    /// Level of the pin.
    pub level: Level,
    /// Time of the reading.
    pub now: u64,
}

impl State {
    /// The state reached from `self` once `samples` have been fed in order.
    pub open spec fn after(self, config: Config, samples: Seq<Sample>) -> State
        decreases samples.len(),
    {
        if samples.len() == 0 {
            self
        } else {
            self.after(config, samples.drop_last()).step(
                config,
                samples.last().level,
                samples.last().now,
            ).0
        }
    }

    /// What feeding `samples` in order raises, sample by sample: entry `i`
    /// is the answer to `samples[i]`.
    pub open spec fn events(self, config: Config, samples: Seq<Sample>) -> Seq<Option<Event>>
        decreases samples.len(),
    {
        if samples.len() == 0 {
            Seq::empty()
        } else {
            self.events(config, samples.drop_last()).push(
                self.after(config, samples.drop_last()).step(
                    config,
                    samples.last().level,
                    samples.last().now,
                ).1,
            )
        }
    }
}

/// A debounced key: the state machine of one physical button.
#[derive(Debug, Clone, Copy, PartialEq, Eq)]
pub struct Key {
    state: State,
    config: Config,
}

impl Key {
    /// The state the key is in.
    pub closed spec fn spec_state(&self) -> State {
        self.state
    }

    /// The thresholds the key was built with.
    pub closed spec fn spec_config(&self) -> Config {
        self.config
    }

    /// Builds a key at rest with the given thresholds.
    pub fn new(config: Config) -> (key: Key)
        ensures
            key.state() == State::Released,
            key.config() == config,
    {
        Key { state: State::Released, config }
    }

    /// The state the key is in.
    #[verifier::when_used_as_spec(spec_state)]
    pub fn state(&self) -> (state: State)
        ensures
            state == self.spec_state(),
    {
        self.state
    }

    /// The thresholds the key was built with.
    #[verifier::when_used_as_spec(spec_config)]
    pub fn config(&self) -> (config: Config)
        ensures
            config == self.spec_config(),
    {
        self.config
    }

    /// Feeds the key one sample: the pin reads `level` at time `now`.
    ///
    /// Returns the event that the transition raises, if any. Call it from the
    /// polling loop with a clock that never runs backwards; a clock that does
    /// is read as if no time had passed.
    pub fn update(&mut self, level: Level, now: u64) -> (event: Option<Event>)
        ensures
            final(self).config() == old(self).config(),
            (final(self).state(), event) == old(self).state().step(old(self).config(), level, now),
    {
        match self.state {
            State::Released => {
                if is_low(level) {
                    self.state = State::Down(now);
                }
                None
            },
            State::Down(last) => {
                if is_low(level) {
                    if self.debounced(now, last) {
                        self.state = State::Pressed(now);
                        return Some(Event::Down);
                    }
                } else {
                    self.state = State::Up(now);
                }
                None
            },
            State::Pressed(last) => {
                if is_low(level) {
                    if self.held(now, last) {
                        self.state = State::Held(now);
                        return Some(Event::Down);
                    }
                } else {
                    self.state = State::Up(now);
                }
                None
            },
            State::Held(last) => {
                if is_low(level) {
                    if self.still_held(now, last) {
                        self.state = State::Held(now);
                        return Some(Event::Down);
                    }
                } else {
                    self.state = State::Up(now);
                }
                None
            },
            State::Up(last) => {
                let released = self.released(now, last);
                if is_low(level) {
                    if !released {
                        self.state = State::Down(now);
                    }
                } else if released {
                    self.state = State::Released;
                    return Some(Event::Up);
                }
                None
            },
        }
    }

    /// Feeds the key a recorded trace, oldest sample first, and returns the
    /// answer to every sample.
    pub fn replay(&mut self, samples: &Vec<Sample>) -> (events: Vec<Option<Event>>)
        ensures
            final(self).config() == old(self).config(),
            final(self).state() == old(self).state().after(old(self).config(), samples@),
            events@ == old(self).state().events(old(self).config(), samples@),
    {
        let mut events: Vec<Option<Event>> = Vec::new();
        let mut i: usize = 0;
        while i < samples.len()
            invariant
                i <= samples.len(),
                self.config() == old(self).config(),
                self.state() == old(self).state().after(old(self).config(), samples@.take(i as int)),
                events@ == old(self).state().events(old(self).config(), samples@.take(i as int)),
            decreases samples.len() - i,
        {
            proof {
                assert(samples@.take(i + 1).drop_last() == samples@.take(i as int));
            }
            let event = self.update(samples[i].level, samples[i].now);
            events.push(event);
            i += 1;
        }
        proof {
            assert(samples@.take(i as int) == samples@);
        }
        events
    }

    fn debounced(&self, now: u64, last: u64) -> (yes: bool)
        ensures
            yes == (elapsed(now, last) >= self.config.debounce),
    {
        now.saturating_sub(last) >= self.config.debounce
    }

    fn released(&self, now: u64, last: u64) -> (yes: bool)
        ensures
            yes == (elapsed(now, last) >= self.config.release),
    {
        now.saturating_sub(last) >= self.config.release
    }

    fn held(&self, now: u64, last: u64) -> (yes: bool)
        ensures
            yes == (elapsed(now, last) >= self.config.hold),
    {
        now.saturating_sub(last) >= self.config.hold
    }

    fn still_held(&self, now: u64, last: u64) -> (yes: bool)
        ensures
            yes == (elapsed(now, last) >= self.config.hold_repeat),
    {
        now.saturating_sub(last) >= self.config.hold_repeat
    }
}

fn is_low(level: Level) -> (yes: bool)
    ensures
        yes == (level == Level::Low),
{
    match level {
        Level::Low => true,
        Level::High => false,
    }
}

} // verus!
