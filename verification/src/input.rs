//! A controller with a fixed layout of eight keys and a key code wired to
//! each.

use crate::hid::{conclude, key_slots, KeyCodes, Report, Scan};
use crate::key::{Config, Event, Level, State};
use crate::proto::KeyCode;
use crate::registry::{answers_to, first_occurrences, raised, states_after, KeyId, Registry};
use vstd::prelude::*;

verus! {

/// Time to wait between two scans of the keys, in microseconds.
pub const POLL_INTERVAL_MICROS: u64 = 100;

/// The type of a single key in the layout.
#[derive(Debug, Clone, Copy, PartialEq, Eq, Hash, Structural)]
pub enum Key {
    /// Up button key from the directional pad.
    Up,
    /// Down button key from the directional pad.
    Down,
    /// Left button key from the directional pad.
    Left,
    /// Right button key from the directional pad.
    Right,
    /// The enter key.
    Enter,
    /// The first function key.
    Fn1,
    /// The second function key.
    Fn2,
    /// The third function key.
    Fn3,
}

impl Key {
    /// The key code that a press of the key sends.
    pub open spec fn spec_key_code(self) -> KeyCode {
        match self {
            Key::Up => KeyCode::Up,
            Key::Down => KeyCode::Down,
            Key::Left => KeyCode::Left,
            Key::Right => KeyCode::Right,
            Key::Enter => KeyCode::Enter,
            Key::Fn1 => KeyCode::F7,
            Key::Fn2 => KeyCode::F6,
            Key::Fn3 => KeyCode::F5,
        }
    }

    /// The key code that a press of the key sends.
    #[verifier::when_used_as_spec(spec_key_code)]
    pub fn key_code(self) -> (code: KeyCode)
        ensures
            code == self.spec_key_code(),
    {
        match self {
            Key::Up => KeyCode::Up,
            Key::Down => KeyCode::Down,
            Key::Left => KeyCode::Left,
            Key::Right => KeyCode::Right,
            Key::Enter => KeyCode::Enter,
            Key::Fn1 => KeyCode::F7,
            Key::Fn2 => KeyCode::F6,
            Key::Fn3 => KeyCode::F5,
        }
    }
}

impl KeyId for Key {
    fn same(&self, other: &Self) -> (same: bool) {
        *self == *other
    }
}

/// The key codes that are wired to the keys of the layout.
#[derive(Debug, Clone, Copy, PartialEq, Eq, Structural)]
pub struct Wiring;

impl KeyCodes<Key> for Wiring {
    open spec fn spec_code(&self, button: Key) -> u8 {
        button.spec_key_code().spec_usage()
    }

    fn code(&self, button: Key) -> (code: u8) {
        button.key_code().usage()
    }
}

/// The key codes of the presses among `events`, in their order.
pub open spec fn pressed_codes(events: Seq<(Key, Event)>) -> Seq<u8> {
    crate::hid::pressed_codes(&Wiring, events)
}

/// Assembles the report of one scan: the key codes of the keys that were
/// pressed fill the key slots from the first one on, in the order of the
/// scan. A release takes no slot, and presses beyond the last slot are
/// dropped.
pub fn assemble(events: &Vec<(Key, Event)>) -> (report: Report)
    ensures
        report.only_keys(),
        report.keycodes@ == key_slots(pressed_codes(events@)),
{
    crate::hid::assemble(events, &Wiring)
}

/// Scans the keys of the layout and reports what they raise.
pub struct Reporter {
    keys: Registry<Key>,
}

impl Reporter {
    /// The keys of the layout, in the order of the scan.
    pub closed spec fn keys(&self) -> Seq<Key> {
        self.keys.ids()
    }

    /// The states of the keys: entry `i` is that of key `i`.
    pub closed spec fn states(&self) -> Seq<State> {
        self.keys.states()
    }

    /// The thresholds that every key of the layout works with.
    pub closed spec fn spec_thresholds(&self) -> Config {
        self.keys.thresholds()
    }

    /// The events that a scan raises when key `i` reads `levels[i]` at
    /// `now`, each with its key, in the order of the keys.
    pub open spec fn events(&self, levels: Seq<Level>, now: u64) -> Seq<(Key, Event)> {
        raised(self.keys(), answers_to(self.states(), self.thresholds(), levels, now))
    }

    /// Builds the reporter of `keys`, each at rest and working with the
    /// default thresholds. A key that is named again further on is not
    /// added again.
    pub fn new(keys: Vec<Key>) -> (reporter: Reporter)
        ensures
            reporter.keys() == first_occurrences(keys@),
            reporter.states().len() == reporter.keys().len(),
            forall|i: int|
                0 <= i < reporter.states().len() ==> reporter.states()[i] == State::Released,
            reporter.thresholds() == Config::spec_default(),
    {
        Reporter { keys: Registry::new(keys, Config::default()) }
    }

    /// The thresholds that every key of the layout works with.
    #[verifier::when_used_as_spec(spec_thresholds)]
    pub fn thresholds(&self) -> (thresholds: Config)
        ensures
            thresholds == self.spec_thresholds(),
    {
        self.keys.thresholds()
    }

    /// The keys in the order of the scan: the pin of `key_order()[i]` is the
    /// one to read into `levels[i]`.
    pub fn key_order(&self) -> (keys: &Vec<Key>)
        ensures
            keys@ == self.keys(),
            keys@.no_duplicates(),
            keys@.len() == self.states().len(),
    {
        let len = self.keys.len();
        self.keys.buttons()
    }

    /// Scans the keys: key `i` reads `levels[i]` at `now`. Returns the
    /// events that were raised, each with its key, in the order of the keys.
    ///
    /// A key whose reading is missing is left as it is; readings beyond the
    /// last key are ignored.
    pub fn report_pressed_keys(&mut self, levels: &Vec<Level>, now: u64) -> (events: Vec<
        (Key, Event),
    >)
        ensures
            final(self).keys() == old(self).keys(),
            final(self).thresholds() == old(self).thresholds(),
            final(self).states() == states_after(
                old(self).states(),
                old(self).thresholds(),
                levels@,
                now,
            ),
            events@ == old(self).events(levels@, now),
    {
        self.keys.report_pressed_keys(levels, now)
    }

    /// One turn of the polling loop: scans the keys, key `i` reading
    /// `levels[i]` at `now`, and assembles the report to send. A scan that
    /// raises no event sends nothing; any other sends exactly one report.
    pub fn poll(&mut self, levels: &Vec<Level>, now: u64) -> (scan: Scan<Key>)
        ensures
            final(self).keys() == old(self).keys(),
            final(self).thresholds() == old(self).thresholds(),
            final(self).states() == states_after(
                old(self).states(),
                old(self).thresholds(),
                levels@,
                now,
            ),
            scan.events@ == old(self).events(levels@, now),
            scan.report is None <==> scan.events@.len() == 0,
            scan.report matches Some(report) ==> report.only_keys() && report.keycodes@
                == key_slots(pressed_codes(scan.events@)),
    {
        let events = self.report_pressed_keys(levels, now);
        conclude(events, &Wiring)
    }
}

} // verus!
