//! The controller: its buttons, their keys, and the report that one scan of
//! them sends.

use crate::hid::{conclude, key_slots, KeyCodes, Report, Scan};
use crate::key::{Config, Event, Level, State};
use crate::proto::{Button, Entry, KeyCode, Keymap, Konfiguration};
use crate::registry::{answers_to, first_occurrences, raised, states_after, KeyId, Registry};
use vstd::prelude::*;

verus! {

impl KeyId for Button {
    fn same(&self, other: &Self) -> (same: bool) {
        *self == *other
    }
}

/// Builds a keymap with one entry for each pair, in the order of the pairs.
pub fn make_keymap(it: Vec<(Button, KeyCode)>) -> (keymap: Keymap)
    ensures
        keymap.entries@ == it@.map_values(|pair: (Button, KeyCode)| Entry::spec_new(pair.0, pair.1)),
{
    let mut entries: Vec<Entry> = Vec::new();
    let mut i: usize = 0;
    while i < it.len()
        invariant
            i <= it.len(),
            entries@ == it@.take(i as int).map_values(
                |pair: (Button, KeyCode)| Entry::spec_new(pair.0, pair.1),
            ),
        decreases it.len() - i,
    {
        let (button, key_code) = it[i];
        entries.push(Entry::new(button, key_code));
        proof {
            assert(entries@ =~= it@.take(i + 1).map_values(
                |pair: (Button, KeyCode)| Entry::spec_new(pair.0, pair.1),
            ));
        }
        i += 1;
    }
    proof {
        assert(it@.take(i as int) == it@);
    }
    Keymap { entries }
}

/// The key code that the first of `pairs` for `button` gives it.
pub open spec fn first_pair(pairs: Seq<(Button, KeyCode)>, button: Button) -> Option<KeyCode>
    decreases pairs.len(),
{
    if pairs.len() == 0 {
        None
    } else if pairs.first().0 == button {
        Some(pairs.first().1)
    } else {
        first_pair(pairs.drop_first(), button)
    }
}

/// A keymap made of pairs gives each button the key code of its first pair:
/// reading the entries back loses nothing.
pub proof fn lemma_made_keymap_finds_first_pair(pairs: Seq<(Button, KeyCode)>, button: Button)
    ensures
        Keymap::first_match(
            pairs.map_values(|pair: (Button, KeyCode)| Entry::spec_new(pair.0, pair.1)),
            button,
        ) == first_pair(pairs, button),
    decreases pairs.len(),
{
    let entries = pairs.map_values(|pair: (Button, KeyCode)| Entry::spec_new(pair.0, pair.1));
    if pairs.len() > 0 {
        pairs.first().0.lemma_number_round_trip();
        pairs.first().1.lemma_number_round_trip();
        lemma_made_keymap_finds_first_pair(pairs.drop_first(), button);
        assert(entries.drop_first() =~= pairs.drop_first().map_values(
            |pair: (Button, KeyCode)| Entry::spec_new(pair.0, pair.1),
        ));
    }
}

impl KeyCodes<Button> for Konfiguration {
    open spec fn spec_code(&self, button: Button) -> u8 {
        self.spec_key_code(button).spec_usage()
    }

    fn code(&self, button: Button) -> (code: u8) {
        self.key_code(button).usage()
    }
}

/// The key codes of the presses among `events`, in their order: what
/// `config` gives the button of each.
pub open spec fn pressed_codes(config: Konfiguration, events: Seq<(Button, Event)>) -> Seq<u8> {
    crate::hid::pressed_codes(&config, events)
}

/// Assembles the report of one scan: the key codes of the buttons that were
/// pressed fill the key slots from the first one on, in the order of the
/// scan. A release takes no slot, and presses beyond the last slot are
/// dropped.
pub fn assemble(events: &Vec<(Button, Event)>, config: &Konfiguration) -> (report: Report)
    ensures
        report.only_keys(),
        report.keycodes@ == key_slots(pressed_codes(*config, events@)),
{
    crate::hid::assemble(events, config)
}

/// The controller: one debounced key per button, and the configuration
/// that says how often to scan them and which key code each one sends.
pub struct Kontroller {
    keys: Registry<Button>,
    config: Konfiguration,
}

impl Kontroller {
    /// The buttons of the controller, in the order of the scan.
    pub closed spec fn buttons(&self) -> Seq<Button> {
        self.keys.ids()
    }

    /// The states of the keys: entry `i` is that of the key of button `i`.
    pub closed spec fn states(&self) -> Seq<State> {
        self.keys.states()
    }

    /// The configuration of the controller.
    pub closed spec fn spec_config(&self) -> &Konfiguration {
        &self.config
    }

    /// The thresholds that every key of the controller works with.
    pub closed spec fn spec_thresholds(&self) -> Config {
        self.keys.thresholds()
    }

    /// What the keys answer when button `i` reads `levels[i]` at `now`.
    pub open spec fn answers(&self, levels: Seq<Level>, now: u64) -> Seq<Option<Event>> {
        answers_to(self.states(), self.thresholds(), levels, now)
    }

    /// The events that a scan raises when button `i` reads `levels[i]` at
    /// `now`, each with its button, in the order of the buttons.
    pub open spec fn events(&self, levels: Seq<Level>, now: u64) -> Seq<(Button, Event)> {
        raised(self.buttons(), self.answers(levels, now))
    }

    /// Builds the controller of `buttons`, each with a key at rest that
    /// works with the default thresholds. A button that is named again
    /// further on is not added again.
    pub fn new(buttons: Vec<Button>, config: Konfiguration) -> (kontroller: Kontroller)
        ensures
            kontroller.buttons() == first_occurrences(buttons@),
            kontroller.states().len() == kontroller.buttons().len(),
            forall|i: int|
                0 <= i < kontroller.states().len() ==> kontroller.states()[i] == State::Released,
            kontroller.thresholds() == Config::spec_default(),
            *kontroller.config() == config,
    {
        Kontroller { keys: Registry::new(buttons, Config::default()), config }
    }

    /// The configuration of the controller.
    #[verifier::when_used_as_spec(spec_config)]
    pub fn config(&self) -> (config: &Konfiguration)
        ensures
            config == self.spec_config(),
    {
        &self.config
    }

    /// The thresholds that every key of the controller works with.
    #[verifier::when_used_as_spec(spec_thresholds)]
    pub fn thresholds(&self) -> (thresholds: Config)
        ensures
            thresholds == self.spec_thresholds(),
    {
        self.keys.thresholds()
    }

    /// The number of buttons, which is the number of levels that a scan
    /// takes.
    pub fn len(&self) -> (len: usize)
        ensures
            len == self.buttons().len(),
            len == self.states().len(),
    {
        self.keys.len()
    }

    /// The buttons in the order of the scan: the pin of `button_order()[i]`
    /// is the one to read into `levels[i]`.
    pub fn button_order(&self) -> (buttons: &Vec<Button>)
        ensures
            buttons@ == self.buttons(),
            buttons@.no_duplicates(),
    {
        self.keys.buttons()
    }

    /// The time to wait between two scans, in microseconds.
    pub fn poll_interval_micros(&self) -> (micros: u64)
        ensures
            micros == self.config().buttons_poll_interval_micros,
    {
        self.config.buttons_poll_interval_micros
    }

    /// Scans the keys: button `i` reads `levels[i]` at `now`. Returns the
    /// events that were raised, each with its button, in the order of the
    /// buttons.
    ///
    /// A key whose reading is missing is left as it is; readings beyond the
    /// last button are ignored.
    pub fn report_pressed_keys(&mut self, levels: &Vec<Level>, now: u64) -> (events: Vec<
        (Button, Event),
    >)
        ensures
            final(self).buttons() == old(self).buttons(),
            final(self).config() == old(self).config(),
            final(self).thresholds() == old(self).thresholds(),
            final(self).states() == states_after(
                old(self).states(),
                old(self).thresholds(),
                levels@,
                now,
            ),
            events@ == old(self).events(levels@, now),
    {
        self.keys.report_pressed_keys(levels, now)
    }

    /// One turn of the polling loop: scans the keys, button `i` reading
    /// `levels[i]` at `now`, and assembles the report to send. A scan that
    /// raises no event sends nothing; any other sends exactly one report.
    pub fn poll(&mut self, levels: &Vec<Level>, now: u64) -> (scan: Scan<Button>)
        ensures
            final(self).buttons() == old(self).buttons(),
            final(self).config() == old(self).config(),
            final(self).thresholds() == old(self).thresholds(),
            final(self).states() == states_after(
                old(self).states(),
                old(self).thresholds(),
                levels@,
                now,
            ),
            scan.events@ == old(self).events(levels@, now),
            scan.report is None <==> scan.events@.len() == 0,
            scan.report matches Some(report) ==> report.only_keys() && report.keycodes@
                == key_slots(pressed_codes(*old(self).config(), scan.events@)),
    {
        let events = self.report_pressed_keys(levels, now);
        conclude(events, &self.config)
    }
}

} // verus!
