//! A controller layout by kind of key: a directional pad, an enter key and
//! a function key.

use crate::key::{Config, Event, Level, State};
use crate::registry::{answers_to, first_occurrences, states_after, KeyId, Registry};
use vstd::prelude::*;

verus! {

/// The type of a single key in the layout.
#[derive(Debug, Clone, Copy, PartialEq, Eq, Hash, Structural)]
pub enum KeyType {
    /// A directional pad key.
    DirectionalPad(DirectionalPadKey),
    /// The enter key.
    Enter,
    /// The function key.
    Function,
}

/// All possible types of directional pad keys.
#[derive(Debug, Clone, Copy, PartialEq, Eq, Hash, Structural)]
pub enum DirectionalPadKey {
    /// Arrow up.
    Up,
    /// Arrow down.
    Down,
    /// Arrow left.
    Left,
    /// Arrow right.
    Right,
}

impl From<DirectionalPadKey> for KeyType {
    fn from(value: DirectionalPadKey) -> (key: KeyType) {
        KeyType::DirectionalPad(value)
    }
}

impl vstd::std_specs::convert::FromSpecImpl<DirectionalPadKey> for KeyType {
    open spec fn obeys_from_spec() -> bool {
        true
    }

    open spec fn from_spec(value: DirectionalPadKey) -> KeyType {
        KeyType::DirectionalPad(value)
    }
}

impl KeyId for KeyType {
    fn same(&self, other: &Self) -> (same: bool) {
        *self == *other
    }
}

/// What every key of the layout answers, each with its type, in the order
/// of the keys.
pub open spec fn labelled(types: Seq<KeyType>, answers: Seq<Option<Event>>) -> Seq<
    (KeyType, Option<Event>),
> {
    Seq::new(answers.len(), |i: int| (types[i], answers[i]))
}

/// Represents the layout of the controller.
pub struct Layout {
    keys: Registry<KeyType>,
}

impl Layout {
    /// The key types of the layout, in the order of the scan.
    pub closed spec fn types(&self) -> Seq<KeyType> {
        self.keys.ids()
    }

    /// The states of the keys: entry `i` is that of the key of type `i`.
    pub closed spec fn states(&self) -> Seq<State> {
        self.keys.states()
    }

    /// The thresholds that every key of the layout works with.
    pub closed spec fn spec_thresholds(&self) -> Config {
        self.keys.thresholds()
    }

    /// Builds the layout of `keys`, each with a key at rest that works with
    /// the default thresholds. A type that is named again further on is not
    /// added again.
    pub fn build(keys: Vec<KeyType>) -> (layout: Layout)
        ensures
            layout.types() == first_occurrences(keys@),
            layout.states().len() == layout.types().len(),
            forall|i: int| 0 <= i < layout.states().len() ==> layout.states()[i] == State::Released,
            layout.thresholds() == Config::spec_default(),
    {
        Layout { keys: Registry::new(keys, Config::default()) }
    }

    /// The thresholds that every key of the layout works with.
    #[verifier::when_used_as_spec(spec_thresholds)]
    pub fn thresholds(&self) -> (thresholds: Config)
        ensures
            thresholds == self.spec_thresholds(),
    {
        self.keys.thresholds()
    }

    /// The key types in the order of the scan: the pin of `key_order()[i]`
    /// is the one to read into `levels[i]`.
    pub fn key_order(&self) -> (types: &Vec<KeyType>)
        ensures
            types@ == self.types(),
            types@.no_duplicates(),
            types@.len() == self.states().len(),
    {
        let len = self.keys.len();
        self.keys.buttons()
    }

    /// Scans the keys: key `i` reads `levels[i]` at `now`. Returns what
    /// every key answers, with its type, in the order of the keys.
    ///
    /// A key whose reading is missing is left as it is and answers nothing;
    /// readings beyond the last key are ignored.
    pub fn report(&mut self, levels: &Vec<Level>, now: u64) -> (answers: Vec<
        (KeyType, Option<Event>),
    >)
        ensures
            final(self).types() == old(self).types(),
            final(self).thresholds() == old(self).thresholds(),
            final(self).states() == states_after(
                old(self).states(),
                old(self).thresholds(),
                levels@,
                now,
            ),
            answers@ == labelled(
                old(self).types(),
                answers_to(old(self).states(), old(self).thresholds(), levels@, now),
            ),
    {
        let len = self.keys.len();
        let events = self.keys.scan(levels, now);
        let types = self.keys.buttons();
        let mut answers: Vec<(KeyType, Option<Event>)> = Vec::new();
        let mut i: usize = 0;
        while i < events.len()
            invariant
                i <= events@.len(),
                events@.len() == types@.len(),
                answers@.len() == i,
                forall|j: int| 0 <= j < i ==> answers@[j] == (types@[j], events@[j]),
            decreases events@.len() - i,
        {
            answers.push((types[i], events[i]));
            i += 1;
        }
        proof {
            assert(answers@ =~= labelled(types@, events@));
        }
        answers
    }
}

} // verus!
