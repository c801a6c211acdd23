//! The key registry: one debounce engine per button, scanned together.
//!
//! A registry keeps its buttons in the order in which they were configured
//! and answers a scan in that order.

use crate::key::{Config, Event, Key, Level, State};
use vstd::prelude::*;

verus! {

/// The identity of a button: a small value that can be told apart from the
/// others of its kind.
pub trait KeyId: Copy {
    /// Whether `self` and `other` are the same button.
    fn same(&self, other: &Self) -> (same: bool)
        ensures
            same == (*self == *other),
    ;
}

/// `ids` without its repetitions: every button at the place of its first
/// occurrence.
pub open spec fn first_occurrences<B>(ids: Seq<B>) -> Seq<B>
    decreases ids.len(),
{
    if ids.len() == 0 {
        Seq::empty()
    } else {
        let front = first_occurrences(ids.drop_last());
        if front.contains(ids.last()) {
            front
        } else {
            front.push(ids.last())
        }
    }
}

/// The reading of key `i`: `levels[i]`, or none where the readings stop
/// short of the key.
pub open spec fn reading(levels: Seq<Level>, i: int) -> Option<Level> {
    if 0 <= i < levels.len() {
        Some(levels[i])
    } else {
        None
    }
}

/// What a key does with its reading at `now`: it takes a step on a level,
/// and stays as it is, silent, without one.
pub open spec fn fed(state: State, config: Config, reading: Option<Level>, now: u64) -> (
    State,
    Option<Event>,
) {
    match reading {
        Some(level) => state.step(config, level, now),
        None => (state, None),
    }
}

/// The states that the keys are in once key `i` has been fed `levels[i]` at
/// `now`.
pub open spec fn states_after(
    states: Seq<State>,
    config: Config,
    levels: Seq<Level>,
    now: u64,
) -> Seq<State> {
    Seq::new(states.len(), |i: int| fed(states[i], config, reading(levels, i), now).0)
}

/// What the keys answer when key `i` is fed `levels[i]` at `now`.
pub open spec fn answers_to(
    states: Seq<State>,
    config: Config,
    levels: Seq<Level>,
    now: u64,
) -> Seq<Option<Event>> {
    Seq::new(states.len(), |i: int| fed(states[i], config, reading(levels, i), now).1)
}

/// The events among `answers`, each with the button that raised it, in the
/// order of the buttons.
pub open spec fn raised<B>(ids: Seq<B>, answers: Seq<Option<Event>>) -> Seq<(B, Event)>
    decreases answers.len(),
{
    if answers.len() == 0 {
        Seq::empty()
    } else {
        let front = raised(ids, answers.drop_last());
        match answers.last() {
            Some(event) => front.push((ids[answers.len() - 1], event)),
            None => front,
        }
    }
}

/// Dropping repetitions keeps the buttons and leaves each of them once.
pub proof fn lemma_first_occurrences<B>(ids: Seq<B>)
    ensures
        first_occurrences(ids).no_duplicates(),
        first_occurrences(ids).len() <= ids.len(),
        forall|id: B| first_occurrences(ids).contains(id) <==> ids.contains(id),
    decreases ids.len(),
{
    if ids.len() > 0 {
        let front = ids.drop_last();
        lemma_first_occurrences(front);
        let kept = first_occurrences(front);
        let all = first_occurrences(ids);
        assert forall|id: B| all.contains(id) <==> ids.contains(id) by {
            if ids.contains(id) {
                let i = choose|i: int| 0 <= i < ids.len() && ids[i] == id;
                if i < front.len() {
                    assert(front[i] == id);
                    assert(front.contains(id));
                    assert(kept.contains(id));
                    let j = choose|j: int| 0 <= j < kept.len() && kept[j] == id;
                    assert(all[j] == id);
                } else {
                    assert(id == ids.last());
                    if !kept.contains(id) {
                        assert(all[kept.len() as int] == id);
                    }
                }
            }
            if all.contains(id) {
                let j = choose|j: int| 0 <= j < all.len() && all[j] == id;
                if j < kept.len() {
                    assert(kept[j] == id);
                    assert(kept.contains(id));
                    assert(front.contains(id));
                    let i = choose|i: int| 0 <= i < front.len() && front[i] == id;
                    assert(ids[i] == id);
                } else {
                    assert(ids[ids.len() - 1] == id);
                }
            }
        }
    }
}

/// A list without repetitions is left as it is.
pub proof fn lemma_first_occurrences_of_distinct<B>(ids: Seq<B>)
    requires
        ids.no_duplicates(),
    ensures
        first_occurrences(ids) == ids,
    decreases ids.len(),
{
    if ids.len() > 0 {
        let front = ids.drop_last();
        lemma_first_occurrences_of_distinct(front);
        if front.contains(ids.last()) {
            let i = choose|i: int| 0 <= i < front.len() && front[i] == ids.last();
            assert(ids[i] == ids[ids.len() - 1]);
        }
        assert(front.push(ids.last()) == ids);
    }
}

/// `ids[at]` is the last of `ids` that names `id`.
pub open spec fn is_last_occurrence<B>(ids: Seq<B>, at: int, id: B) -> bool {
    &&& 0 <= at < ids.len()
    &&& ids[at] == id
    &&& forall|j: int| at < j < ids.len() ==> ids[j] != id
}

/// Where each button of a registry made of `ids` is named for the last
/// time: entry `i` is the place in `ids` of the last occurrence of button
/// `i`. What comes with a button that is named more than once, such as its
/// pin, is taken from there.
pub fn last_occurrences<B: KeyId>(ids: &Vec<B>) -> (at: Vec<usize>)
    ensures
        at@.len() == first_occurrences(ids@).len(),
        forall|i: int|
            0 <= i < at@.len() ==> is_last_occurrence(
                ids@,
                #[trigger] at@[i] as int,
                first_occurrences(ids@)[i],
            ),
{
    let mut kept: Vec<B> = Vec::new();
    let mut at: Vec<usize> = Vec::new();
    let mut i: usize = 0;
    while i < ids.len()
        invariant
            i <= ids.len(),
            kept@ == first_occurrences(ids@.take(i as int)),
            at@.len() == kept@.len(),
            forall|p: int|
                0 <= p < at@.len() ==> is_last_occurrence(
                    ids@.take(i as int),
                    #[trigger] at@[p] as int,
                    kept@[p],
                ),
        decreases ids.len() - i,
    {
        let id = ids[i];
        let ghost before = at@;
        proof {
            assert(ids@.take(i + 1).drop_last() == ids@.take(i as int));
            lemma_first_occurrences(ids@.take(i as int));
        }
        match position(&kept, &id) {
            Some(found) => {
                at.set(found, i);
            },
            None => {
                kept.push(id);
                at.push(i);
            },
        }
        proof {
            let upto = ids@.take(i + 1);
            assert(upto[i as int] == id);
            assert forall|p: int| 0 <= p < at@.len() implies is_last_occurrence(
                upto,
                #[trigger] at@[p] as int,
                kept@[p],
            ) by {
                if at@[p] != i {
                    assert(at@[p] == before[p]);
                    assert(is_last_occurrence(ids@.take(i as int), before[p] as int, kept@[p]));
                    assert(upto[before[p] as int] == ids@.take(i as int)[before[p] as int]);
                    assert forall|j: int| before[p] < j < upto.len() implies upto[j]
                        != kept@[p] by {
                        if j < i {
                            assert(upto[j] == ids@.take(i as int)[j]);
                        }
                    }
                }
            }
        }
        i += 1;
    }
    proof {
        assert(ids@.take(i as int) == ids@);
    }
    at
}

/// One debounced key per button.
pub struct Registry<B> {
    ids: Vec<B>,
    keys: Vec<Key>,
    thresholds: Config,
}

impl<B> Registry<B> {
    #[verifier::type_invariant]
    spec fn well_formed(self) -> bool {
        &&& self.ids.len() == self.keys.len()
        &&& self.ids@.no_duplicates()
        &&& forall|i: int|
            0 <= i < self.keys.len() ==> (#[trigger] self.keys[i]).config() == self.thresholds
    }

    /// The buttons of the registry, in the order of the scan.
    pub closed spec fn ids(&self) -> Seq<B> {
        self.ids@
    }

    /// The states of the keys: entry `i` is that of the key of button `i`.
    pub closed spec fn states(&self) -> Seq<State> {
        Seq::new(self.keys@.len(), |i: int| self.keys@[i].state())
    }

    /// The thresholds that every key of the registry works with.
    pub closed spec fn spec_thresholds(&self) -> Config {
        self.thresholds
    }

    /// The number of buttons in the registry.
    pub fn len(&self) -> (len: usize)
        ensures
            len == self.ids().len(),
            len == self.states().len(),
    {
        proof {
            use_type_invariant(self);
        }
        self.ids.len()
    }

    /// The buttons of the registry, in the order of the scan, each once.
    pub fn buttons(&self) -> (ids: &Vec<B>)
        ensures
            ids@ == self.ids(),
            ids@.no_duplicates(),
    {
        proof {
            use_type_invariant(self);
        }
        &self.ids
    }

    /// The thresholds that every key of the registry works with.
    #[verifier::when_used_as_spec(spec_thresholds)]
    pub fn thresholds(&self) -> (thresholds: Config)
        ensures
            thresholds == self.spec_thresholds(),
    {
        self.thresholds
    }
}

impl<B: KeyId> Registry<B> {
    /// Builds a registry with one key at rest for each of `ids`, in their
    /// order. A button that is named again further on is not added again.
    pub fn new(ids: Vec<B>, thresholds: Config) -> (registry: Self)
        ensures
            registry.ids() == first_occurrences(ids@),
            registry.thresholds() == thresholds,
            registry.states().len() == registry.ids().len(),
            forall|i: int|
                0 <= i < registry.states().len() ==> registry.states()[i] == State::Released,
    {
        let mut kept: Vec<B> = Vec::new();
        let mut keys: Vec<Key> = Vec::new();
        let mut i: usize = 0;
        while i < ids.len()
            invariant
                i <= ids.len(),
                kept@ == first_occurrences(ids@.take(i as int)),
                keys@.len() == kept@.len(),
                forall|j: int|
                    0 <= j < keys@.len() ==> (#[trigger] keys@[j]).state() == State::Released
                        && keys@[j].config() == thresholds,
            decreases ids.len() - i,
        {
            let id = ids[i];
            proof {
                assert(ids@.take(i + 1).drop_last() == ids@.take(i as int));
            }
            if position(&kept, &id).is_none() {
                kept.push(id);
                keys.push(Key::new(thresholds));
            }
            i += 1;
        }
        proof {
            assert(ids@.take(i as int) == ids@);
            lemma_first_occurrences(ids@);
        }
        Registry { ids: kept, keys, thresholds }
    }

    /// Feeds every key its sample: `levels[i]` is what the pin of button `i`
    /// reads at `now`. Returns the answer of every key, in the order of the
    /// buttons.
    ///
    /// A key whose reading is missing is left as it is and answers nothing;
    /// readings beyond the last key are ignored.
    pub fn scan(&mut self, levels: &Vec<Level>, now: u64) -> (answers: Vec<Option<Event>>)
        ensures
            final(self).ids() == old(self).ids(),
            final(self).thresholds() == old(self).thresholds(),
            final(self).states() == states_after(
                old(self).states(),
                old(self).thresholds(),
                levels@,
                now,
            ),
            answers@ == answers_to(old(self).states(), old(self).thresholds(), levels@, now),
    {
        proof {
            use_type_invariant(&*self);
        }
        let mut answers: Vec<Option<Event>> = Vec::new();
        let mut stepped: Vec<Key> = Vec::new();
        let mut i: usize = 0;
        while i < self.keys.len()
            invariant
                i <= self.keys@.len(),
                *self == *old(self),
                forall|j: int|
                    0 <= j < self.keys@.len() ==> (#[trigger] self.keys@[j]).config()
                        == self.thresholds,
                answers@.len() == i,
                stepped@.len() == i,
                forall|j: int|
                    0 <= j < i ==> (#[trigger] stepped@[j]).config() == self.thresholds
                        && stepped@[j].state() == fed(
                        self.keys@[j].state(),
                        self.thresholds,
                        reading(levels@, j),
                        now,
                    ).0,
                forall|j: int|
                    0 <= j < i ==> #[trigger] answers@[j] == fed(
                        self.keys@[j].state(),
                        self.thresholds,
                        reading(levels@, j),
                        now,
                    ).1,
            decreases self.keys@.len() - i,
        {
            let mut key = self.keys[i];
            let answer = if i < levels.len() {
                key.update(levels[i], now)
            } else {
                None
            };
            stepped.push(key);
            answers.push(answer);
            i += 1;
        }
        self.keys = stepped;
        proof {
            assert(self.states() =~= states_after(
                old(self).states(),
                old(self).thresholds(),
                levels@,
                now,
            ));
            assert(answers@ =~= answers_to(
                old(self).states(),
                old(self).thresholds(),
                levels@,
                now,
            ));
        }
        answers
    }

    /// Scans the keys as [`Registry::scan`] does and returns the events that
    /// were raised, each with its button, in the order of the buttons.
    pub fn report_pressed_keys(&mut self, levels: &Vec<Level>, now: u64) -> (events: Vec<
        (B, Event),
    >)
        ensures
            final(self).ids() == old(self).ids(),
            final(self).thresholds() == old(self).thresholds(),
            final(self).states() == states_after(
                old(self).states(),
                old(self).thresholds(),
                levels@,
                now,
            ),
            events@ == raised(
                old(self).ids(),
                answers_to(old(self).states(), old(self).thresholds(), levels@, now),
            ),
    {
        proof {
            use_type_invariant(&*self);
        }
        let answers = self.scan(levels, now);
        let mut events: Vec<(B, Event)> = Vec::new();
        let mut i: usize = 0;
        while i < answers.len()
            invariant
                i <= answers@.len(),
                answers@.len() == self.ids@.len(),
                events@ == raised(self.ids@, answers@.take(i as int)),
            decreases answers@.len() - i,
        {
            proof {
                assert(answers@.take(i + 1).drop_last() == answers@.take(i as int));
            }
            if let Some(event) = answers[i] {
                events.push((self.ids[i], event));
            }
            i += 1;
        }
        proof {
            assert(answers@.take(i as int) == answers@);
        }
        events
    }
}

/// Where `id` stands in `ids`, if it is among them.
fn position<B: KeyId>(ids: &Vec<B>, id: &B) -> (found: Option<usize>)
    ensures
        match found {
            Some(at) => at < ids@.len() && ids@[at as int] == *id,
            None => !ids@.contains(*id),
        },
{
    let mut i: usize = 0;
    while i < ids.len()
        invariant
            i <= ids.len(),
            forall|j: int| 0 <= j < i ==> ids@[j] != *id,
        decreases ids.len() - i,
    {
        if ids[i].same(id) {
            return Some(i);
        }
        i += 1;
    }
    None
}

} // verus!
