//! What the debounce thresholds guarantee over whole traces of samples.
//!
//! Everything here is stated over [`State::after`] and [`State::events`],
//! the trace-level reading of [`State::step`] that
//! [`Key::replay`](crate::key::Key::replay) computes.

use crate::key::{elapsed, Config, Event, Key, Level, Sample, State};
use vstd::prelude::*;

verus! {

/// Every sample of the trace reads `level`.
pub open spec fn all_at(samples: Seq<Sample>, level: Level) -> bool {
    forall|i: int| 0 <= i < samples.len() ==> (#[trigger] samples[i]).level == level
}

/// The clock of the trace never runs backwards.
pub open spec fn clock_is_monotonic(samples: Seq<Sample>) -> bool {
    forall|i: int, j: int|
        0 <= i <= j < samples.len() ==> (#[trigger] samples[i]).now <= (#[trigger] samples[j]).now
}

/// The pin reads high on each of `samples[from..to]`.
pub open spec fn high_between(samples: Seq<Sample>, from: int, to: int) -> bool {
    forall|i: int| from <= i < to ==> (#[trigger] samples[i]).level == Level::High
}

/// No stretch of high readings lasts as long as `release`: whenever the pin
/// reads high from sample `i` until sample `k`, less than `release` has
/// passed at sample `k` since sample `i`.
pub open spec fn highs_shorter_than(samples: Seq<Sample>, release: u64) -> bool {
    forall|i: int, k: int|
        0 <= i < k < samples.len() && #[trigger] high_between(samples, i, k) ==> elapsed(
            samples[k].now,
            samples[i].now,
        ) < release
}

/// Between sample `from` and sample `to` the pin reads high, or reads low
/// no sooner than `release` after sample `from`: nothing in between cuts
/// the high stretch that began at `from` short.
pub open spec fn stretch_holds(samples: Seq<Sample>, from: int, to: int, release: u64) -> bool {
    forall|k: int|
        from < k < to ==> (#[trigger] samples[k]).level == Level::High || elapsed(
            samples[k].now,
            samples[from].now,
        ) >= release
}

/// The key has seen its pin low and has not begun to release.
pub open spec fn is_engaged(state: State) -> bool {
    state is Down || state is Pressed || state is Held
}

/// How many of the answers are [`Event::Down`].
pub open spec fn downs(events: Seq<Option<Event>>) -> nat
    decreases events.len(),
{
    if events.len() == 0 {
        0
    } else if events.last() == Some(Event::Down) {
        downs(events.drop_last()) + 1
    } else {
        downs(events.drop_last())
    }
}

/// How many of the answers are [`Event::Up`].
pub open spec fn ups(events: Seq<Option<Event>>) -> nat
    decreases events.len(),
{
    if events.len() == 0 {
        0
    } else if events.last() == Some(Event::Up) {
        ups(events.drop_last()) + 1
    } else {
        ups(events.drop_last())
    }
}

/// The time at which the `n`-th [`Event::Down`] of an unbroken press falls
/// due, counting from zero, when the pin went low at `start`: the press
/// itself after `debounce`, the first repeat `hold` later, and every further
/// repeat `hold_repeat` after the one before.
pub open spec fn down_due(config: Config, start: u64, n: nat) -> int {
    if n == 0 {
        start + config.debounce
    } else {
        start + config.debounce + config.hold + (n - 1) * config.hold_repeat
    }
}

/// Feeding a trace answers each sample from the state that the samples
/// before it have left, and answers every sample.
pub proof fn lemma_events_by_prefix(state: State, config: Config, samples: Seq<Sample>, i: int)
    requires
        0 <= i < samples.len(),
    ensures
        state.events(config, samples).len() == samples.len(),
        state.events(config, samples)[i] == state.after(config, samples.take(i)).step(
            config,
            samples[i].level,
            samples[i].now,
        ).1,
        state.after(config, samples.take(i + 1)) == state.after(config, samples.take(i)).step(
            config,
            samples[i].level,
            samples[i].now,
        ).0,
    decreases samples.len(),
{
    assert(samples.take(i + 1).drop_last() == samples.take(i));
    lemma_events_len(state, config, samples);
    lemma_events_len(state, config, samples.drop_last());
    if i == samples.len() - 1 {
        assert(samples.take(i) == samples.drop_last());
    } else {
        lemma_events_by_prefix(state, config, samples.drop_last(), i);
        assert(samples.drop_last().take(i) == samples.take(i));
    }
}

/// Every sample gets one answer.
pub proof fn lemma_events_len(state: State, config: Config, samples: Seq<Sample>)
    ensures
        state.events(config, samples).len() == samples.len(),
    decreases samples.len(),
{
    if samples.len() > 0 {
        lemma_events_len(state, config, samples.drop_last());
    }
}

/// Replaying a trace is repeatable: two keys in the same state and with the
/// same thresholds answer the same trace with the same events, and end in
/// the same state.
pub proof fn lemma_replay_is_deterministic(a: Key, b: Key, samples: Seq<Sample>)
    requires
        a.state() == b.state(),
        a.config() == b.config(),
    ensures
        a.state().events(a.config(), samples) == b.state().events(b.config(), samples),
        a.state().after(a.config(), samples) == b.state().after(b.config(), samples),
{
}

/// A press shorter than the debounce timeout is never reported: while the
/// pin of a key at rest reads low and less than `debounce` has passed since
/// the first low reading, no sample raises an event, and the key waits in
/// `Down` with the time of that first reading.
pub proof fn lemma_short_press_is_silent(config: Config, samples: Seq<Sample>)
    requires
        all_at(samples, Level::Low),
        forall|i: int|
            0 <= i < samples.len() ==> elapsed((#[trigger] samples[i]).now, samples[0].now)
                < config.debounce,
    ensures
        forall|i: int|
            0 <= i < samples.len() ==> (#[trigger] State::Released.events(config, samples)[i])
                is None,
        samples.len() > 0 ==> State::Released.after(config, samples) == State::Down(
            samples[0].now,
        ),
    decreases samples.len(),
{
    if samples.len() > 0 {
        let front = samples.drop_last();
        assert forall|i: int| 0 <= i < front.len() implies (#[trigger] front[i]).level
            == Level::Low && elapsed(front[i].now, front[0].now) < config.debounce by {
            assert(front[i] == samples[i]);
            assert(front[0] == samples[0]);
        }
        lemma_short_press_is_silent(config, front);
        lemma_events_len(State::Released, config, front);
        let last = samples.last();
        assert(last == samples[samples.len() - 1]);
        assert(last.level == Level::Low);
        assert(elapsed(last.now, samples[0].now) < config.debounce);
        if front.len() > 0 {
            assert(front[0] == samples[0]);
        }
        let events = State::Released.events(config, samples);
        assert forall|i: int| 0 <= i < samples.len() implies (#[trigger] events[i]) is None by {
            if i < front.len() {
                assert(events[i] == State::Released.events(config, front)[i]);
            }
        }
    }
}

/// A press that lasts is reported: once the pin of a key at rest has read
/// low for `debounce`, counted from the first low reading to a later one,
/// the key has raised [`Event::Down`].
pub proof fn lemma_press_is_reported(config: Config, samples: Seq<Sample>)
    requires
        samples.len() >= 2,
        all_at(samples, Level::Low),
        elapsed(samples.last().now, samples[0].now) >= config.debounce,
    ensures
        downs(State::Released.events(config, samples)) >= 1,
        State::Released.after(config, samples) is Pressed || State::Released.after(
            config,
            samples,
        ) is Held,
{
    lemma_press_progress(config, samples);
}

/// Where a press stands after its samples: not reported yet, and then the
/// last sample came too early, or reported.
proof fn lemma_press_progress(config: Config, samples: Seq<Sample>)
    requires
        samples.len() >= 1,
        all_at(samples, Level::Low),
    ensures
        ({
            let state = State::Released.after(config, samples);
            let reported = downs(State::Released.events(config, samples));
            ||| state == State::Down(samples[0].now) && reported == 0 && (samples.len() >= 2
                ==> elapsed(samples.last().now, samples[0].now) < config.debounce)
            ||| (state is Pressed || state is Held) && reported >= 1
        }),
    decreases samples.len(),
{
    let front = samples.drop_last();
    let events = State::Released.events(config, samples);
    assert(events.drop_last() == State::Released.events(config, front));
    assert(samples.last() == samples[samples.len() - 1]);
    assert(samples.last().level == Level::Low);
    if front.len() > 0 {
        assert forall|i: int| 0 <= i < front.len() implies (#[trigger] front[i]).level
            == Level::Low by {
            assert(front[i] == samples[i]);
        }
        assert(front[0] == samples[0]);
        lemma_press_progress(config, front);
    } else {
        assert(downs(State::Released.events(config, front)) == 0);
    }
}

/// A release that lasts is reported, and reported once: when the pin of an
/// engaged key reads high, and `release` has passed between the first high
/// reading and the last, the key has raised one [`Event::Up`], nothing
/// else, and is at rest.
pub proof fn lemma_release_is_reported(state: State, config: Config, samples: Seq<Sample>)
    requires
        is_engaged(state),
        samples.len() >= 2,
        all_at(samples, Level::High),
        elapsed(samples.last().now, samples[0].now) >= config.release,
    ensures
        state.after(config, samples) == State::Released,
        ups(state.events(config, samples)) == 1,
        downs(state.events(config, samples)) == 0,
{
    lemma_release_progress(state, config, samples);
}

/// Where a release stands after its samples: not reported yet, and then the
/// last sample came too early, or reported once.
proof fn lemma_release_progress(state: State, config: Config, samples: Seq<Sample>)
    requires
        is_engaged(state),
        samples.len() >= 1,
        all_at(samples, Level::High),
    ensures
        downs(state.events(config, samples)) == 0,
        ({
            let reached = state.after(config, samples);
            let reported = ups(state.events(config, samples));
            ||| reached == State::Up(samples[0].now) && reported == 0 && (samples.len() >= 2
                ==> elapsed(samples.last().now, samples[0].now) < config.release)
            ||| reached == State::Released && reported == 1
        }),
    decreases samples.len(),
{
    let front = samples.drop_last();
    let events = state.events(config, samples);
    assert(events.drop_last() == state.events(config, front));
    assert(samples.last() == samples[samples.len() - 1]);
    assert(samples.last().level == Level::High);
    if front.len() > 0 {
        assert forall|i: int| 0 <= i < front.len() implies (#[trigger] front[i]).level
            == Level::High by {
            assert(front[i] == samples[i]);
        }
        assert(front[0] == samples[0]);
        lemma_release_progress(state, config, front);
    } else {
        assert(ups(state.events(config, front)) == 0);
        assert(downs(state.events(config, front)) == 0);
    }
}

/// The state that a bouncing trace has reached after `n` samples: still
/// engaged, or waiting in `Up` since sample `j`, with nothing but high
/// readings from there on.
proof fn lemma_bounce_state(state: State, config: Config, samples: Seq<Sample>, n: int) -> (j:
    int)
    requires
        is_engaged(state),
        highs_shorter_than(samples, config.release),
        0 <= n <= samples.len(),
    ensures
        is_engaged(state.after(config, samples.take(n))) || (0 <= j < n && state.after(
            config,
            samples.take(n),
        ) == State::Up(samples[j].now) && high_between(samples, j, n)),
    decreases n,
{
    if n == 0 {
        assert(samples.take(0).len() == 0);
        0
    } else {
        let j0 = lemma_bounce_state(state, config, samples, n - 1);
        lemma_events_by_prefix(state, config, samples, n - 1);
        let before = state.after(config, samples.take(n - 1));
        if is_engaged(before) {
            n - 1
        } else {
            if j0 < n - 1 {
                assert(high_between(samples, j0, n - 1));
            }
            j0
        }
    }
}

/// Contact bounce is rejected: as long as no stretch of high readings lasts
/// as long as `release`, an engaged key never comes to rest and never raises
/// [`Event::Up`].
pub proof fn lemma_bounce_is_rejected(state: State, config: Config, samples: Seq<Sample>)
    requires
        is_engaged(state),
        highs_shorter_than(samples, config.release),
    ensures
        forall|n: int|
            0 <= n <= samples.len() ==> #[trigger] state.after(config, samples.take(n))
                != State::Released,
        forall|n: int|
            0 <= n < samples.len() ==> #[trigger] state.events(config, samples)[n] != Some(
                Event::Up,
            ),
{
    assert forall|n: int| 0 <= n <= samples.len() implies #[trigger] state.after(
        config,
        samples.take(n),
    ) != State::Released by {
        lemma_bounce_state(state, config, samples, n);
    }
    assert forall|n: int| 0 <= n < samples.len() implies #[trigger] state.events(
        config,
        samples,
    )[n] != Some(Event::Up) by {
        let j = lemma_bounce_state(state, config, samples, n);
        lemma_events_by_prefix(state, config, samples, n);
        if !is_engaged(state.after(config, samples.take(n))) {
            assert(high_between(samples, j, n));
        }
    }
}

/// Where a key that waits in `Up` after `n` samples has been waiting since:
/// since a high reading `j`, with nothing in between that cut the stretch
/// short.
proof fn lemma_up_since(state: State, config: Config, samples: Seq<Sample>, n: int) -> (j: int)
    requires
        !(state is Up),
        0 <= n <= samples.len(),
    ensures
        state.after(config, samples.take(n)) is Up ==> 0 <= j < n && state.after(
            config,
            samples.take(n),
        ) == State::Up(samples[j].now) && samples[j].level == Level::High && stretch_holds(
            samples,
            j,
            n,
            config.release,
        ),
    decreases n,
{
    if n == 0 {
        assert(samples.take(0).len() == 0);
        0
    } else {
        let j0 = lemma_up_since(state, config, samples, n - 1);
        lemma_events_by_prefix(state, config, samples, n - 1);
        if state.after(config, samples.take(n - 1)) is Up {
            j0
        } else {
            n - 1
        }
    }
}

/// A release is reported only after a high stretch that lasted: when a key
/// that did not start out in `Up` answers sample `n` with [`Event::Up`],
/// the pin reads high at `n` and read high at an earlier sample `j`,
/// `release` or more has passed between the two, and nothing in between cut
/// the stretch short: every reading there is high, or is a low one that
/// came `release` or more after `j`, which the key in `Up` lets pass.
pub proof fn lemma_release_needs_a_high_stretch(
    state: State,
    config: Config,
    samples: Seq<Sample>,
    n: int,
) -> (j: int)
    requires
        !(state is Up),
        0 <= n < samples.len(),
        state.events(config, samples)[n] == Some(Event::Up),
    ensures
        0 <= j < n,
        samples[j].level == Level::High,
        samples[n].level == Level::High,
        elapsed(samples[n].now, samples[j].now) >= config.release,
        stretch_holds(samples, j, n, config.release),
{
    let j = lemma_up_since(state, config, samples, n);
    lemma_events_by_prefix(state, config, samples, n);
    j
}

/// Consecutive due times lie one threshold apart: `hold` after the press,
/// `hold_repeat` after every repeat.
pub proof fn lemma_down_due_step(config: Config, start: u64, n: nat)
    ensures
        n == 0 ==> down_due(config, start, n + 1) == down_due(config, start, n) + config.hold,
        n > 0 ==> down_due(config, start, n + 1) == down_due(config, start, n)
            + config.hold_repeat,
{
    if n > 0 {
        assert(n * config.hold_repeat == (n - 1) * config.hold_repeat + config.hold_repeat)
            by (nonlinear_arith);
    }
}

/// Due times never decrease with the event's number.
pub proof fn lemma_down_due_is_monotonic(config: Config, start: u64, a: nat, b: nat)
    requires
        a <= b,
    ensures
        down_due(config, start, a) <= down_due(config, start, b),
    decreases b,
{
    if a < b {
        lemma_down_due_is_monotonic(config, start, a, (b - 1) as nat);
        lemma_down_due_step(config, start, (b - 1) as nat);
    }
}

/// Where an unbroken press stands after its samples: the key has raised `d`
/// presses, waits in the state that follows the `d`-th, and entered it no
/// earlier than that press fell due.
spec fn press_on_schedule(config: Config, samples: Seq<Sample>, state: State, d: nat) -> bool {
    let start = samples[0].now;
    let latest = samples.last().now;
    match state {
        State::Down(since) => d == 0 && since == start,
        State::Pressed(since) => d == 1 && down_due(config, start, 0) <= since <= latest,
        State::Held(since) => d >= 2 && down_due(config, start, (d - 1) as nat) <= since
            <= latest,
        _ => false,
    }
}

proof fn lemma_press_on_schedule(config: Config, samples: Seq<Sample>)
    requires
        samples.len() > 0,
        all_at(samples, Level::Low),
        clock_is_monotonic(samples),
    ensures
        press_on_schedule(
            config,
            samples,
            State::Released.after(config, samples),
            downs(State::Released.events(config, samples)),
        ),
    decreases samples.len(),
{
    let front = samples.drop_last();
    let last = samples.last();
    assert(last == samples[samples.len() - 1]);
    assert(samples[0].now <= last.now);
    if front.len() > 0 {
        assert forall|i: int| 0 <= i < front.len() implies (#[trigger] front[i]).level
            == Level::Low by {
            assert(front[i] == samples[i]);
        }
        assert forall|i: int, j: int| 0 <= i <= j < front.len() implies (#[trigger] front[i]).now
            <= (#[trigger] front[j]).now by {
            assert(front[i] == samples[i]);
            assert(front[j] == samples[j]);
        }
        lemma_press_on_schedule(config, front);
        assert(front[0] == samples[0]);
        assert(front.last() == samples[samples.len() - 2]);
        assert(front.last().now <= last.now);
        let d = downs(State::Released.events(config, front));
        lemma_down_due_step(config, samples[0].now, (d - 1) as nat);
        let events = State::Released.events(config, samples);
        assert(events.drop_last() == State::Released.events(config, front));
    } else {
        let events = State::Released.events(config, samples);
        assert(events.drop_last() == State::Released.events(config, front));
        assert(downs(State::Released.events(config, front)) == 0);
    }
}

/// A held key never repeats ahead of time: while the pin of a key at rest
/// reads low on a clock that does not run backwards, no more presses are
/// raised than have fallen due. If the last sample comes before the `n`-th
/// press is due, at most `n` presses have been raised.
pub proof fn lemma_downs_never_early(config: Config, samples: Seq<Sample>, n: nat)
    requires
        samples.len() > 0,
        all_at(samples, Level::Low),
        clock_is_monotonic(samples),
        samples.last().now < down_due(config, samples[0].now, n),
    ensures
        downs(State::Released.events(config, samples)) <= n,
{
    lemma_press_on_schedule(config, samples);
    let d = downs(State::Released.events(config, samples));
    if d > n {
        lemma_down_due_is_monotonic(config, samples[0].now, n, (d - 1) as nat);
    }
}

/// Where a press that is sampled on time stands after its first `n`
/// samples: the key has raised `d` presses, waits in the state that follows
/// the `d`-th since the very time that press fell due, and the next one is
/// not due yet.
spec fn press_on_time(config: Config, samples: Seq<Sample>, n: int, state: State, d: nat) -> bool {
    let start = samples[0].now;
    let latest = samples[n - 1].now;
    &&& latest < down_due(config, start, d)
    &&& match state {
        State::Down(since) => d == 0 && since == start,
        State::Pressed(since) => d == 1 && since == down_due(config, start, 0),
        State::Held(since) => d >= 2 && since == down_due(config, start, (d - 1) as nat),
        _ => false,
    }
}

proof fn lemma_press_on_time(config: Config, samples: Seq<Sample>, k: nat, n: int)
    requires
        config.debounce > 0,
        config.hold > 0,
        config.hold_repeat > 0,
        all_at(samples, Level::Low),
        clock_is_monotonic(samples),
        0 < n <= samples.len(),
        samples.last().now <= samples[0].now + config.hold + k * config.hold_repeat,
        forall|m: nat|
            m <= k ==> exists|i: int|
                0 <= i < samples.len() && (#[trigger] samples[i]).now == #[trigger] down_due(
                    config,
                    samples[0].now,
                    m,
                ),
    ensures
        press_on_time(
            config,
            samples,
            n,
            State::Released.after(config, samples.take(n)),
            downs(State::Released.events(config, samples.take(n))),
        ),
    decreases n,
{
    let start = samples[0].now;
    let sample = samples[n - 1];
    let front = samples.take(n - 1);
    let upto = samples.take(n);
    assert(upto.drop_last() == front);
    assert(upto.last() == sample);
    assert(sample.level == Level::Low);
    assert(State::Released.events(config, upto).drop_last() == State::Released.events(
        config,
        front,
    ));
    assert(start <= sample.now);
    assert(sample.now <= samples.last().now) by {
        assert(samples.last() == samples[samples.len() - 1]);
    }
    if n == 1 {
        assert(front.len() == 0);
    } else {
        lemma_press_on_time(config, samples, k, n - 1);
        let d = downs(State::Released.events(config, front));
        let due = down_due(config, start, d);
        assert(samples[n - 2].now <= sample.now);
        if d > 0 {
            lemma_down_due_step(config, start, (d - 1) as nat);
        }
        lemma_down_due_step(config, start, d);
        if sample.now >= due {
            // The press is within the window, so sample times cover `due`.
            if d > k {
                lemma_down_due_is_monotonic(config, start, k + 1, d);
            }
            assert(d <= k);
            let i = choose|i: int|
                0 <= i < samples.len() && (#[trigger] samples[i]).now == down_due(
                    config,
                    start,
                    d,
                );
            if i < n - 1 {
                assert(samples[i].now <= samples[n - 2].now);
            } else {
                assert(sample.now <= samples[i].now);
            }
            assert(sample.now == due);
        }
    }
}

/// Hold repeat cadence: a press held for `hold + k * hold_repeat` raises
/// exactly `k + 1` presses, the first one and `k` repeats.
///
/// The press starts with the first sample of a key at rest and is sampled
/// on a clock that does not run backwards, at least whenever one of these
/// presses falls due. All three thresholds are positive.
pub proof fn lemma_hold_cadence(config: Config, samples: Seq<Sample>, k: nat)
    requires
        config.debounce > 0,
        config.hold > 0,
        config.hold_repeat > 0,
        samples.len() > 0,
        all_at(samples, Level::Low),
        clock_is_monotonic(samples),
        samples.last().now <= samples[0].now + config.hold + k * config.hold_repeat,
        forall|m: nat|
            m <= k ==> exists|i: int|
                0 <= i < samples.len() && (#[trigger] samples[i]).now == #[trigger] down_due(
                    config,
                    samples[0].now,
                    m,
                ),
    ensures
        downs(State::Released.events(config, samples)) == k + 1,
{
    let start = samples[0].now;
    lemma_press_on_time(config, samples, k, samples.len() as int);
    assert(samples.take(samples.len() as int) == samples);
    let d = downs(State::Released.events(config, samples));
    assert(samples.last() == samples[samples.len() - 1]);
    // The last of the presses has been sampled, so it is not in the future.
    let i = choose|i: int|
        0 <= i < samples.len() && (#[trigger] samples[i]).now == down_due(config, start, k);
    assert(samples[i].now <= samples.last().now);
    if d <= k {
        lemma_down_due_is_monotonic(config, start, d, k);
    }
    // The one after it falls outside the window.
    lemma_down_due_step(config, start, k);
    if d > k + 1 {
        lemma_press_on_schedule(config, samples);
        lemma_down_due_is_monotonic(config, start, k + 1, (d - 1) as nat);
    }
}

} // verus!
