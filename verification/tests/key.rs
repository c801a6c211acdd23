use kontroller::key::{
    Config, Event, Key, Level, Sample, State, DEFAULT_DEBOUNCE_TIMEOUT, DEFAULT_HOLD_REPEAT_TIMEOUT,
    DEFAULT_HOLD_TIMEOUT, DEFAULT_RELEASE_TIMEOUT,
};

fn low(now: u64) -> Sample {
    Sample { level: Level::Low, now }
}

fn high(now: u64) -> Sample {
    Sample { level: Level::High, now }
}

fn downs(events: &[Option<Event>]) -> usize {
    events.iter().filter(|event| **event == Some(Event::Down)).count()
}

#[test]
fn default_config_holds_the_default_timeouts() {
    let config = Config::default();
    assert_eq!(config.debounce, 900);
    assert_eq!(config.release, 1_000);
    assert_eq!(config.hold, 500_000);
    assert_eq!(config.hold_repeat, 100_000);
    assert_eq!(DEFAULT_DEBOUNCE_TIMEOUT, 900);
    assert_eq!(DEFAULT_RELEASE_TIMEOUT, 1_000);
    assert_eq!(DEFAULT_HOLD_TIMEOUT, 500_000);
    assert_eq!(DEFAULT_HOLD_REPEAT_TIMEOUT, 100_000);
}

#[test]
fn new_key_is_released() {
    let key = Key::new(Config::default());
    assert_eq!(key.state(), State::Released);
    assert_eq!(key.config(), Config::default());
}

#[test]
fn released_key_ignores_a_high_pin() {
    let mut key = Key::new(Config::default());
    assert_eq!(key.update(Level::High, 10), None);
    assert_eq!(key.state(), State::Released);
}

#[test]
fn low_pin_starts_the_debounce_clock() {
    let mut key = Key::new(Config::default());
    assert_eq!(key.update(Level::Low, 10), None);
    assert_eq!(key.state(), State::Down(10));
}

#[test]
fn press_is_reported_once_debounced() {
    let mut key = Key::new(Config::default());
    assert_eq!(key.update(Level::Low, 100), None);
    assert_eq!(key.update(Level::Low, 999), None);
    assert_eq!(key.state(), State::Down(100));
    assert_eq!(key.update(Level::Low, 1_000), Some(Event::Down));
    assert_eq!(key.state(), State::Pressed(1_000));
}

#[test]
fn lifting_before_the_debounce_goes_to_up() {
    let mut key = Key::new(Config::default());
    assert_eq!(key.update(Level::Low, 0), None);
    assert_eq!(key.update(Level::High, 500), None);
    assert_eq!(key.state(), State::Up(500));
}

#[test]
fn pressed_key_becomes_held_after_the_hold_timeout() {
    let mut key = Key::new(Config::default());
    key.update(Level::Low, 0);
    assert_eq!(key.update(Level::Low, 900), Some(Event::Down));
    assert_eq!(key.update(Level::Low, 500_899), None);
    assert_eq!(key.state(), State::Pressed(900));
    assert_eq!(key.update(Level::Low, 500_900), Some(Event::Down));
    assert_eq!(key.state(), State::Held(500_900));
}

#[test]
fn held_key_repeats_after_every_repeat_timeout() {
    let mut key = Key::new(Config::default());
    key.update(Level::Low, 0);
    key.update(Level::Low, 900);
    key.update(Level::Low, 500_900);
    assert_eq!(key.update(Level::Low, 600_899), None);
    assert_eq!(key.state(), State::Held(500_900));
    assert_eq!(key.update(Level::Low, 600_900), Some(Event::Down));
    assert_eq!(key.state(), State::Held(600_900));
    assert_eq!(key.update(Level::Low, 700_900), Some(Event::Down));
    assert_eq!(key.state(), State::Held(700_900));
}

#[test]
fn lifting_goes_to_up_from_pressed_and_held() {
    let mut pressed = Key::new(Config::default());
    pressed.update(Level::Low, 0);
    pressed.update(Level::Low, 900);
    assert_eq!(pressed.update(Level::High, 2_000), None);
    assert_eq!(pressed.state(), State::Up(2_000));

    let mut held = Key::new(Config::default());
    held.update(Level::Low, 0);
    held.update(Level::Low, 900);
    held.update(Level::Low, 500_900);
    assert_eq!(held.update(Level::High, 501_000), None);
    assert_eq!(held.state(), State::Up(501_000));
}

#[test]
fn release_is_reported_after_the_release_timeout() {
    let mut key = Key::new(Config::default());
    key.update(Level::Low, 0);
    key.update(Level::Low, 900);
    key.update(Level::High, 2_000);
    assert_eq!(key.update(Level::High, 2_999), None);
    assert_eq!(key.state(), State::Up(2_000));
    assert_eq!(key.update(Level::High, 3_000), Some(Event::Up));
    assert_eq!(key.state(), State::Released);
}

#[test]
fn low_pin_within_the_release_timeout_is_a_bounce() {
    let mut key = Key::new(Config::default());
    key.update(Level::Low, 0);
    key.update(Level::Low, 900);
    key.update(Level::High, 2_000);
    assert_eq!(key.update(Level::Low, 2_500), None);
    assert_eq!(key.state(), State::Down(2_500));
}

#[test]
fn low_pin_after_the_release_timeout_waits_in_up() {
    let mut key = Key::new(Config::default());
    key.update(Level::Low, 0);
    key.update(Level::Low, 900);
    key.update(Level::High, 2_000);
    assert_eq!(key.update(Level::Low, 3_000), None);
    assert_eq!(key.state(), State::Up(2_000));
    assert_eq!(key.update(Level::High, 3_001), Some(Event::Up));
    assert_eq!(key.state(), State::Released);
}

#[test]
fn clock_that_runs_backwards_reads_as_no_time_passed() {
    let mut key = Key::new(Config::default());
    key.update(Level::Low, 5_000);
    assert_eq!(key.update(Level::Low, 1_000), None);
    assert_eq!(key.state(), State::Down(5_000));

    let zero = Config { debounce: 0, release: 0, hold: 0, hold_repeat: 0 };
    let mut eager = Key::new(zero);
    eager.update(Level::Low, 5_000);
    assert_eq!(eager.update(Level::Low, 1_000), Some(Event::Down));
    assert_eq!(eager.state(), State::Pressed(1_000));
}

#[test]
fn update_keeps_the_config() {
    let config = Config { debounce: 1, release: 2, hold: 3, hold_repeat: 4 };
    let mut key = Key::new(config);
    key.update(Level::Low, 0);
    key.update(Level::Low, 10);
    key.update(Level::High, 20);
    assert_eq!(key.config(), config);
}

#[test]
fn replay_answers_every_sample() {
    let mut key = Key::new(Config::default());
    let trace = vec![low(0), low(900), low(1_000), high(2_000), high(3_000), high(4_000)];
    let events = key.replay(&trace);
    assert_eq!(events, vec![None, Some(Event::Down), None, None, Some(Event::Up), None]);
    assert_eq!(key.state(), State::Released);
}

#[test]
fn replay_of_nothing_changes_nothing() {
    let mut key = Key::new(Config::default());
    key.update(Level::Low, 7);
    assert_eq!(key.replay(&Vec::new()), Vec::new());
    assert_eq!(key.state(), State::Down(7));
}

#[test]
fn replaying_a_trace_twice_gives_the_same_events() {
    let trace = vec![
        low(0),
        high(300),
        low(600),
        low(1_500),
        low(501_500),
        low(601_500),
        high(601_600),
        low(601_700),
        high(700_000),
        high(701_000),
    ];
    let mut first = Key::new(Config::default());
    let mut second = Key::new(Config::default());
    let events = first.replay(&trace);
    assert_eq!(events, second.replay(&trace));
    assert_eq!(first, second);
    assert_eq!(
        events,
        vec![
            None,
            None,
            None,
            Some(Event::Down),
            Some(Event::Down),
            Some(Event::Down),
            None,
            None,
            None,
            Some(Event::Up),
        ]
    );
}

#[test]
fn press_shorter_than_the_debounce_raises_nothing() {
    let mut key = Key::new(Config::default());
    let trace: Vec<Sample> = (0..9).map(|i| low(1_000 + i * 100)).collect();
    let events = key.replay(&trace);
    assert_eq!(events, vec![None; 9]);
    assert_eq!(key.state(), State::Down(1_000));
}

#[test]
fn bouncing_pin_never_releases() {
    let mut key = Key::new(Config::default());
    key.replay(&vec![low(0), low(900)]);
    assert_eq!(key.state(), State::Pressed(900));
    // High stretches of 800 µs, each cut short by a low reading.
    let mut trace = Vec::new();
    let mut now = 2_000;
    for _ in 0..50 {
        trace.push(high(now));
        trace.push(high(now + 400));
        trace.push(high(now + 800));
        trace.push(low(now + 999));
        now += 1_500;
    }
    for sample in trace {
        assert_ne!(key.update(sample.level, sample.now), Some(Event::Up));
        assert_ne!(key.state(), State::Released);
    }
    // A high stretch that lasts for the release timeout ends it.
    assert_eq!(key.update(Level::High, now), None);
    assert_eq!(key.update(Level::High, now + 1_000), Some(Event::Up));
    assert_eq!(key.state(), State::Released);
}

#[test]
fn holding_for_hold_plus_k_repeats_raises_k_plus_one_downs() {
    let config = Config::default();
    for k in 0..5u64 {
        // Sampled whenever a press falls due, and at the end of the hold.
        let mut trace = vec![low(0), low(config.debounce)];
        for repeat in 0..k {
            trace.push(low(config.debounce + config.hold + repeat * config.hold_repeat));
        }
        trace.push(low(config.hold + k * config.hold_repeat));
        let mut key = Key::new(config);
        let events = key.replay(&trace);
        assert_eq!(downs(&events), (k + 1) as usize);
    }
}

#[test]
fn holding_with_a_fine_poll_raises_k_plus_one_downs() {
    let config = Config::default();
    let k = 3;
    let mut key = Key::new(config);
    let mut events = Vec::new();
    let mut now = 0;
    while now <= config.hold + k * config.hold_repeat {
        events.push(key.update(Level::Low, now));
        now += 100;
    }
    assert_eq!(downs(&events), 4);
}

#[test]
fn held_key_never_repeats_early() {
    let config = Config::default();
    let mut key = Key::new(config);
    let mut events = Vec::new();
    // One sample short of the second repeat.
    let mut now = 0;
    while now < config.debounce + config.hold + config.hold_repeat {
        events.push(key.update(Level::Low, now));
        now += 50;
    }
    assert_eq!(downs(&events), 2);
}
