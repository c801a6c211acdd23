use kontroller::hid::{Report, Scan};
use kontroller::input::{assemble, Key, Reporter, POLL_INTERVAL_MICROS};
use kontroller::key::{Config, Event, Level};
use kontroller::proto::KeyCode;

const KEYS: [Key; 8] =
    [Key::Up, Key::Down, Key::Left, Key::Right, Key::Enter, Key::Fn1, Key::Fn2, Key::Fn3];

#[test]
fn every_key_has_its_key_code() {
    assert_eq!(Key::Up.key_code(), KeyCode::Up);
    assert_eq!(Key::Down.key_code(), KeyCode::Down);
    assert_eq!(Key::Left.key_code(), KeyCode::Left);
    assert_eq!(Key::Right.key_code(), KeyCode::Right);
    assert_eq!(Key::Enter.key_code(), KeyCode::Enter);
    assert_eq!(Key::Fn1.key_code(), KeyCode::F7);
    assert_eq!(Key::Fn2.key_code(), KeyCode::F6);
    assert_eq!(Key::Fn3.key_code(), KeyCode::F5);
}

#[test]
fn reporter_keeps_each_key_once_in_order() {
    let reporter = Reporter::new(vec![Key::Fn1, Key::Up, Key::Fn1, Key::Up, Key::Enter]);
    assert_eq!(reporter.key_order(), &vec![Key::Fn1, Key::Up, Key::Enter]);
    assert_eq!(reporter.thresholds(), Config::default());
}

#[test]
fn reporter_reports_the_keys_that_raised_an_event() {
    let mut reporter = Reporter::new(vec![Key::Enter, Key::Up]);
    assert_eq!(reporter.report_pressed_keys(&vec![Level::Low, Level::Low], 0), vec![]);
    assert_eq!(
        reporter.report_pressed_keys(&vec![Level::High, Level::Low], 900),
        vec![(Key::Up, Event::Down)]
    );
    assert_eq!(
        reporter.report_pressed_keys(&vec![Level::High, Level::Low], 1_900),
        vec![(Key::Enter, Event::Up)]
    );
}

#[test]
fn reporter_assembles_with_the_wired_key_codes() {
    let events: Vec<(Key, Event)> = KEYS.iter().map(|key| (*key, Event::Down)).collect();
    assert_eq!(
        assemble(&events),
        Report { keycodes: [0x52, 0x51, 0x50, 0x4f, 0x28, 0x40], ..Report::default() }
    );
    let events = vec![(Key::Fn2, Event::Down), (Key::Enter, Event::Up), (Key::Fn3, Event::Down)];
    assert_eq!(
        assemble(&events),
        Report { keycodes: [0x3f, 0x3e, 0, 0, 0, 0], ..Report::default() }
    );
    assert_eq!(assemble(&Vec::new()), Report::default());
}

#[test]
fn reporter_poll_sends_one_report_for_a_scan_with_events() {
    let mut reporter = Reporter::new(KEYS.to_vec());
    let mut levels = vec![Level::High; 8];
    levels[4] = Level::Low;
    assert_eq!(reporter.poll(&levels, 0).report, None);
    assert_eq!(
        reporter.poll(&levels, 900),
        Scan {
            events: vec![(Key::Enter, Event::Down)],
            report: Some(Report { keycodes: [0x28, 0, 0, 0, 0, 0], ..Report::default() }),
        }
    );
    assert_eq!(reporter.poll(&levels, 1_000).report, None);
    levels[4] = Level::High;
    assert_eq!(reporter.poll(&levels, 2_000).report, None);
    assert_eq!(reporter.poll(&levels, 3_000).report, Some(Report::default()));
}

#[test]
fn reporter_polls_every_hundred_microseconds() {
    assert_eq!(POLL_INTERVAL_MICROS, 100);
}
