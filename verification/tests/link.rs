use kontroller::ble::{
    Command, Config, ConnectionStatus, Event, Server, CONNECTION_POLL_INTERVAL,
    DISCONNECTION_POLL_INTERVAL, NOTIFY_SETTLE_TIME,
};
use kontroller::hid::Report;
use kontroller::led::{
    Blinker, DriverConfig, Pattern, Step, DEFAULT_LONG_BLINK_DURATION,
    DEFAULT_SHORT_BLINK_DURATION, STATUS_TICK,
};

const TIMEOUT: u32 = 0x08;

fn server() -> Server {
    Server::initialize(&Config { device_name: "DMD CTL 8K" })
}

fn in_status(status: ConnectionStatus) -> Server {
    let mut server = server();
    if status != ConnectionStatus::NotStarted {
        server.start();
    }
    if status == ConnectionStatus::Paired {
        server.handle(Event::Connected);
    }
    assert_eq!(server.status(), status);
    server
}

fn report(code: u8) -> Report {
    Report { keycodes: [code, 0, 0, 0, 0, 0], ..Report::default() }
}

#[test]
fn link_timings_are_the_configured_ones() {
    assert_eq!(CONNECTION_POLL_INTERVAL, 100_000);
    assert_eq!(DISCONNECTION_POLL_INTERVAL, 500_000);
    assert_eq!(NOTIFY_SETTLE_TIME, 7_000);
    assert_eq!(STATUS_TICK, 500_000);
}

#[test]
fn initialized_server_is_not_started() {
    let server = server();
    assert_eq!(server.status(), ConnectionStatus::NotStarted);
    assert_eq!(server.device_name(), "DMD CTL 8K");
}

#[test]
fn start_arms_the_advertising() {
    let mut server = server();
    assert_eq!(server.start(), Command::StartAdvertising);
    assert_eq!(server.status(), ConnectionStatus::Unpaired);
    assert_eq!(server.device_name(), "DMD CTL 8K");
}

#[test]
fn second_start_does_nothing() {
    let mut unpaired = in_status(ConnectionStatus::Unpaired);
    assert_eq!(unpaired.start(), Command::Idle);
    assert_eq!(unpaired.status(), ConnectionStatus::Unpaired);
    let mut paired = in_status(ConnectionStatus::Paired);
    assert_eq!(paired.handle(Event::Start), Command::Idle);
    assert_eq!(paired.status(), ConnectionStatus::Paired);
}

#[test]
fn connection_ends_the_advertising() {
    let mut server = in_status(ConnectionStatus::Unpaired);
    assert_eq!(server.handle(Event::Connected), Command::StopAdvertising);
    assert_eq!(server.status(), ConnectionStatus::Paired);
}

#[test]
fn disconnection_arms_the_advertising_again_for_any_reason() {
    for reason in [0, TIMEOUT, 0x13, u32::MAX] {
        let mut server = in_status(ConnectionStatus::Paired);
        assert_eq!(server.handle(Event::Disconnected(reason)), Command::StartAdvertising);
        assert_eq!(server.status(), ConnectionStatus::Unpaired);
    }
}

#[test]
fn events_out_of_turn_change_nothing() {
    let mut server = in_status(ConnectionStatus::NotStarted);
    assert_eq!(server.handle(Event::Connected), Command::Idle);
    assert_eq!(server.handle(Event::Disconnected(0)), Command::Idle);
    assert_eq!(server.status(), ConnectionStatus::NotStarted);
    let mut server = in_status(ConnectionStatus::Unpaired);
    assert_eq!(server.handle(Event::Disconnected(TIMEOUT)), Command::Idle);
    assert_eq!(server.status(), ConnectionStatus::Unpaired);
    let mut server = in_status(ConnectionStatus::Paired);
    assert_eq!(server.handle(Event::Connected), Command::Idle);
    assert_eq!(server.status(), ConnectionStatus::Paired);
}

#[test]
fn reports_are_passed_on_whatever_the_status() {
    for status in
        [ConnectionStatus::NotStarted, ConnectionStatus::Unpaired, ConnectionStatus::Paired]
    {
        let mut server = in_status(status);
        assert_eq!(server.handle(Event::Report(report(0x28))), Command::Notify(report(0x28)));
        assert_eq!(server.status(), status);
    }
}

#[test]
fn reports_are_passed_on_in_order_and_once() {
    let mut server = in_status(ConnectionStatus::Unpaired);
    let events = [
        Event::Report(report(1)),
        Event::Connected,
        Event::Report(report(2)),
        Event::Report(report(2)),
        Event::Disconnected(TIMEOUT),
        Event::Report(report(3)),
        Event::Start,
    ];
    let mut notified = Vec::new();
    for event in events {
        if let Command::Notify(report) = server.handle(event) {
            notified.push(report);
        }
    }
    assert_eq!(notified, vec![report(1), report(2), report(2), report(3)]);
}

#[test]
fn observe_turns_the_connection_count_into_events() {
    let mut server = server();
    assert_eq!(server.observe(1), Command::Idle);
    assert_eq!(server.status(), ConnectionStatus::NotStarted);
    server.start();
    assert_eq!(server.observe(0), Command::Idle);
    assert_eq!(server.status(), ConnectionStatus::Unpaired);
    assert_eq!(server.observe(1), Command::StopAdvertising);
    assert_eq!(server.status(), ConnectionStatus::Paired);
    assert_eq!(server.observe(2), Command::Idle);
    assert_eq!(server.status(), ConnectionStatus::Paired);
    assert_eq!(server.observe(0), Command::StartAdvertising);
    assert_eq!(server.status(), ConnectionStatus::Unpaired);
}

#[test]
fn default_driver_config_holds_the_default_durations() {
    let config = DriverConfig::default();
    assert_eq!(config.short_blink_duration, 100_000);
    assert_eq!(config.long_blink_duration, 800_000);
    assert_eq!(DEFAULT_SHORT_BLINK_DURATION, 100_000);
    assert_eq!(DEFAULT_LONG_BLINK_DURATION, 800_000);
    assert_eq!(Blinker::default().config(), config);
}

#[test]
fn blink_is_on_then_off_for_the_same_time() {
    let blinker = Blinker::default();
    assert_eq!(blinker.blink(42), vec![Step::On, Step::Wait(42), Step::Off, Step::Wait(42)]);
    assert_eq!(blinker.blink(0), vec![Step::On, Step::Wait(0), Step::Off, Step::Wait(0)]);
}

#[test]
fn short_and_long_blinks_last_as_configured() {
    let blinker =
        Blinker::new(DriverConfig { short_blink_duration: 5, long_blink_duration: 50 });
    assert_eq!(blinker.short_blink(), vec![Step::On, Step::Wait(5), Step::Off, Step::Wait(5)]);
    assert_eq!(blinker.long_blink(), vec![Step::On, Step::Wait(50), Step::Off, Step::Wait(50)]);
}

#[test]
fn every_status_has_its_pattern() {
    assert_eq!(Pattern::of(ConnectionStatus::NotStarted), Pattern::Idle);
    assert_eq!(Pattern::of(ConnectionStatus::Unpaired), Pattern::Short);
    assert_eq!(Pattern::of(ConnectionStatus::Paired), Pattern::Long);
}

#[test]
fn indicator_blinks_as_the_status_says() {
    let blinker = Blinker::default();
    assert_eq!(blinker.indicate(ConnectionStatus::NotStarted), vec![]);
    assert_eq!(blinker.indicate(ConnectionStatus::Unpaired), blinker.short_blink());
    assert_eq!(blinker.indicate(ConnectionStatus::Paired), blinker.long_blink());
}

#[test]
fn link_goes_from_unpaired_to_paired_and_back() {
    let blinker = Blinker::default();
    let short = vec![Step::On, Step::Wait(100_000), Step::Off, Step::Wait(100_000)];
    let long = vec![Step::On, Step::Wait(800_000), Step::Off, Step::Wait(800_000)];
    let mut blinks = Vec::new();

    let mut server = server();
    assert_eq!(server.status(), ConnectionStatus::NotStarted);
    assert_eq!(server.start(), Command::StartAdvertising);
    assert_eq!(server.status(), ConnectionStatus::Unpaired);
    blinks.push(blinker.indicate(server.status()));

    assert_eq!(server.handle(Event::Connected), Command::StopAdvertising);
    assert_eq!(server.status(), ConnectionStatus::Paired);
    blinks.push(blinker.indicate(server.status()));

    assert_eq!(server.handle(Event::Disconnected(TIMEOUT)), Command::StartAdvertising);
    assert_eq!(server.status(), ConnectionStatus::Unpaired);
    blinks.push(blinker.indicate(server.status()));

    // At least one short blink before the connection, one long blink after.
    assert_eq!(blinks, vec![short.clone(), long, short]);
}
