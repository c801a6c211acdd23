use futures::channel::mpsc::channel;
use kontroller::ble::{Command, Config, Event, Server};
use kontroller::hid::Report;
use kontroller::key::{Config as Thresholds, Level};
use kontroller::kontroller::{make_keymap, Kontroller};
use kontroller::proto::{Button, KeyCode, Konfiguration};

fn report(code: u8) -> Report {
    Report { keycodes: [code, 0, 0, 0, 0, 0], ..Report::default() }
}

#[test]
fn held_enter_delivers_one_report() {
    let config = Konfiguration {
        buttons_poll_interval_micros: 100,
        keymap: Some(make_keymap(vec![(Button::Enter, KeyCode::Enter)])),
    };
    let mut kontroller = Kontroller::new(vec![Button::Enter], config);
    let mut server = Server::initialize(&Config { device_name: "DMD CTL 8K" });
    server.start();
    server.handle(Event::Connected);

    // The pin is held low for a little longer than the debounce timeout.
    let interval = kontroller.poll_interval_micros();
    let held_for = Thresholds::default().debounce + 150;
    let mut delivered = Vec::new();
    let mut now = 0;
    while now <= held_for {
        if let Some(report) = kontroller.poll(&vec![Level::Low], now).report {
            if let Command::Notify(report) = server.handle(Event::Report(report)) {
                delivered.push(report);
            }
        }
        now += interval;
    }

    assert_eq!(delivered.len(), 1);
    assert_eq!(delivered[0].modifier, 0);
    assert_eq!(delivered[0].reserved, 0);
    assert_eq!(delivered[0].keycodes, [0x28, 0, 0, 0, 0, 0]);
    assert_eq!(delivered[0], report(0x28));
    assert_eq!(delivered[0].keyboard_input(), [0, 0, 0x28, 0, 0, 0, 0, 0]);
}

#[test]
fn reports_cross_the_channel_in_order() {
    let (mut tx, mut rx) = channel::<Report>(3);
    for code in [1, 2, 3] {
        tx.try_send(report(code)).unwrap();
    }
    let mut server = Server::initialize(&Config { device_name: "DMD CTL 8K" });
    let mut notified = Vec::new();
    while let Ok(report) = rx.try_recv() {
        if let Command::Notify(report) = server.handle(Event::Report(report)) {
            notified.push(report);
        }
    }
    assert_eq!(notified, vec![report(1), report(2), report(3)]);
}

#[test]
fn full_channel_holds_the_sender_back_and_loses_nothing() {
    // One slot of the channel and one of its only sender.
    let (mut tx, mut rx) = channel::<Report>(1);
    tx.try_send(report(1)).unwrap();
    tx.try_send(report(2)).unwrap();
    let held_back = tx.try_send(report(3)).unwrap_err();
    assert!(held_back.is_full());
    assert_eq!(held_back.into_inner(), report(3));

    assert_eq!(rx.try_recv().ok(), Some(report(1)));
    tx.try_send(report(3)).unwrap();
    assert_eq!(rx.try_recv().ok(), Some(report(2)));
    assert_eq!(rx.try_recv().ok(), Some(report(3)));
    assert_eq!(rx.try_recv().ok(), None);
}
