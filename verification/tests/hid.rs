use kontroller::hid::{
    Report, ReportType, APPLE_BLUETOOTH_HID_KEYBOARD_PRODUCT_ID, APPLE_INC_VENDOR_ID,
    BLE_APPEARANCE_KEYBOARD, KEYBOARD_INPUT_LEN, KEY_SLOTS,
};

#[test]
fn device_numbers_are_the_announced_ones() {
    assert_eq!(BLE_APPEARANCE_KEYBOARD, 0x03c1);
    assert_eq!(APPLE_INC_VENDOR_ID, 0x05ac);
    assert_eq!(APPLE_BLUETOOTH_HID_KEYBOARD_PRODUCT_ID, 0x820a);
    assert_eq!(KEY_SLOTS, 6);
    assert_eq!(KEYBOARD_INPUT_LEN, 8);
}

#[test]
fn report_ids_start_from_one() {
    assert_eq!(ReportType::Keyboard.id(), 0x01);
    assert_eq!(ReportType::Mouse.id(), 0x02);
    assert_eq!(ReportType::Media.id(), 0x03);
    assert_eq!(ReportType::System.id(), 0x04);
    assert_eq!(ReportType::Vial.id(), 0x05);
}

#[test]
fn default_report_is_all_zero() {
    let report = Report::default();
    assert_eq!(report.modifier, 0);
    assert_eq!(report.reserved, 0);
    assert_eq!(report.leds, 0);
    assert_eq!(report.keycodes, [0; 6]);
    assert_eq!(report.buttons, 0);
    assert_eq!(report.x, 0);
    assert_eq!(report.y, 0);
    assert_eq!(report.wheel, 0);
    assert_eq!(report.pan, 0);
    assert_eq!(report.media_usage_id, 0);
    assert_eq!(report.system_usage_id, 0);
    assert_eq!(report.vial_input_data, [0; 32]);
    assert_eq!(report.vial_output_data, [0; 32]);
}

#[test]
fn keys_fill_the_slots_in_order() {
    let report = Report::with_keys(&vec![0x28, 0x52]);
    assert_eq!(report, Report { keycodes: [0x28, 0x52, 0, 0, 0, 0], ..Report::default() });
}

#[test]
fn no_keys_give_the_blank_report() {
    assert_eq!(Report::with_keys(&Vec::new()), Report::default());
}

#[test]
fn six_keys_fill_every_slot() {
    let report = Report::with_keys(&vec![1, 2, 3, 4, 5, 6]);
    assert_eq!(report.keycodes, [1, 2, 3, 4, 5, 6]);
}

#[test]
fn keys_beyond_the_sixth_are_dropped() {
    let report = Report::with_keys(&vec![1, 2, 3, 4, 5, 6, 7, 8, 9]);
    assert_eq!(report, Report { keycodes: [1, 2, 3, 4, 5, 6], ..Report::default() });
    assert_eq!(report, Report::with_keys(&vec![1, 2, 3, 4, 5, 6]));
}

#[test]
fn a_free_slot_between_keys_is_kept() {
    let report = Report::with_keys(&vec![0, 0x28, 0, 0x51]);
    assert_eq!(report.keycodes, [0, 0x28, 0, 0x51, 0, 0]);
}

#[test]
fn keyboard_input_is_modifier_reserved_and_keys() {
    let report = Report {
        modifier: 0x02,
        reserved: 0x00,
        leds: 0xff,
        keycodes: [0x28, 0x4f, 0x50, 0x51, 0x52, 0x3e],
        buttons: 0xaa,
        ..Report::default()
    };
    assert_eq!(report.keyboard_input(), [0x02, 0x00, 0x28, 0x4f, 0x50, 0x51, 0x52, 0x3e]);
    assert_eq!(report.keyboard_input().len(), KEYBOARD_INPUT_LEN);
}

#[test]
fn keyboard_input_of_the_blank_report_is_all_zero() {
    assert_eq!(Report::default().keyboard_input(), [0; 8]);
}
