//! The HID side of the controller: the report it sends and the numbers it
//! announces itself with.

use crate::key::Event;
use vstd::prelude::*;

verus! {

/// Appearance value of a keyboard in a Bluetooth LE advertisement.
pub const BLE_APPEARANCE_KEYBOARD: u16 = 0x03c1;

/// Vendor ID that the device announces.
pub const APPLE_INC_VENDOR_ID: u16 = 0x05ac;

/// Product ID that the device announces.
pub const APPLE_BLUETOOTH_HID_KEYBOARD_PRODUCT_ID: u16 = 0x820a;

/// Number of keys that one report can hold down at once.
pub const KEY_SLOTS: usize = 6;

/// Length in bytes of a keyboard input report.
pub const KEYBOARD_INPUT_LEN: usize = 8;

/// The reports of the composite HID device. Report IDs start from one.
#[derive(Debug, Copy, Clone, PartialEq, Eq, PartialOrd, Ord, Structural)]
pub enum ReportType {
    /// Key presses.
    Keyboard,
    /// Pointer buttons and movement.
    Mouse,
    /// Consumer control keys.
    Media,
    /// System control keys.
    System,
    /// Raw configuration traffic.
    Vial,
}

impl ReportType {
    /// The report ID of this kind of report.
    pub open spec fn spec_id(self) -> u8 {
        match self {
            ReportType::Keyboard => 0x01,
            ReportType::Mouse => 0x02,
            ReportType::Media => 0x03,
            ReportType::System => 0x04,
            ReportType::Vial => 0x05,
        }
    }

    /// The report ID of this kind of report.
    #[verifier::when_used_as_spec(spec_id)]
    pub fn id(self) -> (id: u8)
        ensures
            id == self.spec_id(),
    {
        match self {
            ReportType::Keyboard => 0x01,
            ReportType::Mouse => 0x02,
            ReportType::Media => 0x03,
            ReportType::System => 0x04,
            ReportType::Vial => 0x05,
        }
    }
}

/// One report of the composite device: the state of the keyboard, and the
/// pointer, media, system and raw fields of its other reports.
#[derive(Debug, Clone, Copy, PartialEq, Eq)]
pub struct Report {
    /// Modifier keys, one bit each.
    pub modifier: u8,
    /// Reserved; always zero.
    pub reserved: u8,
    /// Keyboard LEDs, as the host sets them.
    pub leds: u8,
    /// Usage IDs of the keys held down; zero marks a free slot.
    pub keycodes: [u8; 6],
    /// Pointer buttons, one bit each.
    pub buttons: u8,
    /// Pointer movement to the right.
    pub x: i8,
    /// Pointer movement downwards.
    pub y: i8,
    /// Scroll down (negative) or up (positive) this many units.
    pub wheel: i8,
    /// Scroll left (negative) or right (positive) this many units.
    pub pan: i8,
    /// Consumer control usage ID.
    pub media_usage_id: u16,
    /// System control usage ID.
    pub system_usage_id: u8,
    /// Raw data to the host.
    pub vial_input_data: [u8; 32],
    /// Raw data from the host.
    pub vial_output_data: [u8; 32],
}

/// The key slots of a report that holds `codes` down: the codes in their
/// order, as many as there are slots, and zero in the slots that are left.
/// Codes beyond the last slot are dropped.
pub open spec fn key_slots(codes: Seq<u8>) -> Seq<u8> {
    Seq::new(
        KEY_SLOTS as nat,
        |i: int|
            if i < codes.len() {
                codes[i]
            } else {
                0u8
            },
    )
}

/// Slot capping: of six codes or more, a report holds exactly the first
/// six, in their order; what follows them leaves no trace.
pub proof fn lemma_slots_are_capped(codes: Seq<u8>)
    requires
        codes.len() >= KEY_SLOTS,
    ensures
        key_slots(codes) == codes.take(KEY_SLOTS as int),
{
    assert(key_slots(codes) =~= codes.take(KEY_SLOTS as int));
}

/// Of fewer than six codes, a report holds them all, in their order, and
/// leaves the other slots free.
pub proof fn lemma_slots_are_padded(codes: Seq<u8>)
    requires
        codes.len() <= KEY_SLOTS,
    ensures
        key_slots(codes) == codes + Seq::new((KEY_SLOTS - codes.len()) as nat, |i: int| 0u8),
{
    assert(key_slots(codes) =~= codes + Seq::new(
        (KEY_SLOTS - codes.len()) as nat,
        |i: int| 0u8,
    ));
}

/// A table that gives every button of a kind its key code.
pub trait KeyCodes<B> {
    /// The usage ID that a press of `button` sends.
    spec fn spec_code(&self, button: B) -> u8;

    /// The usage ID that a press of `button` sends.
    fn code(&self, button: B) -> (code: u8)
        ensures
            code == self.spec_code(button),
    ;
}

/// The key codes of the presses among `events`, in their order. A release
/// contributes nothing.
pub open spec fn pressed_codes<B, T: KeyCodes<B>>(table: &T, events: Seq<(B, Event)>) -> Seq<u8>
    decreases events.len(),
{
    if events.len() == 0 {
        Seq::empty()
    } else {
        let front = pressed_codes(table, events.drop_last());
        match events.last().1 {
            Event::Down => front.push(table.spec_code(events.last().0)),
            Event::Up => front,
        }
    }
}

/// Releases take no slot: a scan sends what its presses alone would send.
pub proof fn lemma_releases_take_no_slot<B, T: KeyCodes<B>>(table: &T, events: Seq<(B, Event)>)
    ensures
        pressed_codes(table, events) == pressed_codes(
            table,
            events.filter(|event: (B, Event)| event.1 == Event::Down),
        ),
        pressed_codes(table, events).len() <= events.len(),
    decreases events.len(),
{
    let is_press = |event: (B, Event)| event.1 == Event::Down;
    reveal(Seq::filter);
    if events.len() > 0 {
        lemma_releases_take_no_slot(table, events.drop_last());
        let front = events.drop_last().filter(is_press);
        if events.last().1 == Event::Down {
            let presses = events.filter(is_press);
            assert(presses == front.push(events.last()));
            assert(presses.drop_last() == front);
        }
    }
}

/// What one turn of the polling loop has found: the events that the scan
/// raised, and the report to send for them, if there is one to send.
#[derive(Debug, Clone, PartialEq, Eq)]
pub struct Scan<B> {
    /// The events of the scan, each with its button, in the order of the
    /// buttons.
    pub events: Vec<(B, Event)>,
    /// The report to send: none for a scan without events.
    pub report: Option<Report>,
}

/// Assembles the report of one scan: the key codes of the buttons that were
/// pressed fill the key slots from the first one on, in the order of the
/// scan. A release takes no slot, and presses beyond the last slot are
/// dropped.
pub fn assemble<B: Copy, T: KeyCodes<B>>(events: &Vec<(B, Event)>, table: &T) -> (report: Report)
    ensures
        report.only_keys(),
        report.keycodes@ == key_slots(pressed_codes(table, events@)),
{
    let mut codes: Vec<u8> = Vec::new();
    let mut i: usize = 0;
    while i < events.len()
        invariant
            i <= events.len(),
            codes@ == pressed_codes(table, events@.take(i as int)),
        decreases events.len() - i,
    {
        proof {
            assert(events@.take(i + 1).drop_last() == events@.take(i as int));
        }
        let (button, event) = events[i];
        match event {
            Event::Down => codes.push(table.code(button)),
            Event::Up => {},
        }
        i += 1;
    }
    proof {
        assert(events@.take(i as int) == events@);
    }
    Report::with_keys(&codes)
}

/// Ends one turn of the polling loop: a scan that raised no event sends
/// nothing, any other sends exactly one report, assembled from its events.
pub fn conclude<B: Copy, T: KeyCodes<B>>(events: Vec<(B, Event)>, table: &T) -> (scan: Scan<B>)
    ensures
        scan.events@ == events@,
        scan.report is None <==> events@.len() == 0,
        scan.report matches Some(report) ==> report.only_keys() && report.keycodes@ == key_slots(
            pressed_codes(table, events@),
        ),
{
    let report = if events.len() == 0 {
        None
    } else {
        Some(assemble(&events, table))
    };
    Scan { events, report }
}

impl Report {
    /// Every field of the report but its key slots is zero.
    pub open spec fn only_keys(self) -> bool {
        &&& self.modifier == 0
        &&& self.reserved == 0
        &&& self.leds == 0
        &&& self.buttons == 0
        &&& self.x == 0
        &&& self.y == 0
        &&& self.wheel == 0
        &&& self.pan == 0
        &&& self.media_usage_id == 0
        &&& self.system_usage_id == 0
        &&& forall|i: int| 0 <= i < 32 ==> self.vial_input_data[i] == 0
        &&& forall|i: int| 0 <= i < 32 ==> self.vial_output_data[i] == 0
    }

    /// The report reports nothing: every field is zero.
    pub open spec fn is_blank(self) -> bool {
        &&& self.only_keys()
        &&& forall|i: int| 0 <= i < 6 ==> self.keycodes[i] == 0
    }

    /// The keyboard input report as it goes to the host: the modifier byte,
    /// the reserved byte, and the six key slots.
    pub open spec fn spec_keyboard_input(self) -> Seq<u8> {
        seq![self.modifier, self.reserved] + self.keycodes@
    }

    /// Builds the keyboard report that holds `codes` down: the codes fill
    /// the key slots in their order, and those that find no slot are
    /// dropped.
    pub fn with_keys(codes: &Vec<u8>) -> (report: Report)
        ensures
            report.only_keys(),
            report.keycodes@ == key_slots(codes@),
    {
        let mut report = Report::default();
        let mut i: usize = 0;
        while i < KEY_SLOTS && i < codes.len()
            invariant
                i <= KEY_SLOTS,
                i <= codes.len(),
                report.only_keys(),
                forall|j: int| 0 <= j < i ==> report.keycodes[j] == codes@[j],
                forall|j: int| i <= j < KEY_SLOTS ==> report.keycodes[j] == 0,
            decreases KEY_SLOTS - i,
        {
            report.keycodes[i] = codes[i];
            i += 1;
        }
        assert(report.keycodes@ =~= key_slots(codes@));
        report
    }

    /// The bytes of the keyboard input report: the modifier byte, the
    /// reserved byte, and the six key slots, packed in this order.
    pub fn keyboard_input(&self) -> (bytes: [u8; 8])
        ensures
            bytes@ == self.spec_keyboard_input(),
    {
        let bytes = [
            self.modifier,
            self.reserved,
            self.keycodes[0],
            self.keycodes[1],
            self.keycodes[2],
            self.keycodes[3],
            self.keycodes[4],
            self.keycodes[5],
        ];
        assert(bytes@ =~= self.spec_keyboard_input());
        bytes
    }
}

impl Default for Report {
    fn default() -> (report: Report)
        ensures
            report.is_blank(),
    {
        Report {
            modifier: 0,
            reserved: 0,
            leds: 0,
            keycodes: [0u8; 6],
            buttons: 0,
            x: 0,
            y: 0,
            wheel: 0,
            pan: 0,
            media_usage_id: 0,
            system_usage_id: 0,
            vial_input_data: [0u8; 32],
            vial_output_data: [0u8; 32],
        }
    }
}

} // verus!
