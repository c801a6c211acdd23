//! Configuration messages of the controller: its buttons, the key codes
//! it can send, and the keymap that ties one to the other.
//!
//! The messages keep their wire shape: an enumeration travels as an `i32`,
//! and a number that names no variant reads as the enumeration's default.

use vstd::prelude::*;

verus! {

/// A button of the controller, in the form of a hardware key.
#[derive(Clone, Copy, Debug, PartialEq, Eq, Hash, PartialOrd, Ord, Structural)]
pub enum Button {
    /// Default value, must not be used.
    Unspecified,
    /// The directional pad up button.
    Up,
    /// The directional pad down button.
    Down,
    /// The directional pad left button.
    Left,
    /// The directional pad right button.
    Right,
    /// The directional pad enter button.
    Enter,
    /// The first function button.
    Fn1,
    /// The second function button.
    Fn2,
    /// The third function button.
    Fn3,
}

impl Button {
    /// The number that stands for the button on the wire.
    pub open spec fn spec_number(self) -> i32 {
        match self {
            Button::Unspecified => 0,
            Button::Up => 1,
            Button::Down => 2,
            Button::Left => 3,
            Button::Right => 4,
            Button::Enter => 5,
            Button::Fn1 => 6,
            Button::Fn2 => 7,
            Button::Fn3 => 8,
        }
    }

    /// The button that `value` stands for, if it stands for one.
    pub open spec fn spec_from_i32(value: i32) -> Option<Button> {
        if value == 0 {
            Some(Button::Unspecified)
        } else if value == 1 {
            Some(Button::Up)
        } else if value == 2 {
            Some(Button::Down)
        } else if value == 3 {
            Some(Button::Left)
        } else if value == 4 {
            Some(Button::Right)
        } else if value == 5 {
            Some(Button::Enter)
        } else if value == 6 {
            Some(Button::Fn1)
        } else if value == 7 {
            Some(Button::Fn2)
        } else if value == 8 {
            Some(Button::Fn3)
        } else {
            None
        }
    }

    /// The field name of the button, as a sequence of characters.
    pub open spec fn spec_name(self) -> Seq<char> {
        match self {
            Button::Unspecified => "BUTTON_UNSPECIFIED"@,
            Button::Up => "BUTTON_UP"@,
            Button::Down => "BUTTON_DOWN"@,
            Button::Left => "BUTTON_LEFT"@,
            Button::Right => "BUTTON_RIGHT"@,
            Button::Enter => "BUTTON_ENTER"@,
            Button::Fn1 => "BUTTON_FN1"@,
            Button::Fn2 => "BUTTON_FN2"@,
            Button::Fn3 => "BUTTON_FN3"@,
        }
    }

    /// The button whose field name is `name`, if there is one.
    pub open spec fn spec_from_name(name: Seq<char>) -> Option<Button> {
        if name == Button::Unspecified.spec_name() {
            Some(Button::Unspecified)
        } else if name == Button::Up.spec_name() {
            Some(Button::Up)
        } else if name == Button::Down.spec_name() {
            Some(Button::Down)
        } else if name == Button::Left.spec_name() {
            Some(Button::Left)
        } else if name == Button::Right.spec_name() {
            Some(Button::Right)
        } else if name == Button::Enter.spec_name() {
            Some(Button::Enter)
        } else if name == Button::Fn1.spec_name() {
            Some(Button::Fn1)
        } else if name == Button::Fn2.spec_name() {
            Some(Button::Fn2)
        } else if name == Button::Fn3.spec_name() {
            Some(Button::Fn3)
        } else {
            None
        }
    }

    /// The number that stands for the button on the wire.
    #[verifier::when_used_as_spec(spec_number)]
    pub fn number(self) -> (number: i32)
        ensures
            number == self.spec_number(),
    {
        match self {
            Button::Unspecified => 0,
            Button::Up => 1,
            Button::Down => 2,
            Button::Left => 3,
            Button::Right => 4,
            Button::Enter => 5,
            Button::Fn1 => 6,
            Button::Fn2 => 7,
            Button::Fn3 => 8,
        }
    }

    /// Reads a button from its number on the wire; `None` if the number
    /// stands for no button.
    pub fn from_i32(value: i32) -> (button: Option<Button>)
        ensures
            button == Button::spec_from_i32(value),
    {
        match value {
            0 => Some(Button::Unspecified),
            1 => Some(Button::Up),
            2 => Some(Button::Down),
            3 => Some(Button::Left),
            4 => Some(Button::Right),
            5 => Some(Button::Enter),
            6 => Some(Button::Fn1),
            7 => Some(Button::Fn2),
            8 => Some(Button::Fn3),
            _ => None,
        }
    }

    /// String value of the enum field name used in the message definition.
    ///
    /// The values are not transformed in any way and thus are considered
    /// stable and safe for programmatic use.
    pub fn as_str_name(&self) -> (name: &'static str)
        ensures
            name@ == self.spec_name(),
    {
        match self {
            Button::Unspecified => "BUTTON_UNSPECIFIED",
            Button::Up => "BUTTON_UP",
            Button::Down => "BUTTON_DOWN",
            Button::Left => "BUTTON_LEFT",
            Button::Right => "BUTTON_RIGHT",
            Button::Enter => "BUTTON_ENTER",
            Button::Fn1 => "BUTTON_FN1",
            Button::Fn2 => "BUTTON_FN2",
            Button::Fn3 => "BUTTON_FN3",
        }
    }

    /// Creates an enum from a field name used in the message definition.
    pub fn from_str_name(value: &str) -> (button: Option<Button>)
        ensures
            button == Button::spec_from_name(value@),
    {
        if same_text(value, "BUTTON_UNSPECIFIED") {
            Some(Button::Unspecified)
        } else if same_text(value, "BUTTON_UP") {
            Some(Button::Up)
        } else if same_text(value, "BUTTON_DOWN") {
            Some(Button::Down)
        } else if same_text(value, "BUTTON_LEFT") {
            Some(Button::Left)
        } else if same_text(value, "BUTTON_RIGHT") {
            Some(Button::Right)
        } else if same_text(value, "BUTTON_ENTER") {
            Some(Button::Enter)
        } else if same_text(value, "BUTTON_FN1") {
            Some(Button::Fn1)
        } else if same_text(value, "BUTTON_FN2") {
            Some(Button::Fn2)
        } else if same_text(value, "BUTTON_FN3") {
            Some(Button::Fn3)
        } else {
            None
        }
    }

    /// A button is read back from its own number.
    pub proof fn lemma_number_round_trip(self)
        ensures
            Button::spec_from_i32(self.spec_number()) == Some(self),
    {
    }

    /// A number that reads as a button is that button's number.
    pub proof fn lemma_from_i32_is_exact(value: i32)
        ensures
            Button::spec_from_i32(value) matches Some(button) ==> button.spec_number() == value,
    {
    }

    /// A button is read back from its own field name: no two buttons share
    /// one.
    pub proof fn lemma_name_round_trip(self)
        ensures
            Button::spec_from_name(self.spec_name()) == Some(self),
    {
        reveal_strlit("BUTTON_UNSPECIFIED");
        reveal_strlit("BUTTON_UP");
        reveal_strlit("BUTTON_DOWN");
        reveal_strlit("BUTTON_LEFT");
        reveal_strlit("BUTTON_RIGHT");
        reveal_strlit("BUTTON_ENTER");
        reveal_strlit("BUTTON_FN1");
        reveal_strlit("BUTTON_FN2");
        reveal_strlit("BUTTON_FN3");
        assert("BUTTON_UNSPECIFIED"@.len() == 18);
        assert("BUTTON_UP"@.len() == 9);
        assert("BUTTON_DOWN"@.len() == 11);
        assert("BUTTON_LEFT"@.len() == 11);
        assert("BUTTON_RIGHT"@.len() == 12);
        assert("BUTTON_ENTER"@.len() == 12);
        assert("BUTTON_FN1"@.len() == 10);
        assert("BUTTON_FN2"@.len() == 10);
        assert("BUTTON_FN3"@.len() == 10);
        assert("BUTTON_DOWN"@[7] == 'D' && "BUTTON_LEFT"@[7] == 'L');
        assert("BUTTON_RIGHT"@[7] == 'R' && "BUTTON_ENTER"@[7] == 'E');
        assert("BUTTON_FN1"@[9] == '1' && "BUTTON_FN2"@[9] == '2' && "BUTTON_FN3"@[9] == '3');
    }
}

impl Default for Button {
    fn default() -> (button: Button)
        ensures
            button == Button::Unspecified,
    {
        Button::Unspecified
    }
}

/// A key of the HID keyboard usage page that a button can stand for. Its
/// number on the wire is its usage ID.
#[derive(Clone, Copy, Debug, PartialEq, Eq, Hash, PartialOrd, Ord, Structural)]
pub enum KeyCode {
    /// No key: a slot that holds it reports nothing.
    Unspecified,
    /// Return.
    Enter,
    /// F5.
    F5,
    /// F6.
    F6,
    /// F7.
    F7,
    /// Right arrow.
    Right,
    /// Left arrow.
    Left,
    /// Down arrow.
    Down,
    /// Up arrow.
    Up,
}

impl KeyCode {
    /// The usage ID of the key, which is also its number on the wire.
    pub open spec fn spec_usage(self) -> u8 {
        match self {
            KeyCode::Unspecified => 0x00,
            KeyCode::Enter => 0x28,
            KeyCode::F5 => 0x3e,
            KeyCode::F6 => 0x3f,
            KeyCode::F7 => 0x40,
            KeyCode::Right => 0x4f,
            KeyCode::Left => 0x50,
            KeyCode::Down => 0x51,
            KeyCode::Up => 0x52,
        }
    }

    /// The key that `value` stands for, if it stands for one.
    pub open spec fn spec_from_i32(value: i32) -> Option<KeyCode> {
        if value == 0x00 {
            Some(KeyCode::Unspecified)
        } else if value == 0x28 {
            Some(KeyCode::Enter)
        } else if value == 0x3e {
            Some(KeyCode::F5)
        } else if value == 0x3f {
            Some(KeyCode::F6)
        } else if value == 0x40 {
            Some(KeyCode::F7)
        } else if value == 0x4f {
            Some(KeyCode::Right)
        } else if value == 0x50 {
            Some(KeyCode::Left)
        } else if value == 0x51 {
            Some(KeyCode::Down)
        } else if value == 0x52 {
            Some(KeyCode::Up)
        } else {
            None
        }
    }

    /// The usage ID of the key: the byte that a report slot holds for it.
    #[verifier::when_used_as_spec(spec_usage)]
    pub fn usage(self) -> (usage: u8)
        ensures
            usage == self.spec_usage(),
    {
        match self {
            KeyCode::Unspecified => 0x00,
            KeyCode::Enter => 0x28,
            KeyCode::F5 => 0x3e,
            KeyCode::F6 => 0x3f,
            KeyCode::F7 => 0x40,
            KeyCode::Right => 0x4f,
            KeyCode::Left => 0x50,
            KeyCode::Down => 0x51,
            KeyCode::Up => 0x52,
        }
    }

    /// The number that stands for the key on the wire.
    pub fn number(self) -> (number: i32)
        ensures
            number == self.spec_usage(),
    {
        let usage: u8 = self.usage();
        usage as i32
    }

    /// Reads a key from its number on the wire; `None` if the number stands
    /// for no key.
    pub fn from_i32(value: i32) -> (code: Option<KeyCode>)
        ensures
            code == KeyCode::spec_from_i32(value),
    {
        match value {
            0x00 => Some(KeyCode::Unspecified),
            0x28 => Some(KeyCode::Enter),
            0x3e => Some(KeyCode::F5),
            0x3f => Some(KeyCode::F6),
            0x40 => Some(KeyCode::F7),
            0x4f => Some(KeyCode::Right),
            0x50 => Some(KeyCode::Left),
            0x51 => Some(KeyCode::Down),
            0x52 => Some(KeyCode::Up),
            _ => None,
        }
    }

    /// A key is read back from its own number.
    pub proof fn lemma_number_round_trip(self)
        ensures
            KeyCode::spec_from_i32(self.spec_usage() as i32) == Some(self),
    {
    }
}

impl Default for KeyCode {
    fn default() -> (code: KeyCode)
        ensures
            code == KeyCode::Unspecified,
    {
        KeyCode::Unspecified
    }
}

/// A keymap entry, i.e. the association between one button and a key code.
#[derive(Clone, Copy, Debug, PartialEq, Eq, Structural)]
pub struct Entry {
    /// The physical button, by its number.
    pub button: i32,
    /// The key code to apply to the physical button, by its number.
    pub key_code: i32,
}

impl Entry {
    /// The button of the entry; `Unspecified` where the number stands for
    /// none.
    pub open spec fn spec_button(&self) -> Button {
        match Button::spec_from_i32(self.button) {
            Some(button) => button,
            None => Button::Unspecified,
        }
    }

    /// The key code of the entry; `Unspecified` where the number stands for
    /// none.
    pub open spec fn spec_key_code(&self) -> KeyCode {
        match KeyCode::spec_from_i32(self.key_code) {
            Some(code) => code,
            None => KeyCode::Unspecified,
        }
    }

    /// The entry that maps `button` to `code`.
    pub open spec fn spec_new(button: Button, code: KeyCode) -> Entry {
        Entry { button: button.spec_number(), key_code: code.spec_usage() as i32 }
    }

    /// Builds the entry that maps `button` to `code`.
    pub fn new(button: Button, code: KeyCode) -> (entry: Entry)
        ensures
            entry == Entry::spec_new(button, code),
            entry.button() == button,
            entry.key_code() == code,
    {
        Entry { button: button.number(), key_code: code.number() }
    }

    /// The button of the entry; `Unspecified` where the number stands for
    /// none.
    #[verifier::when_used_as_spec(spec_button)]
    pub fn button(&self) -> (button: Button)
        ensures
            button == self.spec_button(),
    {
        match Button::from_i32(self.button) {
            Some(button) => button,
            None => Button::Unspecified,
        }
    }

    /// The key code of the entry; `Unspecified` where the number stands for
    /// none.
    #[verifier::when_used_as_spec(spec_key_code)]
    pub fn key_code(&self) -> (code: KeyCode)
        ensures
            code == self.spec_key_code(),
    {
        match KeyCode::from_i32(self.key_code) {
            Some(code) => code,
            None => KeyCode::Unspecified,
        }
    }
}

impl Default for Entry {
    fn default() -> (entry: Entry)
        ensures
            entry == (Entry { button: 0, key_code: 0 }),
    {
        Entry { button: 0, key_code: 0 }
    }
}

/// A keymap for the controller, i.e. the list of which HID key code to
/// apply to a specific physical button press.
#[derive(Clone, Debug, PartialEq, Eq)]
pub struct Keymap {
    /// All the keymap entries.
    pub entries: Vec<Entry>,
}

impl Keymap {
    /// The key code of the first among `entries` that is for `button`.
    pub open spec fn first_match(entries: Seq<Entry>, button: Button) -> Option<KeyCode>
        decreases entries.len(),
    {
        if entries.len() == 0 {
            None
        } else if entries.first().spec_button() == button {
            Some(entries.first().spec_key_code())
        } else {
            Keymap::first_match(entries.drop_first(), button)
        }
    }

    /// The key code that the keymap gives `button`: that of its first entry
    /// for the button.
    pub open spec fn spec_find(&self, button: Button) -> Option<KeyCode> {
        Keymap::first_match(self.entries@, button)
    }

    /// Looks `button` up: the key code of the first entry for it, if there
    /// is one.
    #[verifier::when_used_as_spec(spec_find)]
    pub fn find(&self, button: Button) -> (code: Option<KeyCode>)
        ensures
            code == self.spec_find(button),
    {
        let mut i: usize = 0;
        proof {
            assert(self.entries@.skip(0) == self.entries@);
        }
        while i < self.entries.len()
            invariant
                i <= self.entries.len(),
                Keymap::first_match(self.entries@, button) == Keymap::first_match(
                    self.entries@.skip(i as int),
                    button,
                ),
            decreases self.entries.len() - i,
        {
            let entry = &self.entries[i];
            proof {
                let rest = self.entries@.skip(i as int);
                assert(rest.first() == self.entries@[i as int]);
                assert(rest.drop_first() == self.entries@.skip(i + 1));
            }
            if entry.button() == button {
                return Some(entry.key_code());
            }
            i += 1;
        }
        None
    }
}

impl Default for Keymap {
    fn default() -> (keymap: Keymap)
        ensures
            keymap.entries@.len() == 0,
    {
        Keymap { entries: Vec::new() }
    }
}

/// A controller configuration.
#[derive(Clone, Debug, PartialEq, Eq)]
pub struct Konfiguration {
    /// The interval between each polling call for hardware buttons state.
    /// Expressed in microseconds.
    pub buttons_poll_interval_micros: u64,
    /// The keymap for the controller, i.e. which HID key codes to apply to a
    /// physical button press.
    pub keymap: Option<Keymap>,
}

impl Konfiguration {
    /// The key code that a press of `button` sends: what the keymap gives
    /// it, and `Unspecified` for the unspecified button, without a keymap,
    /// or without an entry.
    pub open spec fn spec_key_code(&self, button: Button) -> KeyCode {
        if button == Button::Unspecified {
            KeyCode::Unspecified
        } else {
            match self.keymap {
                Some(keymap) => match keymap.spec_find(button) {
                    Some(code) => code,
                    None => KeyCode::Unspecified,
                },
                None => KeyCode::Unspecified,
            }
        }
    }

    /// The key code that a press of `button` sends.
    #[verifier::when_used_as_spec(spec_key_code)]
    pub fn key_code(&self, button: Button) -> (code: KeyCode)
        ensures
            code == self.spec_key_code(button),
    {
        if button == Button::Unspecified {
            return KeyCode::Unspecified;
        }
        match &self.keymap {
            Some(keymap) => match keymap.find(button) {
                Some(code) => code,
                None => KeyCode::Unspecified,
            },
            None => KeyCode::Unspecified,
        }
    }
}

impl Default for Konfiguration {
    fn default() -> (config: Konfiguration)
        ensures
            config.buttons_poll_interval_micros == 0,
            config.keymap is None,
    {
        Konfiguration { buttons_poll_interval_micros: 0, keymap: None }
    }
}

/// Whether two string slices hold the same characters.
fn same_text(a: &str, b: &str) -> (same: bool)
    ensures
        same == (a@ == b@),
{
    let a = a.to_owned();
    let b = b.to_owned();
    a == b
}

} // verus!
