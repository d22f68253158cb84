//! Keys of a keyboard or gamepad, and the set of keys currently held down.

use vstd::prelude::*;

verus! {

/// A key on a keyboard or a button on a gamepad.
#[derive(Debug, Clone, Copy, PartialEq, Eq, Structural)]
pub enum Key {
    // Letters
    A,
    B,
    C,
    D,
    E,
    F,
    G,
    H,
    I,
    J,
    K,
    L,
    M,
    N,
    O,
    P,
    Q,
    R,
    S,
    T,
    U,
    V,
    W,
    X,
    Y,
    Z,
    // Digits
    N1,
    N2,
    N3,
    N4,
    N5,
    N6,
    N7,
    N8,
    N9,
    N0,
    // Punctuation
    Hyphen,
    Equal,
    LeftBracket,
    RightBracket,
    Backslash,
    Semicolon,
    Apostrophe,
    Grave,
    Comma,
    Period,
    Slash,
    // Special keys
    Space,
    Tab,
    Enter,
    Backspace,
    CapsLock,
    // Function keys
    F1,
    F2,
    F3,
    F4,
    F5,
    F6,
    F7,
    F8,
    F9,
    F10,
    F11,
    F12,
    F13,
    F14,
    F15,
    F16,
    F17,
    F18,
    F19,
    F20,
    F21,
    F22,
    F23,
    F24,
    // Arrow keys
    Up,
    Down,
    Left,
    Right,
    // Modifier keys
    LeftCtrl,
    LeftShift,
    LeftAlt,
    LeftGui,
    RightCtrl,
    RightShift,
    RightAlt,
    RightGui,
    // Gamepad buttons
    DPadUp,
    DPadDown,
    DPadLeft,
    DPadRight,
    Start,
    Back,
    LeftThumb,
    RightThumb,
    LeftShoulder,
    RightShoulder,
    North,
    East,
    South,
    West,
    LeftTrigger,
    RightTrigger,
    LeftJoystick,
    RightJoystick,
    // A key that no code stands for
    Unknown,
}

/// The key that a keyboard usage code stands for; `Key::Unknown` for a code
/// that stands for none.
pub open spec fn key_of_code(code: u8) -> Key {
    match code {
        4 => Key::A,
        5 => Key::B,
        6 => Key::C,
        7 => Key::D,
        8 => Key::E,
        9 => Key::F,
        10 => Key::G,
        11 => Key::H,
        12 => Key::I,
        13 => Key::J,
        14 => Key::K,
        15 => Key::L,
        16 => Key::M,
        17 => Key::N,
        18 => Key::O,
        19 => Key::P,
        20 => Key::Q,
        21 => Key::R,
        22 => Key::S,
        23 => Key::T,
        24 => Key::U,
        25 => Key::V,
        26 => Key::W,
        27 => Key::X,
        28 => Key::Y,
        29 => Key::Z,
        30 => Key::N1,
        31 => Key::N2,
        32 => Key::N3,
        33 => Key::N4,
        34 => Key::N5,
        35 => Key::N6,
        36 => Key::N7,
        37 => Key::N8,
        38 => Key::N9,
        39 => Key::N0,
        40 => Key::Enter,
        42 => Key::Backspace,
        43 => Key::Tab,
        44 => Key::Space,
        57 => Key::CapsLock,
        45 => Key::Hyphen,
        46 => Key::Equal,
        47 => Key::LeftBracket,
        48 => Key::RightBracket,
        49 => Key::Backslash,
        51 => Key::Semicolon,
        52 => Key::Apostrophe,
        53 => Key::Grave,
        54 => Key::Comma,
        55 => Key::Period,
        56 => Key::Slash,
        58 => Key::F1,
        59 => Key::F2,
        60 => Key::F3,
        61 => Key::F4,
        62 => Key::F5,
        63 => Key::F6,
        64 => Key::F7,
        65 => Key::F8,
        66 => Key::F9,
        67 => Key::F10,
        68 => Key::F11,
        69 => Key::F12,
        70 => Key::F13,
        71 => Key::F14,
        72 => Key::F15,
        73 => Key::F16,
        74 => Key::F17,
        75 => Key::F18,
        76 => Key::F19,
        77 => Key::F20,
        78 => Key::F21,
        79 => Key::F22,
        80 => Key::F23,
        81 => Key::F24,
        82 => Key::Up,
        83 => Key::Down,
        84 => Key::Left,
        85 => Key::Right,
        224 => Key::LeftCtrl,
        225 => Key::LeftShift,
        226 => Key::LeftAlt,
        227 => Key::LeftGui,
        228 => Key::RightCtrl,
        229 => Key::RightShift,
        230 => Key::RightAlt,
        231 => Key::RightGui,
        _ => Key::Unknown,
    }
}

impl Key {
    /// Converts a keyboard usage code to a key.
    ///
    /// Every code has an answer: one that stands for no key gives
    /// `Key::Unknown`.
    pub fn from_code(code: u8) -> (key: Option<Self>)
        ensures
            key == Some(key_of_code(code)),
    {
        match code {
            4 => Some(Self::A),
            5 => Some(Self::B),
            6 => Some(Self::C),
            7 => Some(Self::D),
            8 => Some(Self::E),
            9 => Some(Self::F),
            10 => Some(Self::G),
            11 => Some(Self::H),
            12 => Some(Self::I),
            13 => Some(Self::J),
            14 => Some(Self::K),
            15 => Some(Self::L),
            16 => Some(Self::M),
            17 => Some(Self::N),
            18 => Some(Self::O),
            19 => Some(Self::P),
            20 => Some(Self::Q),
            21 => Some(Self::R),
            22 => Some(Self::S),
            23 => Some(Self::T),
            24 => Some(Self::U),
            25 => Some(Self::V),
            26 => Some(Self::W),
            27 => Some(Self::X),
            28 => Some(Self::Y),
            29 => Some(Self::Z),
            30 => Some(Self::N1),
            31 => Some(Self::N2),
            32 => Some(Self::N3),
            33 => Some(Self::N4),
            34 => Some(Self::N5),
            35 => Some(Self::N6),
            36 => Some(Self::N7),
            37 => Some(Self::N8),
            38 => Some(Self::N9),
            39 => Some(Self::N0),
            40 => Some(Self::Enter),
            42 => Some(Self::Backspace),
            43 => Some(Self::Tab),
            44 => Some(Self::Space),
            57 => Some(Self::CapsLock),
            45 => Some(Self::Hyphen),
            46 => Some(Self::Equal),
            47 => Some(Self::LeftBracket),
            48 => Some(Self::RightBracket),
            49 => Some(Self::Backslash),
            51 => Some(Self::Semicolon),
            52 => Some(Self::Apostrophe),
            53 => Some(Self::Grave),
            54 => Some(Self::Comma),
            55 => Some(Self::Period),
            56 => Some(Self::Slash),
            58 => Some(Self::F1),
            59 => Some(Self::F2),
            60 => Some(Self::F3),
            61 => Some(Self::F4),
            62 => Some(Self::F5),
            63 => Some(Self::F6),
            64 => Some(Self::F7),
            65 => Some(Self::F8),
            66 => Some(Self::F9),
            67 => Some(Self::F10),
            68 => Some(Self::F11),
            69 => Some(Self::F12),
            70 => Some(Self::F13),
            71 => Some(Self::F14),
            72 => Some(Self::F15),
            73 => Some(Self::F16),
            74 => Some(Self::F17),
            75 => Some(Self::F18),
            76 => Some(Self::F19),
            77 => Some(Self::F20),
            78 => Some(Self::F21),
            79 => Some(Self::F22),
            80 => Some(Self::F23),
            81 => Some(Self::F24),
            82 => Some(Self::Up),
            83 => Some(Self::Down),
            84 => Some(Self::Left),
            85 => Some(Self::Right),
            224 => Some(Self::LeftCtrl),
            225 => Some(Self::LeftShift),
            226 => Some(Self::LeftAlt),
            227 => Some(Self::LeftGui),
            228 => Some(Self::RightCtrl),
            229 => Some(Self::RightShift),
            230 => Some(Self::RightAlt),
            231 => Some(Self::RightGui),
            _ => Some(Self::Unknown),
        }
    }
}

/// The usage page of keyboard keys. Input from any other page is not a key.
pub const USAGE_PAGE_KEYBOARD: u32 = 0x07;

/// What an input value means: the key it is about and whether the key went
/// down (`true`) or up (`false`), or nothing where the input is not from the
/// keyboard page or its usage stands for no key. Of the usage only the low
/// eight bits count.
pub open spec fn key_event(usage_page: u32, usage: u32, value: i64) -> Option<(Key, bool)> {
    let key = key_of_code((usage % 256) as u8);
    if usage_page == USAGE_PAGE_KEYBOARD && key != Key::Unknown {
        Some((key, value != 0))
    } else {
        None
    }
}

/// The keys held down after an event: a key that went down is added at the
/// end, also where it is there already; a key that went up is taken out
/// wherever it stands.
pub open spec fn after_event(pressed: Seq<Key>, event: Option<(Key, bool)>) -> Seq<Key> {
    match event {
        None => pressed,
        Some((key, true)) => pressed.push(key),
        Some((key, false)) => pressed.filter(|held: Key| held != key),
    }
}

/// The keys that are held down, in the order in which they went down, and an
/// optional callback that hears of every key that goes down or up.
pub struct Keyboard<F: Fn(Key, bool)> {
    keys: Vec<Key>,
    callback: Option<F>,
}

impl<F: Fn(Key, bool)> Keyboard<F> {
    /// The keys that are held down.
    pub closed spec fn pressed(&self) -> Seq<Key> {
        self.keys@
    }

    /// The callback, if one is set.
    pub closed spec fn callback(&self) -> Option<F> {
        self.callback
    }

    /// Whether the callback, if one is set, takes every key and either
    /// direction.
    pub open spec fn listening(&self) -> bool {
        self.callback() matches Some(callback) ==> forall|key: Key, down: bool|
            call_requires(callback, (key, down))
    }

    /// A keyboard with no key held down and no callback.
    pub fn new() -> (keyboard: Self)
        ensures
            keyboard.pressed() == Seq::<Key>::empty(),
            keyboard.callback() is None,
    {
        Self { keys: Vec::new(), callback: None }
    }

    /// Takes `key` out of the keys held down, wherever it stands.
    fn release(&mut self, key: Key)
        ensures
            final(self).pressed() == old(self).pressed().filter(|held: Key| held != key),
            final(self).callback() == old(self).callback(),
    {
        let ghost keep = |held: Key| held != key;
        let mut kept: Vec<Key> = Vec::new();
        let mut i: usize = 0;
        proof {
            reveal(Seq::filter);
            assert(self.keys@.take(0) =~= Seq::<Key>::empty());
        }
        while i < self.keys.len()
            invariant
                i <= self.keys@.len(),
                keep == |held: Key| held != key,
                kept@ == self.keys@.take(i as int).filter(keep),
                *self == *old(self),
            decreases self.keys@.len() - i,
        {
            let held: Key = self.keys[i];
            proof {
                reveal(Seq::filter);
                let next = self.keys@.take(i + 1);
                assert(next.drop_last() =~= self.keys@.take(i as int));
                assert(next.last() == held);
            }
            if held != key {
                kept.push(held);
            }
            i += 1;
        }
        proof {
            assert(self.keys@.take(i as int) =~= self.keys@);
        }
        self.keys = kept;
    }
}

/// The keys that are held down, in the order in which they went down.
pub fn keys<F: Fn(Key, bool)>(keyboard: &Keyboard<F>) -> (pressed: Vec<Key>)
    ensures
        pressed@ == keyboard.pressed(),
{
    keyboard.keys.clone()
}

/// Sets the callback that hears of keys going down and up, in place of the
/// one set before, or sets none.
pub fn set_callback<F: Fn(Key, bool)>(keyboard: &mut Keyboard<F>, callback: Option<F>)
    ensures
        final(keyboard).callback() == callback,
        final(keyboard).pressed() == old(keyboard).pressed(),
{
    keyboard.callback = callback;
}

/// Takes one input value from a human interface device.
///
/// Where the value is a key going down or up, the keys held down change
/// accordingly, the callback, if one is set, is called with the key and its
/// direction, and both are returned. Any other input changes nothing.
pub fn input_value<F: Fn(Key, bool)>(
    keyboard: &mut Keyboard<F>,
    usage_page: u32,
    usage: u32,
    value: i64,
) -> (event: Option<(Key, bool)>)
    requires
        old(keyboard).listening(),
    ensures
        event == key_event(usage_page, usage, value),
        final(keyboard).pressed() == after_event(old(keyboard).pressed(), event),
        final(keyboard).callback() == old(keyboard).callback(),
        event is Some && old(keyboard).callback() is Some ==> call_ensures(
            old(keyboard).callback()->Some_0,
            event->Some_0,
            (),
        ),
{
    if usage_page != USAGE_PAGE_KEYBOARD {
        return None;
    }
    let code: u8 = (usage % 256) as u8;
    let key: Key = match Key::from_code(code) {
        Some(key) => key,
        None => Key::Unknown,
    };
    if key == Key::Unknown {
        return None;
    }
    let down: bool = value != 0;
    if down {
        keyboard.keys.push(key);
    } else {
        keyboard.release(key);
    }
    match &keyboard.callback {
        Some(callback) => {
            callback(key, down);
        },
        None => {},
    }
    Some((key, down))
}

} // verus!
