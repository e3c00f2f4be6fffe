//! Physical key identities and the integer code each one is stored under.

use vstd::prelude::*;

verus! {

/// A physical key, named by its position on a standard QWERTY layout.
///
/// Keys the layout does not name are carried by the code the platform
/// reported for them.
#[derive(Clone, Copy, Debug, PartialEq, Eq, PartialOrd, Ord, Hash, Structural)]
pub enum Key {
    Alt,
    AltGr,
    Backspace,
    CapsLock,
    ControlLeft,
    ControlRight,
    Delete,
    DownArrow,
    End,
    Escape,
    F1,
    F10,
    F11,
    F12,
    F2,
    F3,
    F4,
    F5,
    F6,
    F7,
    F8,
    F9,
    Home,
    LeftArrow,
    MetaLeft,
    MetaRight,
    PageDown,
    PageUp,
    Return,
    RightArrow,
    ShiftLeft,
    ShiftRight,
    Space,
    Tab,
    UpArrow,
    PrintScreen,
    ScrollLock,
    Pause,
    NumLock,
    BackQuote,
    Num1,
    Num2,
    Num3,
    Num4,
    Num5,
    Num6,
    Num7,
    Num8,
    Num9,
    Num0,
    Minus,
    Equal,
    KeyQ,
    KeyW,
    KeyE,
    KeyR,
    KeyT,
    KeyY,
    KeyU,
    KeyI,
    KeyO,
    KeyP,
    LeftBracket,
    RightBracket,
    KeyA,
    KeyS,
    KeyD,
    KeyF,
    KeyG,
    KeyH,
    KeyJ,
    KeyK,
    KeyL,
    SemiColon,
    Quote,
    BackSlash,
    IntlBackslash,
    KeyZ,
    KeyX,
    KeyC,
    KeyV,
    KeyB,
    KeyN,
    KeyM,
    Comma,
    Dot,
    Slash,
    Insert,
    KpReturn,
    KpMinus,
    KpPlus,
    KpMultiply,
    KpDivide,
    Kp0,
    Kp1,
    Kp2,
    Kp3,
    Kp4,
    Kp5,
    Kp6,
    Kp7,
    Kp8,
    Kp9,
    KpDelete,
    Function,
    Unknown(u32),
}

/// The first code given to keys that carry a platform code of their own.
pub const UNKNOWN_CODE_BASE: u64 = 0x1_0000_0000;

impl Key {
    /// The integer a key is stored under: named keys count up from zero in
    /// declaration order, and `Unknown(n)` sits at `UNKNOWN_CODE_BASE + n`.
    pub open spec fn code_spec(self) -> u64 {
        match self {
            Key::Alt => 0,
            Key::AltGr => 1,
            Key::Backspace => 2,
            Key::CapsLock => 3,
            Key::ControlLeft => 4,
            Key::ControlRight => 5,
            Key::Delete => 6,
            Key::DownArrow => 7,
            Key::End => 8,
            Key::Escape => 9,
            Key::F1 => 10,
            Key::F10 => 11,
            Key::F11 => 12,
            Key::F12 => 13,
            Key::F2 => 14,
            Key::F3 => 15,
            Key::F4 => 16,
            Key::F5 => 17,
            Key::F6 => 18,
            Key::F7 => 19,
            Key::F8 => 20,
            Key::F9 => 21,
            Key::Home => 22,
            Key::LeftArrow => 23,
            Key::MetaLeft => 24,
            Key::MetaRight => 25,
            Key::PageDown => 26,
            Key::PageUp => 27,
            Key::Return => 28,
            Key::RightArrow => 29,
            Key::ShiftLeft => 30,
            Key::ShiftRight => 31,
            Key::Space => 32,
            Key::Tab => 33,
            Key::UpArrow => 34,
            Key::PrintScreen => 35,
            Key::ScrollLock => 36,
            Key::Pause => 37,
            Key::NumLock => 38,
            Key::BackQuote => 39,
            Key::Num1 => 40,
            Key::Num2 => 41,
            Key::Num3 => 42,
            Key::Num4 => 43,
            Key::Num5 => 44,
            Key::Num6 => 45,
            Key::Num7 => 46,
            Key::Num8 => 47,
            Key::Num9 => 48,
            Key::Num0 => 49,
            Key::Minus => 50,
            Key::Equal => 51,
            Key::KeyQ => 52,
            Key::KeyW => 53,
            Key::KeyE => 54,
            Key::KeyR => 55,
            Key::KeyT => 56,
            Key::KeyY => 57,
            Key::KeyU => 58,
            Key::KeyI => 59,
            Key::KeyO => 60,
            Key::KeyP => 61,
            Key::LeftBracket => 62,
            Key::RightBracket => 63,
            Key::KeyA => 64,
            Key::KeyS => 65,
            Key::KeyD => 66,
            Key::KeyF => 67,
            Key::KeyG => 68,
            Key::KeyH => 69,
            Key::KeyJ => 70,
            Key::KeyK => 71,
            Key::KeyL => 72,
            Key::SemiColon => 73,
            Key::Quote => 74,
            Key::BackSlash => 75,
            Key::IntlBackslash => 76,
            Key::KeyZ => 77,
            Key::KeyX => 78,
            Key::KeyC => 79,
            Key::KeyV => 80,
            Key::KeyB => 81,
            Key::KeyN => 82,
            Key::KeyM => 83,
            Key::Comma => 84,
            Key::Dot => 85,
            Key::Slash => 86,
            Key::Insert => 87,
            Key::KpReturn => 88,
            Key::KpMinus => 89,
            Key::KpPlus => 90,
            Key::KpMultiply => 91,
            Key::KpDivide => 92,
            Key::Kp0 => 93,
            Key::Kp1 => 94,
            Key::Kp2 => 95,
            Key::Kp3 => 96,
            Key::Kp4 => 97,
            Key::Kp5 => 98,
            Key::Kp6 => 99,
            Key::Kp7 => 100,
            Key::Kp8 => 101,
            Key::Kp9 => 102,
            Key::KpDelete => 103,
            Key::Function => 104,
            Key::Unknown(n) => (UNKNOWN_CODE_BASE + n) as u64,
        }
    }

    /// Whether some key is stored under `code`.
    pub open spec fn is_code(code: u64) -> bool {
        exists|key: Key| key.code_spec() == code
    }

    /// Distinct keys never share a code.
    pub proof fn lemma_code_injective(a: Key, b: Key)
        requires
            a.code_spec() == b.code_spec(),
        ensures
            a == b,
    {
    }

    /// Computes the code of a key.
    pub fn code(&self) -> (code: u64)
        ensures
            code == self.code_spec(),
    {
        match self {
            Key::Alt => 0,
            Key::AltGr => 1,
            Key::Backspace => 2,
            Key::CapsLock => 3,
            Key::ControlLeft => 4,
            Key::ControlRight => 5,
            Key::Delete => 6,
            Key::DownArrow => 7,
            Key::End => 8,
            Key::Escape => 9,
            Key::F1 => 10,
            Key::F10 => 11,
            Key::F11 => 12,
            Key::F12 => 13,
            Key::F2 => 14,
            Key::F3 => 15,
            Key::F4 => 16,
            Key::F5 => 17,
            Key::F6 => 18,
            Key::F7 => 19,
            Key::F8 => 20,
            Key::F9 => 21,
            Key::Home => 22,
            Key::LeftArrow => 23,
            Key::MetaLeft => 24,
            Key::MetaRight => 25,
            Key::PageDown => 26,
            Key::PageUp => 27,
            Key::Return => 28,
            Key::RightArrow => 29,
            Key::ShiftLeft => 30,
            Key::ShiftRight => 31,
            Key::Space => 32,
            Key::Tab => 33,
            Key::UpArrow => 34,
            Key::PrintScreen => 35,
            Key::ScrollLock => 36,
            Key::Pause => 37,
            Key::NumLock => 38,
            Key::BackQuote => 39,
            Key::Num1 => 40,
            Key::Num2 => 41,
            Key::Num3 => 42,
            Key::Num4 => 43,
            Key::Num5 => 44,
            Key::Num6 => 45,
            Key::Num7 => 46,
            Key::Num8 => 47,
            Key::Num9 => 48,
            Key::Num0 => 49,
            Key::Minus => 50,
            Key::Equal => 51,
            Key::KeyQ => 52,
            Key::KeyW => 53,
            Key::KeyE => 54,
            Key::KeyR => 55,
            Key::KeyT => 56,
            Key::KeyY => 57,
            Key::KeyU => 58,
            Key::KeyI => 59,
            Key::KeyO => 60,
            Key::KeyP => 61,
            Key::LeftBracket => 62,
            Key::RightBracket => 63,
            Key::KeyA => 64,
            Key::KeyS => 65,
            Key::KeyD => 66,
            Key::KeyF => 67,
            Key::KeyG => 68,
            Key::KeyH => 69,
            Key::KeyJ => 70,
            Key::KeyK => 71,
            Key::KeyL => 72,
            Key::SemiColon => 73,
            Key::Quote => 74,
            Key::BackSlash => 75,
            Key::IntlBackslash => 76,
            Key::KeyZ => 77,
            Key::KeyX => 78,
            Key::KeyC => 79,
            Key::KeyV => 80,
            Key::KeyB => 81,
            Key::KeyN => 82,
            Key::KeyM => 83,
            Key::Comma => 84,
            Key::Dot => 85,
            Key::Slash => 86,
            Key::Insert => 87,
            Key::KpReturn => 88,
            Key::KpMinus => 89,
            Key::KpPlus => 90,
            Key::KpMultiply => 91,
            Key::KpDivide => 92,
            Key::Kp0 => 93,
            Key::Kp1 => 94,
            Key::Kp2 => 95,
            Key::Kp3 => 96,
            Key::Kp4 => 97,
            Key::Kp5 => 98,
            Key::Kp6 => 99,
            Key::Kp7 => 100,
            Key::Kp8 => 101,
            Key::Kp9 => 102,
            Key::KpDelete => 103,
            Key::Function => 104,
            Key::Unknown(n) => {
                let low: u64 = *n as u64;
                UNKNOWN_CODE_BASE + low
            },
        }
    }
}

} // verus!
