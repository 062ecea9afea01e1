//! Physical keys as the keyboard hook reports them, and the scan-code table
//! that sound packs are written against.

use vstd::prelude::*;

verus! {

/// A key as reported by the platform's keyboard hook.
///
/// `Unknown` carries the raw platform code of a key that has no symbolic name.
#[derive(Clone, Copy, Debug, PartialEq, Eq, Structural)]
pub enum PlatformKey {
    Alt,
    AltGr,
    Backspace,
    CapsLock,
    ControlLeft,
    ControlRight,
    Delete,
    DownArrow,
    End,
    Escape,
    F1,
    F10,
    F11,
    F12,
    F2,
    F3,
    F4,
    F5,
    F6,
    F7,
    F8,
    F9,
    Home,
    LeftArrow,
    MetaLeft,
    MetaRight,
    PageDown,
    PageUp,
    Return,
    RightArrow,
    ShiftLeft,
    ShiftRight,
    Space,
    Tab,
    UpArrow,
    PrintScreen,
    ScrollLock,
    Pause,
    NumLock,
    BackQuote,
    Num1,
    Num2,
    Num3,
    Num4,
    Num5,
    Num6,
    Num7,
    Num8,
    Num9,
    Num0,
    Minus,
    Equal,
    KeyQ,
    KeyW,
    KeyE,
    KeyR,
    KeyT,
    KeyY,
    KeyU,
    KeyI,
    KeyO,
    KeyP,
    LeftBracket,
    RightBracket,
    KeyA,
    KeyS,
    KeyD,
    KeyF,
    KeyG,
    KeyH,
    KeyJ,
    KeyK,
    KeyL,
    SemiColon,
    Quote,
    BackSlash,
    IntlBackslash,
    KeyZ,
    KeyX,
    KeyC,
    KeyV,
    KeyB,
    KeyN,
    KeyM,
    Comma,
    Dot,
    Slash,
    Insert,
    KpReturn,
    KpMinus,
    KpPlus,
    KpMultiply,
    KpDivide,
    Kp0,
    Kp1,
    Kp2,
    Kp3,
    Kp4,
    Kp5,
    Kp6,
    Kp7,
    Kp8,
    Kp9,
    KpDelete,
    Function,
    Unknown(u32),
}

/// The scan code that a key produces, as the community sound-pack convention
/// numbers physical key positions (the keypad, arrow and navigation keys use the
/// extended codes of that convention).
///
/// Keys without an entry of their own (`Function`, `Unknown`) fall back to the
/// code of the numeral key `1`.
pub open spec fn key_code_spec(key: PlatformKey) -> Seq<char> {
    match key {
        PlatformKey::Escape => "1"@,
        PlatformKey::Num1 => "2"@,
        PlatformKey::Num2 => "3"@,
        PlatformKey::Num3 => "4"@,
        PlatformKey::Num4 => "5"@,
        PlatformKey::Num5 => "6"@,
        PlatformKey::Num6 => "7"@,
        PlatformKey::Num7 => "8"@,
        PlatformKey::Num8 => "9"@,
        PlatformKey::Num9 => "10"@,
        PlatformKey::Num0 => "11"@,
        PlatformKey::Minus => "12"@,
        PlatformKey::Equal => "13"@,
        PlatformKey::Backspace => "14"@,
        PlatformKey::Tab => "15"@,
        PlatformKey::KeyQ => "16"@,
        PlatformKey::KeyW => "17"@,
        PlatformKey::KeyE => "18"@,
        PlatformKey::KeyR => "19"@,
        PlatformKey::KeyT => "20"@,
        PlatformKey::KeyY => "21"@,
        PlatformKey::KeyU => "22"@,
        PlatformKey::KeyI => "23"@,
        PlatformKey::KeyO => "24"@,
        PlatformKey::KeyP => "25"@,
        PlatformKey::LeftBracket => "26"@,
        PlatformKey::RightBracket => "27"@,
        PlatformKey::Return => "28"@,
        PlatformKey::ControlLeft => "29"@,
        PlatformKey::KeyA => "30"@,
        PlatformKey::KeyS => "31"@,
        PlatformKey::KeyD => "32"@,
        PlatformKey::KeyF => "33"@,
        PlatformKey::KeyG => "34"@,
        PlatformKey::KeyH => "35"@,
        PlatformKey::KeyJ => "36"@,
        PlatformKey::KeyK => "37"@,
        PlatformKey::KeyL => "38"@,
        PlatformKey::SemiColon => "39"@,
        PlatformKey::Quote => "40"@,
        PlatformKey::BackQuote => "41"@,
        PlatformKey::ShiftLeft => "42"@,
        PlatformKey::BackSlash => "43"@,
        PlatformKey::KeyZ => "44"@,
        PlatformKey::KeyX => "45"@,
        PlatformKey::KeyC => "46"@,
        PlatformKey::KeyV => "47"@,
        PlatformKey::KeyB => "48"@,
        PlatformKey::KeyN => "49"@,
        PlatformKey::KeyM => "50"@,
        PlatformKey::Comma => "51"@,
        PlatformKey::Dot => "52"@,
        PlatformKey::Slash => "53"@,
        PlatformKey::ShiftRight => "54"@,
        PlatformKey::KpMultiply => "55"@,
        PlatformKey::Alt => "56"@,
        PlatformKey::Space => "57"@,
        PlatformKey::CapsLock => "58"@,
        PlatformKey::F1 => "59"@,
        PlatformKey::F2 => "60"@,
        PlatformKey::F3 => "61"@,
        PlatformKey::F4 => "62"@,
        PlatformKey::F5 => "63"@,
        PlatformKey::F6 => "64"@,
        PlatformKey::F7 => "65"@,
        PlatformKey::F8 => "66"@,
        PlatformKey::F9 => "67"@,
        PlatformKey::F10 => "68"@,
        PlatformKey::NumLock => "69"@,
        PlatformKey::ScrollLock => "70"@,
        PlatformKey::Kp7 => "71"@,
        PlatformKey::Kp8 => "72"@,
        PlatformKey::Kp9 => "73"@,
        PlatformKey::KpMinus => "74"@,
        PlatformKey::Kp4 => "75"@,
        PlatformKey::Kp5 => "76"@,
        PlatformKey::Kp6 => "77"@,
        PlatformKey::KpPlus => "78"@,
        PlatformKey::Kp1 => "79"@,
        PlatformKey::Kp2 => "80"@,
        PlatformKey::Kp3 => "81"@,
        PlatformKey::Kp0 => "82"@,
        PlatformKey::KpDelete => "83"@,
        PlatformKey::IntlBackslash => "86"@,
        PlatformKey::F11 => "87"@,
        PlatformKey::F12 => "88"@,
        PlatformKey::KpReturn => "3612"@,
        PlatformKey::ControlRight => "3613"@,
        PlatformKey::KpDivide => "3637"@,
        PlatformKey::PrintScreen => "3639"@,
        PlatformKey::AltGr => "3640"@,
        PlatformKey::Pause => "3653"@,
        PlatformKey::Home => "3655"@,
        PlatformKey::PageUp => "3657"@,
        PlatformKey::End => "3663"@,
        PlatformKey::PageDown => "3665"@,
        PlatformKey::Insert => "3666"@,
        PlatformKey::Delete => "3667"@,
        PlatformKey::MetaLeft => "3675"@,
        PlatformKey::MetaRight => "3676"@,
        PlatformKey::UpArrow => "57416"@,
        PlatformKey::LeftArrow => "57419"@,
        PlatformKey::RightArrow => "57421"@,
        PlatformKey::DownArrow => "57424"@,
        PlatformKey::Function => fallback_key_code(),
        PlatformKey::Unknown(_) => fallback_key_code(),
    }
}

/// The code given to a key that the table does not name.
pub open spec fn fallback_key_code() -> Seq<char> {
    "2"@
}

/// Maps a platform key to its canonical scan code.
///
/// Total: every key yields a code, and a key outside the table yields the
/// fallback code, which is the code of the numeral key `1`.
pub fn key_to_key_code(key: PlatformKey) -> (r: &'static str)
    ensures
        r@ == key_code_spec(key),
        (key is Function || key is Unknown) ==> r@ == fallback_key_code(),
        (key is Function || key is Unknown) ==> r@ == key_code_spec(PlatformKey::Num1),
{
    match key {
        PlatformKey::Escape => "1",
        PlatformKey::Num1 => "2",
        PlatformKey::Num2 => "3",
        PlatformKey::Num3 => "4",
        PlatformKey::Num4 => "5",
        PlatformKey::Num5 => "6",
        PlatformKey::Num6 => "7",
        PlatformKey::Num7 => "8",
        PlatformKey::Num8 => "9",
        PlatformKey::Num9 => "10",
        PlatformKey::Num0 => "11",
        PlatformKey::Minus => "12",
        PlatformKey::Equal => "13",
        PlatformKey::Backspace => "14",
        PlatformKey::Tab => "15",
        PlatformKey::KeyQ => "16",
        PlatformKey::KeyW => "17",
        PlatformKey::KeyE => "18",
        PlatformKey::KeyR => "19",
        PlatformKey::KeyT => "20",
        PlatformKey::KeyY => "21",
        PlatformKey::KeyU => "22",
        PlatformKey::KeyI => "23",
        PlatformKey::KeyO => "24",
        PlatformKey::KeyP => "25",
        PlatformKey::LeftBracket => "26",
        PlatformKey::RightBracket => "27",
        PlatformKey::Return => "28",
        PlatformKey::ControlLeft => "29",
        PlatformKey::KeyA => "30",
        PlatformKey::KeyS => "31",
        PlatformKey::KeyD => "32",
        PlatformKey::KeyF => "33",
        PlatformKey::KeyG => "34",
        PlatformKey::KeyH => "35",
        PlatformKey::KeyJ => "36",
        PlatformKey::KeyK => "37",
        PlatformKey::KeyL => "38",
        PlatformKey::SemiColon => "39",
        PlatformKey::Quote => "40",
        PlatformKey::BackQuote => "41",
        PlatformKey::ShiftLeft => "42",
        PlatformKey::BackSlash => "43",
        PlatformKey::KeyZ => "44",
        PlatformKey::KeyX => "45",
        PlatformKey::KeyC => "46",
        PlatformKey::KeyV => "47",
        PlatformKey::KeyB => "48",
        PlatformKey::KeyN => "49",
        PlatformKey::KeyM => "50",
        PlatformKey::Comma => "51",
        PlatformKey::Dot => "52",
        PlatformKey::Slash => "53",
        PlatformKey::ShiftRight => "54",
        PlatformKey::KpMultiply => "55",
        PlatformKey::Alt => "56",
        PlatformKey::Space => "57",
        PlatformKey::CapsLock => "58",
        PlatformKey::F1 => "59",
        PlatformKey::F2 => "60",
        PlatformKey::F3 => "61",
        PlatformKey::F4 => "62",
        PlatformKey::F5 => "63",
        PlatformKey::F6 => "64",
        PlatformKey::F7 => "65",
        PlatformKey::F8 => "66",
        PlatformKey::F9 => "67",
        PlatformKey::F10 => "68",
        PlatformKey::NumLock => "69",
        PlatformKey::ScrollLock => "70",
        PlatformKey::Kp7 => "71",
        PlatformKey::Kp8 => "72",
        PlatformKey::Kp9 => "73",
        PlatformKey::KpMinus => "74",
        PlatformKey::Kp4 => "75",
        PlatformKey::Kp5 => "76",
        PlatformKey::Kp6 => "77",
        PlatformKey::KpPlus => "78",
        PlatformKey::Kp1 => "79",
        PlatformKey::Kp2 => "80",
        PlatformKey::Kp3 => "81",
        PlatformKey::Kp0 => "82",
        PlatformKey::KpDelete => "83",
        PlatformKey::IntlBackslash => "86",
        PlatformKey::F11 => "87",
        PlatformKey::F12 => "88",
        PlatformKey::KpReturn => "3612",
        PlatformKey::ControlRight => "3613",
        PlatformKey::KpDivide => "3637",
        PlatformKey::PrintScreen => "3639",
        PlatformKey::AltGr => "3640",
        PlatformKey::Pause => "3653",
        PlatformKey::Home => "3655",
        PlatformKey::PageUp => "3657",
        PlatformKey::End => "3663",
        PlatformKey::PageDown => "3665",
        PlatformKey::Insert => "3666",
        PlatformKey::Delete => "3667",
        PlatformKey::MetaLeft => "3675",
        PlatformKey::MetaRight => "3676",
        PlatformKey::UpArrow => "57416",
        PlatformKey::LeftArrow => "57419",
        PlatformKey::RightArrow => "57421",
        PlatformKey::DownArrow => "57424",
        PlatformKey::Function => "2",
        PlatformKey::Unknown(_) => "2",
    }
}

} // verus!
