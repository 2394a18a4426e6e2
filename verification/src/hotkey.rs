//! Global hotkey handling: stable numeric key codes, their display names,
//! the listener's filtering decision and the push-to-talk state machine.
use vstd::prelude::*;

use crate::text::{decimal, decimal_chars, digit_char, string_of};

verus! {

/// A keyboard key, as reported by the global input hook.
#[derive(Debug, Clone, Copy, PartialEq, Eq, Structural)]
pub enum KeyCode {
    Backspace,
    Tab,
    Return,
    Escape,
    Space,
    Delete,
    Insert,
    Home,
    End,
    PageUp,
    PageDown,
    LeftArrow,
    UpArrow,
    RightArrow,
    DownArrow,
    F1,
    F2,
    F3,
    F4,
    F5,
    F6,
    F7,
    F8,
    F9,
    F10,
    F11,
    F12,
    KeyA,
    KeyB,
    KeyC,
    KeyD,
    KeyE,
    KeyF,
    KeyG,
    KeyH,
    KeyI,
    KeyJ,
    KeyK,
    KeyL,
    KeyM,
    KeyN,
    KeyO,
    KeyP,
    KeyQ,
    KeyR,
    KeyS,
    KeyT,
    KeyU,
    KeyV,
    KeyW,
    KeyX,
    KeyY,
    KeyZ,
    Num0,
    Num1,
    Num2,
    Num3,
    Num4,
    Num5,
    Num6,
    Num7,
    Num8,
    Num9,
    PrintScreen,
    ScrollLock,
    Pause,
    CapsLock,
    Alt,
    AltGr,
    ShiftLeft,
    ShiftRight,
    ControlLeft,
    ControlRight,
    MetaLeft,
    MetaRight,
    Dot,
    Minus,
    Equal,
    BackQuote,
    LeftBracket,
    BackSlash,
    RightBracket,
    Quote,
    SemiColon,
    Comma,
    Slash,
    /// Any key that has no stable code.
    Unknown,
}

/// The stable numeric code stored for a key (Windows virtual-key numbering).
pub open spec fn key_code(k: KeyCode) -> u32 {
    match k {
        KeyCode::Backspace => 0x08,
        KeyCode::Tab => 0x09,
        KeyCode::Return => 0x0D,
        KeyCode::Escape => 0x1B,
        KeyCode::Space => 0x20,
        KeyCode::Delete => 0x2E,
        KeyCode::Insert => 0x2D,
        KeyCode::Home => 0x24,
        KeyCode::End => 0x23,
        KeyCode::PageUp => 0x21,
        KeyCode::PageDown => 0x22,
        KeyCode::LeftArrow => 0x25,
        KeyCode::UpArrow => 0x26,
        KeyCode::RightArrow => 0x27,
        KeyCode::DownArrow => 0x28,
        KeyCode::F1 => 0x70,
        KeyCode::F2 => 0x71,
        KeyCode::F3 => 0x72,
        KeyCode::F4 => 0x73,
        KeyCode::F5 => 0x74,
        KeyCode::F6 => 0x75,
        KeyCode::F7 => 0x76,
        KeyCode::F8 => 0x77,
        KeyCode::F9 => 0x78,
        KeyCode::F10 => 0x79,
        KeyCode::F11 => 0x7A,
        KeyCode::F12 => 0x7B,
        KeyCode::KeyA => 0x41,
        KeyCode::KeyB => 0x42,
        KeyCode::KeyC => 0x43,
        KeyCode::KeyD => 0x44,
        KeyCode::KeyE => 0x45,
        KeyCode::KeyF => 0x46,
        KeyCode::KeyG => 0x47,
        KeyCode::KeyH => 0x48,
        KeyCode::KeyI => 0x49,
        KeyCode::KeyJ => 0x4A,
        KeyCode::KeyK => 0x4B,
        KeyCode::KeyL => 0x4C,
        KeyCode::KeyM => 0x4D,
        KeyCode::KeyN => 0x4E,
        KeyCode::KeyO => 0x4F,
        KeyCode::KeyP => 0x50,
        KeyCode::KeyQ => 0x51,
        KeyCode::KeyR => 0x52,
        KeyCode::KeyS => 0x53,
        KeyCode::KeyT => 0x54,
        KeyCode::KeyU => 0x55,
        KeyCode::KeyV => 0x56,
        KeyCode::KeyW => 0x57,
        KeyCode::KeyX => 0x58,
        KeyCode::KeyY => 0x59,
        KeyCode::KeyZ => 0x5A,
        KeyCode::Num0 => 0x30,
        KeyCode::Num1 => 0x31,
        KeyCode::Num2 => 0x32,
        KeyCode::Num3 => 0x33,
        KeyCode::Num4 => 0x34,
        KeyCode::Num5 => 0x35,
        KeyCode::Num6 => 0x36,
        KeyCode::Num7 => 0x37,
        KeyCode::Num8 => 0x38,
        KeyCode::Num9 => 0x39,
        KeyCode::PrintScreen => 0x2C,
        KeyCode::ScrollLock => 0x91,
        KeyCode::Pause => 0x13,
        KeyCode::CapsLock => 0x14,
        KeyCode::Alt => 0xA2,
        KeyCode::AltGr => 0xA4,
        KeyCode::ShiftLeft => 0xA0,
        KeyCode::ShiftRight => 0xA1,
        KeyCode::ControlLeft => 0xA3,
        KeyCode::ControlRight => 0xA5,
        KeyCode::MetaLeft => 0x5B,
        KeyCode::MetaRight => 0x5C,
        KeyCode::Dot => 0xBE,
        KeyCode::Minus => 0xBD,
        KeyCode::Equal => 0xBB,
        KeyCode::BackQuote => 0xC0,
        KeyCode::LeftBracket => 0xDB,
        KeyCode::BackSlash => 0xDC,
        KeyCode::RightBracket => 0xDD,
        KeyCode::Quote => 0xDE,
        KeyCode::SemiColon => 0xBA,
        KeyCode::Comma => 0xBC,
        KeyCode::Slash => 0xBF,
        KeyCode::Unknown => 0xFFFF,
    }
}

/// The key that a stable code stands for.
pub open spec fn key_of_code(code: u32) -> KeyCode {
    if code == 0x08 {
        KeyCode::Backspace
    } else if code == 0x09 {
        KeyCode::Tab
    } else if code == 0x0D {
        KeyCode::Return
    } else if code == 0x1B {
        KeyCode::Escape
    } else if code == 0x20 {
        KeyCode::Space
    } else if code == 0x2E {
        KeyCode::Delete
    } else if code == 0x2D {
        KeyCode::Insert
    } else if code == 0x24 {
        KeyCode::Home
    } else if code == 0x23 {
        KeyCode::End
    } else if code == 0x21 {
        KeyCode::PageUp
    } else if code == 0x22 {
        KeyCode::PageDown
    } else if code == 0x25 {
        KeyCode::LeftArrow
    } else if code == 0x26 {
        KeyCode::UpArrow
    } else if code == 0x27 {
        KeyCode::RightArrow
    } else if code == 0x28 {
        KeyCode::DownArrow
    } else if code == 0x70 {
        KeyCode::F1
    } else if code == 0x71 {
        KeyCode::F2
    } else if code == 0x72 {
        KeyCode::F3
    } else if code == 0x73 {
        KeyCode::F4
    } else if code == 0x74 {
        KeyCode::F5
    } else if code == 0x75 {
        KeyCode::F6
    } else if code == 0x76 {
        KeyCode::F7
    } else if code == 0x77 {
        KeyCode::F8
    } else if code == 0x78 {
        KeyCode::F9
    } else if code == 0x79 {
        KeyCode::F10
    } else if code == 0x7A {
        KeyCode::F11
    } else if code == 0x7B {
        KeyCode::F12
    } else if code == 0x41 {
        KeyCode::KeyA
    } else if code == 0x42 {
        KeyCode::KeyB
    } else if code == 0x43 {
        KeyCode::KeyC
    } else if code == 0x44 {
        KeyCode::KeyD
    } else if code == 0x45 {
        KeyCode::KeyE
    } else if code == 0x46 {
        KeyCode::KeyF
    } else if code == 0x47 {
        KeyCode::KeyG
    } else if code == 0x48 {
        KeyCode::KeyH
    } else if code == 0x49 {
        KeyCode::KeyI
    } else if code == 0x4A {
        KeyCode::KeyJ
    } else if code == 0x4B {
        KeyCode::KeyK
    } else if code == 0x4C {
        KeyCode::KeyL
    } else if code == 0x4D {
        KeyCode::KeyM
    } else if code == 0x4E {
        KeyCode::KeyN
    } else if code == 0x4F {
        KeyCode::KeyO
    } else if code == 0x50 {
        KeyCode::KeyP
    } else if code == 0x51 {
        KeyCode::KeyQ
    } else if code == 0x52 {
        KeyCode::KeyR
    } else if code == 0x53 {
        KeyCode::KeyS
    } else if code == 0x54 {
        KeyCode::KeyT
    } else if code == 0x55 {
        KeyCode::KeyU
    } else if code == 0x56 {
        KeyCode::KeyV
    } else if code == 0x57 {
        KeyCode::KeyW
    } else if code == 0x58 {
        KeyCode::KeyX
    } else if code == 0x59 {
        KeyCode::KeyY
    } else if code == 0x5A {
        KeyCode::KeyZ
    } else if code == 0x30 {
        KeyCode::Num0
    } else if code == 0x31 {
        KeyCode::Num1
    } else if code == 0x32 {
        KeyCode::Num2
    } else if code == 0x33 {
        KeyCode::Num3
    } else if code == 0x34 {
        KeyCode::Num4
    } else if code == 0x35 {
        KeyCode::Num5
    } else if code == 0x36 {
        KeyCode::Num6
    } else if code == 0x37 {
        KeyCode::Num7
    } else if code == 0x38 {
        KeyCode::Num8
    } else if code == 0x39 {
        KeyCode::Num9
    } else if code == 0x2C {
        KeyCode::PrintScreen
    } else if code == 0x91 {
        KeyCode::ScrollLock
    } else if code == 0x13 {
        KeyCode::Pause
    } else if code == 0x14 {
        KeyCode::CapsLock
    } else if code == 0xA2 {
        KeyCode::Alt
    } else if code == 0xA4 {
        KeyCode::AltGr
    } else if code == 0xA0 {
        KeyCode::ShiftLeft
    } else if code == 0xA1 {
        KeyCode::ShiftRight
    } else if code == 0xA3 {
        KeyCode::ControlLeft
    } else if code == 0xA5 {
        KeyCode::ControlRight
    } else if code == 0x5B {
        KeyCode::MetaLeft
    } else if code == 0x5C {
        KeyCode::MetaRight
    } else if code == 0xBE {
        KeyCode::Dot
    } else if code == 0xBD {
        KeyCode::Minus
    } else if code == 0xBB {
        KeyCode::Equal
    } else if code == 0xC0 {
        KeyCode::BackQuote
    } else if code == 0xDB {
        KeyCode::LeftBracket
    } else if code == 0xDC {
        KeyCode::BackSlash
    } else if code == 0xDD {
        KeyCode::RightBracket
    } else if code == 0xDE {
        KeyCode::Quote
    } else if code == 0xBA {
        KeyCode::SemiColon
    } else if code == 0xBC {
        KeyCode::Comma
    } else if code == 0xBF {
        KeyCode::Slash
    } else {
        KeyCode::Unknown
    }
}

/// Converts a key to its stable numeric code for persistence.
pub fn key_to_u32(k: KeyCode) -> (r: u32)
    ensures
        r == key_code(k),
{
    match k {
        KeyCode::Backspace => 0x08,
        KeyCode::Tab => 0x09,
        KeyCode::Return => 0x0D,
        KeyCode::Escape => 0x1B,
        KeyCode::Space => 0x20,
        KeyCode::Delete => 0x2E,
        KeyCode::Insert => 0x2D,
        KeyCode::Home => 0x24,
        KeyCode::End => 0x23,
        KeyCode::PageUp => 0x21,
        KeyCode::PageDown => 0x22,
        KeyCode::LeftArrow => 0x25,
        KeyCode::UpArrow => 0x26,
        KeyCode::RightArrow => 0x27,
        KeyCode::DownArrow => 0x28,
        KeyCode::F1 => 0x70,
        KeyCode::F2 => 0x71,
        KeyCode::F3 => 0x72,
        KeyCode::F4 => 0x73,
        KeyCode::F5 => 0x74,
        KeyCode::F6 => 0x75,
        KeyCode::F7 => 0x76,
        KeyCode::F8 => 0x77,
        KeyCode::F9 => 0x78,
        KeyCode::F10 => 0x79,
        KeyCode::F11 => 0x7A,
        KeyCode::F12 => 0x7B,
        KeyCode::KeyA => 0x41,
        KeyCode::KeyB => 0x42,
        KeyCode::KeyC => 0x43,
        KeyCode::KeyD => 0x44,
        KeyCode::KeyE => 0x45,
        KeyCode::KeyF => 0x46,
        KeyCode::KeyG => 0x47,
        KeyCode::KeyH => 0x48,
        KeyCode::KeyI => 0x49,
        KeyCode::KeyJ => 0x4A,
        KeyCode::KeyK => 0x4B,
        KeyCode::KeyL => 0x4C,
        KeyCode::KeyM => 0x4D,
        KeyCode::KeyN => 0x4E,
        KeyCode::KeyO => 0x4F,
        KeyCode::KeyP => 0x50,
        KeyCode::KeyQ => 0x51,
        KeyCode::KeyR => 0x52,
        KeyCode::KeyS => 0x53,
        KeyCode::KeyT => 0x54,
        KeyCode::KeyU => 0x55,
        KeyCode::KeyV => 0x56,
        KeyCode::KeyW => 0x57,
        KeyCode::KeyX => 0x58,
        KeyCode::KeyY => 0x59,
        KeyCode::KeyZ => 0x5A,
        KeyCode::Num0 => 0x30,
        KeyCode::Num1 => 0x31,
        KeyCode::Num2 => 0x32,
        KeyCode::Num3 => 0x33,
        KeyCode::Num4 => 0x34,
        KeyCode::Num5 => 0x35,
        KeyCode::Num6 => 0x36,
        KeyCode::Num7 => 0x37,
        KeyCode::Num8 => 0x38,
        KeyCode::Num9 => 0x39,
        KeyCode::PrintScreen => 0x2C,
        KeyCode::ScrollLock => 0x91,
        KeyCode::Pause => 0x13,
        KeyCode::CapsLock => 0x14,
        KeyCode::Alt => 0xA2,
        KeyCode::AltGr => 0xA4,
        KeyCode::ShiftLeft => 0xA0,
        KeyCode::ShiftRight => 0xA1,
        KeyCode::ControlLeft => 0xA3,
        KeyCode::ControlRight => 0xA5,
        KeyCode::MetaLeft => 0x5B,
        KeyCode::MetaRight => 0x5C,
        KeyCode::Dot => 0xBE,
        KeyCode::Minus => 0xBD,
        KeyCode::Equal => 0xBB,
        KeyCode::BackQuote => 0xC0,
        KeyCode::LeftBracket => 0xDB,
        KeyCode::BackSlash => 0xDC,
        KeyCode::RightBracket => 0xDD,
        KeyCode::Quote => 0xDE,
        KeyCode::SemiColon => 0xBA,
        KeyCode::Comma => 0xBC,
        KeyCode::Slash => 0xBF,
        KeyCode::Unknown => 0xFFFF,
    }
}

/// Every known key is recovered from its code.
pub proof fn lemma_key_code_roundtrip(k: KeyCode)
    requires
        k != KeyCode::Unknown,
    ensures
        key_of_code(key_code(k)) == k,
{
}

/// Distinct known keys have distinct stable codes, so a stored code names one key.
pub proof fn lemma_key_codes_distinct(a: KeyCode, b: KeyCode)
    requires
        a != KeyCode::Unknown,
        b != KeyCode::Unknown,
        key_code(a) == key_code(b),
    ensures
        a == b,
{
    lemma_key_code_roundtrip(a);
    lemma_key_code_roundtrip(b);
}

/// The display name of a stable key code.
pub open spec fn code_name(code: u32) -> Seq<char> {
    if code == 0x08 {
        "Backspace"@
    } else if code == 0x09 {
        "Tab"@
    } else if code == 0x0D {
        "Enter"@
    } else if code == 0x1B {
        "Escape"@
    } else if code == 0x20 {
        "Space"@
    } else if code == 0x2E {
        "Delete"@
    } else if code == 0x2D {
        "Insert"@
    } else if code == 0x24 {
        "Home"@
    } else if code == 0x23 {
        "End"@
    } else if code == 0x21 {
        "PageUp"@
    } else if code == 0x22 {
        "PageDown"@
    } else if code == 0x25 {
        "Left"@
    } else if code == 0x26 {
        "Up"@
    } else if code == 0x27 {
        "Right"@
    } else if code == 0x28 {
        "Down"@
    } else if 0x70 <= code <= 0x7B {
        seq!['F'] + decimal((code - 0x6F) as nat)
    } else if 0x41 <= code <= 0x5A || 0x30 <= code <= 0x39 {
        seq![code as char]
    } else if code == 0x2C {
        "PrintScreen"@
    } else if code == 0x91 {
        "ScrollLock"@
    } else if code == 0x13 {
        "Pause"@
    } else if code == 0x14 {
        "CapsLock"@
    } else if code == 0xA2 {
        "LAlt"@
    } else if code == 0xA4 {
        "RAlt"@
    } else if code == 0xA0 {
        "LShift"@
    } else if code == 0xA1 {
        "RShift"@
    } else if code == 0xA3 {
        "LCtrl"@
    } else if code == 0xA5 {
        "RCtrl"@
    } else if code == 0x5B {
        "LWin"@
    } else if code == 0x5C {
        "RWin"@
    } else if code == 0xBE {
        "."@
    } else if code == 0xBD {
        "-"@
    } else if code == 0xBB {
        "="@
    } else if code == 0xC0 {
        "`"@
    } else if code == 0xDB {
        "["@
    } else if code == 0xDC {
        "\\"@
    } else if code == 0xDD {
        "]"@
    } else if code == 0xDE {
        "'"@
    } else if code == 0xBA {
        ";"@
    } else if code == 0xBC {
        ","@
    } else if code == 0xBF {
        "/"@
    } else {
        "Unknown"@
    }
}

/// The display name of a stable key code (`"A"`, `"F1"`, `"Delete"`, ...);
/// `"Unknown"` for codes without a name.
pub fn code_to_name(code: u32) -> (r: String)
    ensures
        r@ == code_name(code),
{
    if code == 0x08 {
        String::from_str("Backspace")
    } else if code == 0x09 {
        String::from_str("Tab")
    } else if code == 0x0D {
        String::from_str("Enter")
    } else if code == 0x1B {
        String::from_str("Escape")
    } else if code == 0x20 {
        String::from_str("Space")
    } else if code == 0x2E {
        String::from_str("Delete")
    } else if code == 0x2D {
        String::from_str("Insert")
    } else if code == 0x24 {
        String::from_str("Home")
    } else if code == 0x23 {
        String::from_str("End")
    } else if code == 0x21 {
        String::from_str("PageUp")
    } else if code == 0x22 {
        String::from_str("PageDown")
    } else if code == 0x25 {
        String::from_str("Left")
    } else if code == 0x26 {
        String::from_str("Up")
    } else if code == 0x27 {
        String::from_str("Right")
    } else if code == 0x28 {
        String::from_str("Down")
    } else if 0x70 <= code && code <= 0x7B {
        let mut v: Vec<char> = Vec::new();
        v.push('F');
        let d = decimal_chars((code - 0x6F) as u64);
        crate::text::append_chars(&mut v, &d);
        string_of(&v)
    } else if (0x41 <= code && code <= 0x5A) || (0x30 <= code && code <= 0x39) {
        let b: u8 = code as u8;
        let mut v: Vec<char> = Vec::new();
        v.push(b as char);
        string_of(&v)
    } else if code == 0x2C {
        String::from_str("PrintScreen")
    } else if code == 0x91 {
        String::from_str("ScrollLock")
    } else if code == 0x13 {
        String::from_str("Pause")
    } else if code == 0x14 {
        String::from_str("CapsLock")
    } else if code == 0xA2 {
        String::from_str("LAlt")
    } else if code == 0xA4 {
        String::from_str("RAlt")
    } else if code == 0xA0 {
        String::from_str("LShift")
    } else if code == 0xA1 {
        String::from_str("RShift")
    } else if code == 0xA3 {
        String::from_str("LCtrl")
    } else if code == 0xA5 {
        String::from_str("RCtrl")
    } else if code == 0x5B {
        String::from_str("LWin")
    } else if code == 0x5C {
        String::from_str("RWin")
    } else if code == 0xBE {
        String::from_str(".")
    } else if code == 0xBD {
        String::from_str("-")
    } else if code == 0xBB {
        String::from_str("=")
    } else if code == 0xC0 {
        String::from_str("`")
    } else if code == 0xDB {
        String::from_str("[")
    } else if code == 0xDC {
        String::from_str("\\")
    } else if code == 0xDD {
        String::from_str("]")
    } else if code == 0xDE {
        String::from_str("'")
    } else if code == 0xBA {
        String::from_str(";")
    } else if code == 0xBC {
        String::from_str(",")
    } else if code == 0xBF {
        String::from_str("/")
    } else {
        String::from_str("Unknown")
    }
}

/// The display name of a key.
pub fn key_name(k: KeyCode) -> (r: String)
    ensures
        r@ == code_name(key_code(k)),
{
    code_to_name(key_to_u32(k))
}

/// The stable code that a key name stands for: the inverse of `code_name` on
/// the codes of known keys, and `0xFFFF` for any other text.
spec fn name_code(s: Seq<char>) -> u32 {
    if s.len() == 1 && (('A' <= s[0] && s[0] <= 'Z') || ('0' <= s[0] && s[0] <= '9')) {
        s[0] as u32
    } else if s.len() == 1 && s[0] == '.' {
        0xBE
    } else if s.len() == 1 && s[0] == '-' {
        0xBD
    } else if s.len() == 1 && s[0] == '=' {
        0xBB
    } else if s.len() == 1 && s[0] == '`' {
        0xC0
    } else if s.len() == 1 && s[0] == '[' {
        0xDB
    } else if s.len() == 1 && s[0] == '\\' {
        0xDC
    } else if s.len() == 1 && s[0] == ']' {
        0xDD
    } else if s.len() == 1 && s[0] == '\'' {
        0xDE
    } else if s.len() == 1 && s[0] == ';' {
        0xBA
    } else if s.len() == 1 && s[0] == ',' {
        0xBC
    } else if s.len() == 1 && s[0] == '/' {
        0xBF
    } else if s.len() == 2 && s[0] == 'F' && '1' <= s[1] && s[1] <= '9' {
        (0x6F + (s[1] as u32 - 48)) as u32
    } else if s.len() == 3 && s[0] == 'F' && s[1] == '1' && '0' <= s[2] && s[2] <= '2' {
        (0x79 + (s[2] as u32 - 48)) as u32
    } else if s == "Backspace"@ {
        0x8
    } else if s == "Tab"@ {
        0x9
    } else if s == "Enter"@ {
        0xD
    } else if s == "Escape"@ {
        0x1B
    } else if s == "Space"@ {
        0x20
    } else if s == "Delete"@ {
        0x2E
    } else if s == "Insert"@ {
        0x2D
    } else if s == "Home"@ {
        0x24
    } else if s == "End"@ {
        0x23
    } else if s == "PageUp"@ {
        0x21
    } else if s == "PageDown"@ {
        0x22
    } else if s == "Left"@ {
        0x25
    } else if s == "Up"@ {
        0x26
    } else if s == "Right"@ {
        0x27
    } else if s == "Down"@ {
        0x28
    } else if s == "PrintScreen"@ {
        0x2C
    } else if s == "ScrollLock"@ {
        0x91
    } else if s == "Pause"@ {
        0x13
    } else if s == "CapsLock"@ {
        0x14
    } else if s == "LAlt"@ {
        0xA2
    } else if s == "RAlt"@ {
        0xA4
    } else if s == "LShift"@ {
        0xA0
    } else if s == "RShift"@ {
        0xA1
    } else if s == "LCtrl"@ {
        0xA3
    } else if s == "RCtrl"@ {
        0xA5
    } else if s == "LWin"@ {
        0x5B
    } else if s == "RWin"@ {
        0x5C
    } else {
        0xFFFF
    }
}

/// Every known key's name leads back to its code.
proof fn lemma_name_code_roundtrip(k: KeyCode)
    requires
        k != KeyCode::Unknown,
    ensures
        name_code(code_name(key_code(k))) == key_code(k),
{
    reveal_strlit("Backspace");
    reveal_strlit("Tab");
    reveal_strlit("Enter");
    reveal_strlit("Escape");
    reveal_strlit("Space");
    reveal_strlit("Delete");
    reveal_strlit("Insert");
    reveal_strlit("Home");
    reveal_strlit("End");
    reveal_strlit("PageUp");
    reveal_strlit("PageDown");
    reveal_strlit("Left");
    reveal_strlit("Up");
    reveal_strlit("Right");
    reveal_strlit("Down");
    reveal_strlit("PrintScreen");
    reveal_strlit("ScrollLock");
    reveal_strlit("Pause");
    reveal_strlit("CapsLock");
    reveal_strlit("LAlt");
    reveal_strlit("RAlt");
    reveal_strlit("LShift");
    reveal_strlit("RShift");
    reveal_strlit("LCtrl");
    reveal_strlit("RCtrl");
    reveal_strlit("LWin");
    reveal_strlit("RWin");
    reveal_strlit(".");
    reveal_strlit("-");
    reveal_strlit("=");
    reveal_strlit("`");
    reveal_strlit("[");
    reveal_strlit("\\");
    reveal_strlit("]");
    reveal_strlit("\'");
    reveal_strlit(";");
    reveal_strlit(",");
    reveal_strlit("/");
    reveal_strlit("Unknown");
    assert("LWin"@[0] != "RAlt"@[0]);
    assert(name_code(code_name(0x8)) == 0x8);
    assert(name_code(code_name(0x9)) == 0x9);
    assert(name_code(code_name(0xD)) == 0xD);
    assert(name_code(code_name(0x1B)) == 0x1B);
    assert(name_code(code_name(0x20)) == 0x20);
    assert(name_code(code_name(0x2E)) == 0x2E);
    assert(name_code(code_name(0x2D)) == 0x2D);
    assert(name_code(code_name(0x24)) == 0x24);
    assert(name_code(code_name(0x23)) == 0x23);
    assert(name_code(code_name(0x21)) == 0x21);
    assert(name_code(code_name(0x22)) == 0x22);
    assert(name_code(code_name(0x25)) == 0x25);
    assert(name_code(code_name(0x26)) == 0x26);
    assert(name_code(code_name(0x27)) == 0x27);
    assert(name_code(code_name(0x28)) == 0x28);
    assert(name_code(code_name(0x70)) == 0x70);
    assert(name_code(code_name(0x71)) == 0x71);
    assert(name_code(code_name(0x72)) == 0x72);
    assert(name_code(code_name(0x73)) == 0x73);
    assert(name_code(code_name(0x74)) == 0x74);
    assert(name_code(code_name(0x75)) == 0x75);
    assert(name_code(code_name(0x76)) == 0x76);
    assert(name_code(code_name(0x77)) == 0x77);
    assert(name_code(code_name(0x78)) == 0x78);
    assert(name_code(code_name(0x79)) == 0x79);
    assert(name_code(code_name(0x7A)) == 0x7A);
    assert(name_code(code_name(0x7B)) == 0x7B);
    assert(name_code(code_name(0x41)) == 0x41);
    assert(name_code(code_name(0x42)) == 0x42);
    assert(name_code(code_name(0x43)) == 0x43);
    assert(name_code(code_name(0x44)) == 0x44);
    assert(name_code(code_name(0x45)) == 0x45);
    assert(name_code(code_name(0x46)) == 0x46);
    assert(name_code(code_name(0x47)) == 0x47);
    assert(name_code(code_name(0x48)) == 0x48);
    assert(name_code(code_name(0x49)) == 0x49);
    assert(name_code(code_name(0x4A)) == 0x4A);
    assert(name_code(code_name(0x4B)) == 0x4B);
    assert(name_code(code_name(0x4C)) == 0x4C);
    assert(name_code(code_name(0x4D)) == 0x4D);
    assert(name_code(code_name(0x4E)) == 0x4E);
    assert(name_code(code_name(0x4F)) == 0x4F);
    assert(name_code(code_name(0x50)) == 0x50);
    assert(name_code(code_name(0x51)) == 0x51);
    assert(name_code(code_name(0x52)) == 0x52);
    assert(name_code(code_name(0x53)) == 0x53);
    assert(name_code(code_name(0x54)) == 0x54);
    assert(name_code(code_name(0x55)) == 0x55);
    assert(name_code(code_name(0x56)) == 0x56);
    assert(name_code(code_name(0x57)) == 0x57);
    assert(name_code(code_name(0x58)) == 0x58);
    assert(name_code(code_name(0x59)) == 0x59);
    assert(name_code(code_name(0x5A)) == 0x5A);
    assert(name_code(code_name(0x30)) == 0x30);
    assert(name_code(code_name(0x31)) == 0x31);
    assert(name_code(code_name(0x32)) == 0x32);
    assert(name_code(code_name(0x33)) == 0x33);
    assert(name_code(code_name(0x34)) == 0x34);
    assert(name_code(code_name(0x35)) == 0x35);
    assert(name_code(code_name(0x36)) == 0x36);
    assert(name_code(code_name(0x37)) == 0x37);
    assert(name_code(code_name(0x38)) == 0x38);
    assert(name_code(code_name(0x39)) == 0x39);
    assert(name_code(code_name(0x2C)) == 0x2C);
    assert(name_code(code_name(0x91)) == 0x91);
    assert(name_code(code_name(0x13)) == 0x13);
    assert(name_code(code_name(0x14)) == 0x14);
    assert(name_code(code_name(0xA2)) == 0xA2);
    assert(name_code(code_name(0xA4)) == 0xA4);
    assert(name_code(code_name(0xA0)) == 0xA0);
    assert(name_code(code_name(0xA1)) == 0xA1);
    assert(name_code(code_name(0xA3)) == 0xA3);
    assert(name_code(code_name(0xA5)) == 0xA5);
    assert(name_code(code_name(0x5B)) == 0x5B);
    assert(name_code(code_name(0x5C)) == 0x5C);
    assert(name_code(code_name(0xBE)) == 0xBE);
    assert(name_code(code_name(0xBD)) == 0xBD);
    assert(name_code(code_name(0xBB)) == 0xBB);
    assert(name_code(code_name(0xC0)) == 0xC0);
    assert(name_code(code_name(0xDB)) == 0xDB);
    assert(name_code(code_name(0xDC)) == 0xDC);
    assert(name_code(code_name(0xDD)) == 0xDD);
    assert(name_code(code_name(0xDE)) == 0xDE);
    assert(name_code(code_name(0xBA)) == 0xBA);
    assert(name_code(code_name(0xBC)) == 0xBC);
    assert(name_code(code_name(0xBF)) == 0xBF);
}

/// The name `"Unknown"` leads to no known key's code.
proof fn lemma_unknown_name_code()
    ensures
        name_code("Unknown"@) == 0xFFFF,
{
    reveal_strlit("Backspace");
    reveal_strlit("Tab");
    reveal_strlit("Enter");
    reveal_strlit("Escape");
    reveal_strlit("Space");
    reveal_strlit("Delete");
    reveal_strlit("Insert");
    reveal_strlit("Home");
    reveal_strlit("End");
    reveal_strlit("PageUp");
    reveal_strlit("PageDown");
    reveal_strlit("Left");
    reveal_strlit("Up");
    reveal_strlit("Right");
    reveal_strlit("Down");
    reveal_strlit("PrintScreen");
    reveal_strlit("ScrollLock");
    reveal_strlit("Pause");
    reveal_strlit("CapsLock");
    reveal_strlit("LAlt");
    reveal_strlit("RAlt");
    reveal_strlit("LShift");
    reveal_strlit("RShift");
    reveal_strlit("LCtrl");
    reveal_strlit("RCtrl");
    reveal_strlit("LWin");
    reveal_strlit("RWin");
    reveal_strlit(".");
    reveal_strlit("-");
    reveal_strlit("=");
    reveal_strlit("`");
    reveal_strlit("[");
    reveal_strlit("\\");
    reveal_strlit("]");
    reveal_strlit("\'");
    reveal_strlit(";");
    reveal_strlit(",");
    reveal_strlit("/");
    reveal_strlit("Unknown");
}

/// Every known key has a name of its own: it is never `"Unknown"`, and two
/// keys with different codes have different names.
pub proof fn lemma_key_names_distinct(a: KeyCode, b: KeyCode)
    requires
        a != KeyCode::Unknown,
        b != KeyCode::Unknown,
    ensures
        code_name(key_code(a)) != "Unknown"@,
        key_code(a) != key_code(b) ==> code_name(key_code(a)) != code_name(key_code(b)),
{
    lemma_name_code_roundtrip(a);
    lemma_name_code_roundtrip(b);
    lemma_unknown_name_code();
}

/// The number of a function key (`F1` is 1), 0 for other keys.
pub open spec fn function_key_number(k: KeyCode) -> nat {
    match k {
        KeyCode::F1 => 1,
        KeyCode::F2 => 2,
        KeyCode::F3 => 3,
        KeyCode::F4 => 4,
        KeyCode::F5 => 5,
        KeyCode::F6 => 6,
        KeyCode::F7 => 7,
        KeyCode::F8 => 8,
        KeyCode::F9 => 9,
        KeyCode::F10 => 10,
        KeyCode::F11 => 11,
        KeyCode::F12 => 12,
        _ => 0,
    }
}

/// The letter on a letter key.
pub open spec fn letter_of(k: KeyCode) -> Option<char> {
    match k {
        KeyCode::KeyA => Some('A'),
        KeyCode::KeyB => Some('B'),
        KeyCode::KeyC => Some('C'),
        KeyCode::KeyD => Some('D'),
        KeyCode::KeyE => Some('E'),
        KeyCode::KeyF => Some('F'),
        KeyCode::KeyG => Some('G'),
        KeyCode::KeyH => Some('H'),
        KeyCode::KeyI => Some('I'),
        KeyCode::KeyJ => Some('J'),
        KeyCode::KeyK => Some('K'),
        KeyCode::KeyL => Some('L'),
        KeyCode::KeyM => Some('M'),
        KeyCode::KeyN => Some('N'),
        KeyCode::KeyO => Some('O'),
        KeyCode::KeyP => Some('P'),
        KeyCode::KeyQ => Some('Q'),
        KeyCode::KeyR => Some('R'),
        KeyCode::KeyS => Some('S'),
        KeyCode::KeyT => Some('T'),
        KeyCode::KeyU => Some('U'),
        KeyCode::KeyV => Some('V'),
        KeyCode::KeyW => Some('W'),
        KeyCode::KeyX => Some('X'),
        KeyCode::KeyY => Some('Y'),
        KeyCode::KeyZ => Some('Z'),
        _ => None,
    }
}

/// The digit on a digit key of the main block.
pub open spec fn digit_of(k: KeyCode) -> Option<nat> {
    match k {
        KeyCode::Num0 => Some(0nat),
        KeyCode::Num1 => Some(1nat),
        KeyCode::Num2 => Some(2nat),
        KeyCode::Num3 => Some(3nat),
        KeyCode::Num4 => Some(4nat),
        KeyCode::Num5 => Some(5nat),
        KeyCode::Num6 => Some(6nat),
        KeyCode::Num7 => Some(7nat),
        KeyCode::Num8 => Some(8nat),
        KeyCode::Num9 => Some(9nat),
        _ => None,
    }
}

/// The label shown for a key: `F<n>` for a function key, the letter or digit
/// for those keys, and the key's usual name or symbol for the others.
pub open spec fn key_label(k: KeyCode) -> Seq<char> {
    if function_key_number(k) > 0 {
        seq!['F'] + decimal(function_key_number(k))
    } else if letter_of(k) is Some {
        seq![letter_of(k)->0]
    } else if digit_of(k) is Some {
        seq![digit_char(digit_of(k)->0)]
    } else {
        match k {
        KeyCode::Backspace => "Backspace"@,
        KeyCode::Tab => "Tab"@,
        KeyCode::Return => "Enter"@,
        KeyCode::Escape => "Escape"@,
        KeyCode::Space => "Space"@,
        KeyCode::Delete => "Delete"@,
        KeyCode::Insert => "Insert"@,
        KeyCode::Home => "Home"@,
        KeyCode::End => "End"@,
        KeyCode::PageUp => "PageUp"@,
        KeyCode::PageDown => "PageDown"@,
        KeyCode::LeftArrow => "Left"@,
        KeyCode::UpArrow => "Up"@,
        KeyCode::RightArrow => "Right"@,
        KeyCode::DownArrow => "Down"@,
        KeyCode::PrintScreen => "PrintScreen"@,
        KeyCode::ScrollLock => "ScrollLock"@,
        KeyCode::Pause => "Pause"@,
        KeyCode::CapsLock => "CapsLock"@,
        KeyCode::Alt => "LAlt"@,
        KeyCode::AltGr => "RAlt"@,
        KeyCode::ShiftLeft => "LShift"@,
        KeyCode::ShiftRight => "RShift"@,
        KeyCode::ControlLeft => "LCtrl"@,
        KeyCode::ControlRight => "RCtrl"@,
        KeyCode::MetaLeft => "LWin"@,
        KeyCode::MetaRight => "RWin"@,
        KeyCode::Dot => "."@,
        KeyCode::Minus => "-"@,
        KeyCode::Equal => "="@,
        KeyCode::BackQuote => "`"@,
        KeyCode::LeftBracket => "["@,
        KeyCode::BackSlash => "\\"@,
        KeyCode::RightBracket => "]"@,
        KeyCode::Quote => "'"@,
        KeyCode::SemiColon => ";"@,
        KeyCode::Comma => ","@,
        KeyCode::Slash => "/"@,
            _ => "Unknown"@,
        }
    }
}

/// The stable codes are the Windows virtual-key codes: `F<n>` is `0x6F + n`,
/// a letter key has its capital letter's code and a digit key its digit's.
pub proof fn lemma_key_codes_are_virtual_keys(k: KeyCode)
    ensures
        function_key_number(k) > 0 ==> key_code(k) == 0x6F + function_key_number(k),
        letter_of(k) matches Some(c) ==> 'A' <= c <= 'Z' && key_code(k) == c as u32,
        digit_of(k) matches Some(d) ==> d < 10 && key_code(k) == 0x30 + d,
{
}

/// The name shown for a key's stable code is the key's own label: `F5` for
/// the F5 key, `A` for the A key, `Enter` for the return key, and so on.
pub proof fn lemma_key_name_is_label(k: KeyCode)
    requires
        k != KeyCode::Unknown,
    ensures
        code_name(key_code(k)) == key_label(k),
{
    if function_key_number(k) == 0 && letter_of(k) is None && digit_of(k) is None {
        reveal_strlit("Backspace");
        reveal_strlit("Tab");
        reveal_strlit("Enter");
        reveal_strlit("Escape");
        reveal_strlit("Space");
        reveal_strlit("Delete");
        reveal_strlit("Insert");
        reveal_strlit("Home");
        reveal_strlit("End");
        reveal_strlit("PageUp");
        reveal_strlit("PageDown");
        reveal_strlit("Left");
        reveal_strlit("Up");
        reveal_strlit("Right");
        reveal_strlit("Down");
        reveal_strlit("PrintScreen");
        reveal_strlit("ScrollLock");
        reveal_strlit("Pause");
        reveal_strlit("CapsLock");
        reveal_strlit("LAlt");
        reveal_strlit("RAlt");
        reveal_strlit("LShift");
        reveal_strlit("RShift");
        reveal_strlit("LCtrl");
        reveal_strlit("RCtrl");
        reveal_strlit("LWin");
        reveal_strlit("RWin");
        reveal_strlit(".");
        reveal_strlit("-");
        reveal_strlit("=");
        reveal_strlit("`");
        reveal_strlit("[");
        reveal_strlit("\\");
        reveal_strlit("]");
        reveal_strlit("'");
        reveal_strlit(";");
        reveal_strlit(",");
        reveal_strlit("/");
    } else if function_key_number(k) > 0 {
        assert(code_name(key_code(k)) =~= key_label(k));
    } else if letter_of(k) is Some {
        assert(code_name(key_code(k)) =~= key_label(k));
    } else {
        assert(code_name(key_code(k)) =~= key_label(k));
    }
}

/// A global input event, reduced to what the hotkey logic reads.
#[derive(Debug, Clone, Copy, PartialEq, Eq, Structural)]
pub enum InputEvent {
    KeyPress(KeyCode),
    KeyRelease(KeyCode),
    /// Mouse movement, buttons, wheel and other non-keyboard events.
    Other,
}

/// The stable code of the key in a keyboard event; `None` for other events.
pub fn key_to_code(et: InputEvent) -> (r: Option<u32>)
    ensures
        r == match et {
            InputEvent::KeyPress(k) => Some(key_code(k)),
            InputEvent::KeyRelease(k) => Some(key_code(k)),
            InputEvent::Other => None::<u32>,
        },
{
    match et {
        InputEvent::KeyPress(k) => Some(key_to_u32(k)),
        InputEvent::KeyRelease(k) => Some(key_to_u32(k)),
        InputEvent::Other => None,
    }
}

/// A push-to-talk signal.
#[derive(Debug, Clone, Copy, PartialEq, Eq, Structural)]
pub enum HotkeyEvent {
    Press,
    Release,
}

/// What the global key listener does with one input event.
#[derive(Debug, Clone, PartialEq, Eq)]
pub enum ListenerAction {
    /// Drop the event.
    Ignore,
    /// Report the key to the user interface (hotkey assignment mode).
    ReportKey { name: String, code: u32, pressed: bool },
    /// Signal the push-to-talk loop.
    Forward(HotkeyEvent),
}

/// The listener's decision for one input event.
///
/// Nothing happens while the listener is stopped or for non-keyboard events.
/// In capture-all mode every key press and release is reported with its name
/// and code; otherwise only events of the configured hotkey are forwarded.
pub open spec fn listener_decision(
    running: bool,
    capture_all: bool,
    hotkey_code: u32,
    event: InputEvent,
) -> Option<(bool, u32, bool)> {
    // (is_report, code, pressed)
    if !running {
        None
    } else {
        match event {
            InputEvent::KeyPress(k) => {
                if capture_all || key_code(k) == hotkey_code {
                    Some((capture_all, key_code(k), true))
                } else {
                    None
                }
            },
            InputEvent::KeyRelease(k) => {
                if capture_all || key_code(k) == hotkey_code {
                    Some((capture_all, key_code(k), false))
                } else {
                    None
                }
            },
            InputEvent::Other => None,
        }
    }
}

/// Decides what the global key listener does with `event`.
pub fn on_input_event(running: bool, capture_all: bool, hotkey_code: u32, event: InputEvent) -> (r:
    ListenerAction)
    ensures
        match listener_decision(running, capture_all, hotkey_code, event) {
            None => r == ListenerAction::Ignore,
            Some((true, code, pressed)) => r matches ListenerAction::ReportKey { name, code: c, pressed: p }
                && name@ == code_name(code) && c == code && p == pressed,
            Some((false, _, pressed)) => r == ListenerAction::Forward(
                if pressed { HotkeyEvent::Press } else { HotkeyEvent::Release },
            ),
        },
{
    if !running {
        return ListenerAction::Ignore;
    }
    let event_code = match key_to_code(event) {
        Some(c) => c,
        None => return ListenerAction::Ignore,
    };
    let pressed = match event {
        InputEvent::KeyPress(_) => true,
        InputEvent::KeyRelease(_) => false,
        InputEvent::Other => return ListenerAction::Ignore,
    };
    if capture_all {
        return ListenerAction::ReportKey { name: code_to_name(event_code), code: event_code, pressed };
    }
    if event_code == hotkey_code {
        if pressed {
            ListenerAction::Forward(HotkeyEvent::Press)
        } else {
            ListenerAction::Forward(HotkeyEvent::Release)
        }
    } else {
        ListenerAction::Ignore
    }
}

/// What the push-to-talk loop does after a hotkey signal.
#[derive(Debug, Clone, Copy, PartialEq, Eq, Structural)]
pub enum PttAction {
    /// Show the recording status and start streaming the microphone.
    StartRecording,
    /// Stop streaming, show transcribing, then return to listening.
    StopRecording,
    /// The signal does not change anything.
    Nothing,
}

/// The push-to-talk state: whether the microphone is being recorded.
#[derive(Debug, Clone, Copy, PartialEq, Eq, Structural)]
pub struct PushToTalk {
    pub recording: bool,
}

impl PushToTalk {
    /// The idle state.
    pub fn new() -> (r: Self)
        ensures
            !r.recording,
    {
        PushToTalk { recording: false }
    }

    /// Handles one hotkey signal.
    ///
    /// A press starts recording unless it is already running; a release stops
    /// it if it is running. Repeated presses (key auto-repeat) and stray
    /// releases change nothing.
    pub fn on_event(&mut self, evt: HotkeyEvent) -> (a: PttAction)
        ensures
            final(self).recording == (evt == HotkeyEvent::Press),
            a == (if evt == HotkeyEvent::Press && !old(self).recording {
                PttAction::StartRecording
            } else if evt == HotkeyEvent::Release && old(self).recording {
                PttAction::StopRecording
            } else {
                PttAction::Nothing
            }),
    {
        match evt {
            HotkeyEvent::Press => {
                if !self.recording {
                    self.recording = true;
                    PttAction::StartRecording
                } else {
                    PttAction::Nothing
                }
            },
            HotkeyEvent::Release => {
                if self.recording {
                    self.recording = false;
                    PttAction::StopRecording
                } else {
                    PttAction::Nothing
                }
            },
        }
    }
}

} // verus!
