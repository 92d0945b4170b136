//! The keys of a keyboard by name, with their HID usage codes.

use vstd::prelude::*;

verus! {

/// A key of the keyboard page of the HID usage tables.
#[derive(Debug, Clone, Copy, PartialEq, Eq, Hash, Structural)]
pub enum HIDCodes {
    /// The key "a".
    A,
    /// The key "b".
    B,
    /// The key "c".
    C,
    /// The key "d".
    D,
    /// The key "e".
    E,
    /// The key "f".
    F,
    /// The key "g".
    G,
    /// The key "h".
    H,
    /// The key "i".
    I,
    /// The key "j".
    J,
    /// The key "k".
    K,
    /// The key "l".
    L,
    /// The key "m".
    M,
    /// The key "n".
    N,
    /// The key "o".
    O,
    /// The key "p".
    P,
    /// The key "q".
    Q,
    /// The key "r".
    R,
    /// The key "s".
    S,
    /// The key "t".
    T,
    /// The key "u".
    U,
    /// The key "v".
    V,
    /// The key "w".
    W,
    /// The key "x".
    X,
    /// The key "y".
    Y,
    /// The key "z".
    Z,
    /// The key "digit1".
    N1,
    /// The key "digit2".
    N2,
    /// The key "digit3".
    N3,
    /// The key "digit4".
    N4,
    /// The key "digit5".
    N5,
    /// The key "digit6".
    N6,
    /// The key "digit7".
    N7,
    /// The key "digit8".
    N8,
    /// The key "digit9".
    N9,
    /// The key "digit0".
    N0,
    /// The key "enter".
    Enter,
    /// The key "escape".
    Escape,
    /// The key "backspace".
    Backspace,
    /// The key "tab".
    Tab,
    /// The key "space".
    Space,
    /// The key "minus".
    Minus,
    /// The key "equal".
    Equal,
    /// The key "bracket left".
    BracketLeft,
    /// The key "bracket right".
    BracketRight,
    /// The key "backslash".
    Backslash,
    /// The key "semicolon".
    Semicolon,
    /// The key "quote".
    Quote,
    /// The key "backquote".
    Backquote,
    /// The key "comma".
    Comma,
    /// The key "period".
    Period,
    /// The key "slash".
    Slash,
    /// The key "caps lock".
    CapsLock,
    /// The key "f1".
    F1,
    /// The key "f2".
    F2,
    /// The key "f3".
    F3,
    /// The key "f4".
    F4,
    /// The key "f5".
    F5,
    /// The key "f6".
    F6,
    /// The key "f7".
    F7,
    /// The key "f8".
    F8,
    /// The key "f9".
    F9,
    /// The key "f10".
    F10,
    /// The key "f11".
    F11,
    /// The key "f12".
    F12,
    /// The key "print screen".
    PrintScreen,
    /// The key "scroll lock".
    ScrollLock,
    /// The key "pause".
    PauseBreak,
    /// The key "insert".
    Insert,
    /// The key "home".
    Home,
    /// The key "page up".
    PageUp,
    /// The key "del".
    Delete,
    /// The key "end".
    End,
    /// The key "page down".
    PageDown,
    /// The key "arrow right".
    ArrowRight,
    /// The key "arrow left".
    ArrowLeft,
    /// The key "arrow down".
    ArrowDown,
    /// The key "arrow up".
    ArrowUp,
    /// The key "num lock".
    NumLock,
    /// The key "numpad divide".
    NumpadDivide,
    /// The key "numpad multiply".
    NumpadMultiply,
    /// The key "numpad subtract".
    NumpadSubtract,
    /// The key "numpad add".
    NumpadAdd,
    /// The key "numpad enter".
    NumpadEnter,
    /// The key "numpad1".
    Numpad1,
    /// The key "numpad2".
    Numpad2,
    /// The key "numpad3".
    Numpad3,
    /// The key "numpad4".
    Numpad4,
    /// The key "numpad5".
    Numpad5,
    /// The key "numpad6".
    Numpad6,
    /// The key "numpad7".
    Numpad7,
    /// The key "numpad8".
    Numpad8,
    /// The key "numpad9".
    Numpad9,
    /// The key "numpad0".
    Numpad0,
    /// The key "numpad decimal".
    NumpadDecimal,
    /// The key "intl backslash".
    InternationalBackslash,
    /// The key "context menu".
    ContextMenu,
    /// The key "power".
    Power,
    /// The key "numpad equal".
    NumpadEqual,
    /// The key "f13".
    F13,
    /// The key "f14".
    F14,
    /// The key "f15".
    F15,
    /// The key "f16".
    F16,
    /// The key "f17".
    F17,
    /// The key "f18".
    F18,
    /// The key "f19".
    F19,
    /// The key "f20".
    F20,
    /// The key "f21".
    F21,
    /// The key "f22".
    F22,
    /// The key "f23".
    F23,
    /// The key "f24".
    F24,
    /// The key "open".
    Open,
    /// The key "help".
    Help,
    /// The key "again".
    Again,
    /// The key "undo".
    Undo,
    /// The key "cut".
    Cut,
    /// The key "copy".
    Copy,
    /// The key "paste".
    Paste,
    /// The key "find".
    Find,
    /// The key "volume mute".
    VolumeMute,
    /// The key "volume up".
    VolumeUp,
    /// The key "volume down".
    VolumeDown,
    /// The key "numpad comma".
    NumpadComma,
    /// The key "intl ro".
    InternationalRO,
    /// The key "kana mode".
    KanaMode,
    /// The key "intl yen".
    InternationalYen,
    /// The key "convert".
    Convert,
    /// The key "non convert".
    NonConvert,
    /// The key "lang1".
    Lang1,
    /// The key "lang2".
    Lang2,
    /// The key "lang3".
    Lang3,
    /// The key "lang4".
    Lang4,
    /// The key "control left".
    LeftCtrl,
    /// The key "shift left".
    LeftShift,
    /// The key "alt left".
    LeftAlt,
    /// The key "meta left".
    LeftMeta,
    /// The key "control right".
    RightCtrl,
    /// The key "shift right".
    RightShift,
    /// The key "alt right".
    RightAlt,
    /// The key "meta right".
    RightMeta,
}

impl HIDCodes {
    /// The HID usage code of the key.
    pub open spec fn value(self) -> int {
        match self {
            HIDCodes::A => 0x04,
            HIDCodes::B => 0x05,
            HIDCodes::C => 0x06,
            HIDCodes::D => 0x07,
            HIDCodes::E => 0x08,
            HIDCodes::F => 0x09,
            HIDCodes::G => 0x0a,
            HIDCodes::H => 0x0b,
            HIDCodes::I => 0x0c,
            HIDCodes::J => 0x0d,
            HIDCodes::K => 0x0e,
            HIDCodes::L => 0x0f,
            HIDCodes::M => 0x10,
            HIDCodes::N => 0x11,
            HIDCodes::O => 0x12,
            HIDCodes::P => 0x13,
            HIDCodes::Q => 0x14,
            HIDCodes::R => 0x15,
            HIDCodes::S => 0x16,
            HIDCodes::T => 0x17,
            HIDCodes::U => 0x18,
            HIDCodes::V => 0x19,
            HIDCodes::W => 0x1a,
            HIDCodes::X => 0x1b,
            HIDCodes::Y => 0x1c,
            HIDCodes::Z => 0x1d,
            HIDCodes::N1 => 0x1e,
            HIDCodes::N2 => 0x1f,
            HIDCodes::N3 => 0x20,
            HIDCodes::N4 => 0x21,
            HIDCodes::N5 => 0x22,
            HIDCodes::N6 => 0x23,
            HIDCodes::N7 => 0x24,
            HIDCodes::N8 => 0x25,
            HIDCodes::N9 => 0x26,
            HIDCodes::N0 => 0x27,
            HIDCodes::Enter => 0x28,
            HIDCodes::Escape => 0x29,
            HIDCodes::Backspace => 0x2a,
            HIDCodes::Tab => 0x2b,
            HIDCodes::Space => 0x2c,
            HIDCodes::Minus => 0x2d,
            HIDCodes::Equal => 0x2e,
            HIDCodes::BracketLeft => 0x2f,
            HIDCodes::BracketRight => 0x30,
            HIDCodes::Backslash => 0x31,
            HIDCodes::Semicolon => 0x33,
            HIDCodes::Quote => 0x34,
            HIDCodes::Backquote => 0x35,
            HIDCodes::Comma => 0x36,
            HIDCodes::Period => 0x37,
            HIDCodes::Slash => 0x38,
            HIDCodes::CapsLock => 0x39,
            HIDCodes::F1 => 0x3a,
            HIDCodes::F2 => 0x3b,
            HIDCodes::F3 => 0x3c,
            HIDCodes::F4 => 0x3d,
            HIDCodes::F5 => 0x3e,
            HIDCodes::F6 => 0x3f,
            HIDCodes::F7 => 0x40,
            HIDCodes::F8 => 0x41,
            HIDCodes::F9 => 0x42,
            HIDCodes::F10 => 0x43,
            HIDCodes::F11 => 0x44,
            HIDCodes::F12 => 0x45,
            HIDCodes::PrintScreen => 0x46,
            HIDCodes::ScrollLock => 0x47,
            HIDCodes::PauseBreak => 0x48,
            HIDCodes::Insert => 0x49,
            HIDCodes::Home => 0x4a,
            HIDCodes::PageUp => 0x4b,
            HIDCodes::Delete => 0x4c,
            HIDCodes::End => 0x4d,
            HIDCodes::PageDown => 0x4e,
            HIDCodes::ArrowRight => 0x4f,
            HIDCodes::ArrowLeft => 0x50,
            HIDCodes::ArrowDown => 0x51,
            HIDCodes::ArrowUp => 0x52,
            HIDCodes::NumLock => 0x53,
            HIDCodes::NumpadDivide => 0x54,
            HIDCodes::NumpadMultiply => 0x55,
            HIDCodes::NumpadSubtract => 0x56,
            HIDCodes::NumpadAdd => 0x57,
            HIDCodes::NumpadEnter => 0x58,
            HIDCodes::Numpad1 => 0x59,
            HIDCodes::Numpad2 => 0x5a,
            HIDCodes::Numpad3 => 0x5b,
            HIDCodes::Numpad4 => 0x5c,
            HIDCodes::Numpad5 => 0x5d,
            HIDCodes::Numpad6 => 0x5e,
            HIDCodes::Numpad7 => 0x5f,
            HIDCodes::Numpad8 => 0x60,
            HIDCodes::Numpad9 => 0x61,
            HIDCodes::Numpad0 => 0x62,
            HIDCodes::NumpadDecimal => 0x63,
            HIDCodes::InternationalBackslash => 0x64,
            HIDCodes::ContextMenu => 0x65,
            HIDCodes::Power => 0x66,
            HIDCodes::NumpadEqual => 0x67,
            HIDCodes::F13 => 0x68,
            HIDCodes::F14 => 0x69,
            HIDCodes::F15 => 0x6a,
            HIDCodes::F16 => 0x6b,
            HIDCodes::F17 => 0x6c,
            HIDCodes::F18 => 0x6d,
            HIDCodes::F19 => 0x6e,
            HIDCodes::F20 => 0x6f,
            HIDCodes::F21 => 0x70,
            HIDCodes::F22 => 0x71,
            HIDCodes::F23 => 0x72,
            HIDCodes::F24 => 0x73,
            HIDCodes::Open => 0x74,
            HIDCodes::Help => 0x75,
            HIDCodes::Again => 0x79,
            HIDCodes::Undo => 0x7a,
            HIDCodes::Cut => 0x7b,
            HIDCodes::Copy => 0x7c,
            HIDCodes::Paste => 0x7d,
            HIDCodes::Find => 0x7e,
            HIDCodes::VolumeMute => 0x7f,
            HIDCodes::VolumeUp => 0x80,
            HIDCodes::VolumeDown => 0x81,
            HIDCodes::NumpadComma => 0x85,
            HIDCodes::InternationalRO => 0x87,
            HIDCodes::KanaMode => 0x88,
            HIDCodes::InternationalYen => 0x89,
            HIDCodes::Convert => 0x8a,
            HIDCodes::NonConvert => 0x8b,
            HIDCodes::Lang1 => 0x90,
            HIDCodes::Lang2 => 0x91,
            HIDCodes::Lang3 => 0x92,
            HIDCodes::Lang4 => 0x93,
            HIDCodes::LeftCtrl => 0xe0,
            HIDCodes::LeftShift => 0xe1,
            HIDCodes::LeftAlt => 0xe2,
            HIDCodes::LeftMeta => 0xe3,
            HIDCodes::RightCtrl => 0xe4,
            HIDCodes::RightShift => 0xe5,
            HIDCodes::RightAlt => 0xe6,
            HIDCodes::RightMeta => 0xe7,
        }
    }

    /// The key with HID usage code `code`.
    pub open spec fn with_value(code: int) -> Option<HIDCodes> {
        if code == 0x04 {
            Some(HIDCodes::A)
        } else if code == 0x05 {
            Some(HIDCodes::B)
        } else if code == 0x06 {
            Some(HIDCodes::C)
        } else if code == 0x07 {
            Some(HIDCodes::D)
        } else if code == 0x08 {
            Some(HIDCodes::E)
        } else if code == 0x09 {
            Some(HIDCodes::F)
        } else if code == 0x0a {
            Some(HIDCodes::G)
        } else if code == 0x0b {
            Some(HIDCodes::H)
        } else if code == 0x0c {
            Some(HIDCodes::I)
        } else if code == 0x0d {
            Some(HIDCodes::J)
        } else if code == 0x0e {
            Some(HIDCodes::K)
        } else if code == 0x0f {
            Some(HIDCodes::L)
        } else if code == 0x10 {
            Some(HIDCodes::M)
        } else if code == 0x11 {
            Some(HIDCodes::N)
        } else if code == 0x12 {
            Some(HIDCodes::O)
        } else if code == 0x13 {
            Some(HIDCodes::P)
        } else if code == 0x14 {
            Some(HIDCodes::Q)
        } else if code == 0x15 {
            Some(HIDCodes::R)
        } else if code == 0x16 {
            Some(HIDCodes::S)
        } else if code == 0x17 {
            Some(HIDCodes::T)
        } else if code == 0x18 {
            Some(HIDCodes::U)
        } else if code == 0x19 {
            Some(HIDCodes::V)
        } else if code == 0x1a {
            Some(HIDCodes::W)
        } else if code == 0x1b {
            Some(HIDCodes::X)
        } else if code == 0x1c {
            Some(HIDCodes::Y)
        } else if code == 0x1d {
            Some(HIDCodes::Z)
        } else if code == 0x1e {
            Some(HIDCodes::N1)
        } else if code == 0x1f {
            Some(HIDCodes::N2)
        } else if code == 0x20 {
            Some(HIDCodes::N3)
        } else if code == 0x21 {
            Some(HIDCodes::N4)
        } else if code == 0x22 {
            Some(HIDCodes::N5)
        } else if code == 0x23 {
            Some(HIDCodes::N6)
        } else if code == 0x24 {
            Some(HIDCodes::N7)
        } else if code == 0x25 {
            Some(HIDCodes::N8)
        } else if code == 0x26 {
            Some(HIDCodes::N9)
        } else if code == 0x27 {
            Some(HIDCodes::N0)
        } else if code == 0x28 {
            Some(HIDCodes::Enter)
        } else if code == 0x29 {
            Some(HIDCodes::Escape)
        } else if code == 0x2a {
            Some(HIDCodes::Backspace)
        } else if code == 0x2b {
            Some(HIDCodes::Tab)
        } else if code == 0x2c {
            Some(HIDCodes::Space)
        } else if code == 0x2d {
            Some(HIDCodes::Minus)
        } else if code == 0x2e {
            Some(HIDCodes::Equal)
        } else if code == 0x2f {
            Some(HIDCodes::BracketLeft)
        } else if code == 0x30 {
            Some(HIDCodes::BracketRight)
        } else if code == 0x31 {
            Some(HIDCodes::Backslash)
        } else if code == 0x33 {
            Some(HIDCodes::Semicolon)
        } else if code == 0x34 {
            Some(HIDCodes::Quote)
        } else if code == 0x35 {
            Some(HIDCodes::Backquote)
        } else if code == 0x36 {
            Some(HIDCodes::Comma)
        } else if code == 0x37 {
            Some(HIDCodes::Period)
        } else if code == 0x38 {
            Some(HIDCodes::Slash)
        } else if code == 0x39 {
            Some(HIDCodes::CapsLock)
        } else if code == 0x3a {
            Some(HIDCodes::F1)
        } else if code == 0x3b {
            Some(HIDCodes::F2)
        } else if code == 0x3c {
            Some(HIDCodes::F3)
        } else if code == 0x3d {
            Some(HIDCodes::F4)
        } else if code == 0x3e {
            Some(HIDCodes::F5)
        } else if code == 0x3f {
            Some(HIDCodes::F6)
        } else if code == 0x40 {
            Some(HIDCodes::F7)
        } else if code == 0x41 {
            Some(HIDCodes::F8)
        } else if code == 0x42 {
            Some(HIDCodes::F9)
        } else if code == 0x43 {
            Some(HIDCodes::F10)
        } else if code == 0x44 {
            Some(HIDCodes::F11)
        } else if code == 0x45 {
            Some(HIDCodes::F12)
        } else if code == 0x46 {
            Some(HIDCodes::PrintScreen)
        } else if code == 0x47 {
            Some(HIDCodes::ScrollLock)
        } else if code == 0x48 {
            Some(HIDCodes::PauseBreak)
        } else if code == 0x49 {
            Some(HIDCodes::Insert)
        } else if code == 0x4a {
            Some(HIDCodes::Home)
        } else if code == 0x4b {
            Some(HIDCodes::PageUp)
        } else if code == 0x4c {
            Some(HIDCodes::Delete)
        } else if code == 0x4d {
            Some(HIDCodes::End)
        } else if code == 0x4e {
            Some(HIDCodes::PageDown)
        } else if code == 0x4f {
            Some(HIDCodes::ArrowRight)
        } else if code == 0x50 {
            Some(HIDCodes::ArrowLeft)
        } else if code == 0x51 {
            Some(HIDCodes::ArrowDown)
        } else if code == 0x52 {
            Some(HIDCodes::ArrowUp)
        } else if code == 0x53 {
            Some(HIDCodes::NumLock)
        } else if code == 0x54 {
            Some(HIDCodes::NumpadDivide)
        } else if code == 0x55 {
            Some(HIDCodes::NumpadMultiply)
        } else if code == 0x56 {
            Some(HIDCodes::NumpadSubtract)
        } else if code == 0x57 {
            Some(HIDCodes::NumpadAdd)
        } else if code == 0x58 {
            Some(HIDCodes::NumpadEnter)
        } else if code == 0x59 {
            Some(HIDCodes::Numpad1)
        } else if code == 0x5a {
            Some(HIDCodes::Numpad2)
        } else if code == 0x5b {
            Some(HIDCodes::Numpad3)
        } else if code == 0x5c {
            Some(HIDCodes::Numpad4)
        } else if code == 0x5d {
            Some(HIDCodes::Numpad5)
        } else if code == 0x5e {
            Some(HIDCodes::Numpad6)
        } else if code == 0x5f {
            Some(HIDCodes::Numpad7)
        } else if code == 0x60 {
            Some(HIDCodes::Numpad8)
        } else if code == 0x61 {
            Some(HIDCodes::Numpad9)
        } else if code == 0x62 {
            Some(HIDCodes::Numpad0)
        } else if code == 0x63 {
            Some(HIDCodes::NumpadDecimal)
        } else if code == 0x64 {
            Some(HIDCodes::InternationalBackslash)
        } else if code == 0x65 {
            Some(HIDCodes::ContextMenu)
        } else if code == 0x66 {
            Some(HIDCodes::Power)
        } else if code == 0x67 {
            Some(HIDCodes::NumpadEqual)
        } else if code == 0x68 {
            Some(HIDCodes::F13)
        } else if code == 0x69 {
            Some(HIDCodes::F14)
        } else if code == 0x6a {
            Some(HIDCodes::F15)
        } else if code == 0x6b {
            Some(HIDCodes::F16)
        } else if code == 0x6c {
            Some(HIDCodes::F17)
        } else if code == 0x6d {
            Some(HIDCodes::F18)
        } else if code == 0x6e {
            Some(HIDCodes::F19)
        } else if code == 0x6f {
            Some(HIDCodes::F20)
        } else if code == 0x70 {
            Some(HIDCodes::F21)
        } else if code == 0x71 {
            Some(HIDCodes::F22)
        } else if code == 0x72 {
            Some(HIDCodes::F23)
        } else if code == 0x73 {
            Some(HIDCodes::F24)
        } else if code == 0x74 {
            Some(HIDCodes::Open)
        } else if code == 0x75 {
            Some(HIDCodes::Help)
        } else if code == 0x79 {
            Some(HIDCodes::Again)
        } else if code == 0x7a {
            Some(HIDCodes::Undo)
        } else if code == 0x7b {
            Some(HIDCodes::Cut)
        } else if code == 0x7c {
            Some(HIDCodes::Copy)
        } else if code == 0x7d {
            Some(HIDCodes::Paste)
        } else if code == 0x7e {
            Some(HIDCodes::Find)
        } else if code == 0x7f {
            Some(HIDCodes::VolumeMute)
        } else if code == 0x80 {
            Some(HIDCodes::VolumeUp)
        } else if code == 0x81 {
            Some(HIDCodes::VolumeDown)
        } else if code == 0x85 {
            Some(HIDCodes::NumpadComma)
        } else if code == 0x87 {
            Some(HIDCodes::InternationalRO)
        } else if code == 0x88 {
            Some(HIDCodes::KanaMode)
        } else if code == 0x89 {
            Some(HIDCodes::InternationalYen)
        } else if code == 0x8a {
            Some(HIDCodes::Convert)
        } else if code == 0x8b {
            Some(HIDCodes::NonConvert)
        } else if code == 0x90 {
            Some(HIDCodes::Lang1)
        } else if code == 0x91 {
            Some(HIDCodes::Lang2)
        } else if code == 0x92 {
            Some(HIDCodes::Lang3)
        } else if code == 0x93 {
            Some(HIDCodes::Lang4)
        } else if code == 0xe0 {
            Some(HIDCodes::LeftCtrl)
        } else if code == 0xe1 {
            Some(HIDCodes::LeftShift)
        } else if code == 0xe2 {
            Some(HIDCodes::LeftAlt)
        } else if code == 0xe3 {
            Some(HIDCodes::LeftMeta)
        } else if code == 0xe4 {
            Some(HIDCodes::RightCtrl)
        } else if code == 0xe5 {
            Some(HIDCodes::RightShift)
        } else if code == 0xe6 {
            Some(HIDCodes::RightAlt)
        } else if code == 0xe7 {
            Some(HIDCodes::RightMeta)
        } else {
            None
        }
    }

    /// The HID usage code of the key.
    pub fn to_u16(&self) -> (code: u16)
        ensures
            code == self.value(),
    {
        match self {
            HIDCodes::A => 0x04,
            HIDCodes::B => 0x05,
            HIDCodes::C => 0x06,
            HIDCodes::D => 0x07,
            HIDCodes::E => 0x08,
            HIDCodes::F => 0x09,
            HIDCodes::G => 0x0a,
            HIDCodes::H => 0x0b,
            HIDCodes::I => 0x0c,
            HIDCodes::J => 0x0d,
            HIDCodes::K => 0x0e,
            HIDCodes::L => 0x0f,
            HIDCodes::M => 0x10,
            HIDCodes::N => 0x11,
            HIDCodes::O => 0x12,
            HIDCodes::P => 0x13,
            HIDCodes::Q => 0x14,
            HIDCodes::R => 0x15,
            HIDCodes::S => 0x16,
            HIDCodes::T => 0x17,
            HIDCodes::U => 0x18,
            HIDCodes::V => 0x19,
            HIDCodes::W => 0x1a,
            HIDCodes::X => 0x1b,
            HIDCodes::Y => 0x1c,
            HIDCodes::Z => 0x1d,
            HIDCodes::N1 => 0x1e,
            HIDCodes::N2 => 0x1f,
            HIDCodes::N3 => 0x20,
            HIDCodes::N4 => 0x21,
            HIDCodes::N5 => 0x22,
            HIDCodes::N6 => 0x23,
            HIDCodes::N7 => 0x24,
            HIDCodes::N8 => 0x25,
            HIDCodes::N9 => 0x26,
            HIDCodes::N0 => 0x27,
            HIDCodes::Enter => 0x28,
            HIDCodes::Escape => 0x29,
            HIDCodes::Backspace => 0x2a,
            HIDCodes::Tab => 0x2b,
            HIDCodes::Space => 0x2c,
            HIDCodes::Minus => 0x2d,
            HIDCodes::Equal => 0x2e,
            HIDCodes::BracketLeft => 0x2f,
            HIDCodes::BracketRight => 0x30,
            HIDCodes::Backslash => 0x31,
            HIDCodes::Semicolon => 0x33,
            HIDCodes::Quote => 0x34,
            HIDCodes::Backquote => 0x35,
            HIDCodes::Comma => 0x36,
            HIDCodes::Period => 0x37,
            HIDCodes::Slash => 0x38,
            HIDCodes::CapsLock => 0x39,
            HIDCodes::F1 => 0x3a,
            HIDCodes::F2 => 0x3b,
            HIDCodes::F3 => 0x3c,
            HIDCodes::F4 => 0x3d,
            HIDCodes::F5 => 0x3e,
            HIDCodes::F6 => 0x3f,
            HIDCodes::F7 => 0x40,
            HIDCodes::F8 => 0x41,
            HIDCodes::F9 => 0x42,
            HIDCodes::F10 => 0x43,
            HIDCodes::F11 => 0x44,
            HIDCodes::F12 => 0x45,
            HIDCodes::PrintScreen => 0x46,
            HIDCodes::ScrollLock => 0x47,
            HIDCodes::PauseBreak => 0x48,
            HIDCodes::Insert => 0x49,
            HIDCodes::Home => 0x4a,
            HIDCodes::PageUp => 0x4b,
            HIDCodes::Delete => 0x4c,
            HIDCodes::End => 0x4d,
            HIDCodes::PageDown => 0x4e,
            HIDCodes::ArrowRight => 0x4f,
            HIDCodes::ArrowLeft => 0x50,
            HIDCodes::ArrowDown => 0x51,
            HIDCodes::ArrowUp => 0x52,
            HIDCodes::NumLock => 0x53,
            HIDCodes::NumpadDivide => 0x54,
            HIDCodes::NumpadMultiply => 0x55,
            HIDCodes::NumpadSubtract => 0x56,
            HIDCodes::NumpadAdd => 0x57,
            HIDCodes::NumpadEnter => 0x58,
            HIDCodes::Numpad1 => 0x59,
            HIDCodes::Numpad2 => 0x5a,
            HIDCodes::Numpad3 => 0x5b,
            HIDCodes::Numpad4 => 0x5c,
            HIDCodes::Numpad5 => 0x5d,
            HIDCodes::Numpad6 => 0x5e,
            HIDCodes::Numpad7 => 0x5f,
            HIDCodes::Numpad8 => 0x60,
            HIDCodes::Numpad9 => 0x61,
            HIDCodes::Numpad0 => 0x62,
            HIDCodes::NumpadDecimal => 0x63,
            HIDCodes::InternationalBackslash => 0x64,
            HIDCodes::ContextMenu => 0x65,
            HIDCodes::Power => 0x66,
            HIDCodes::NumpadEqual => 0x67,
            HIDCodes::F13 => 0x68,
            HIDCodes::F14 => 0x69,
            HIDCodes::F15 => 0x6a,
            HIDCodes::F16 => 0x6b,
            HIDCodes::F17 => 0x6c,
            HIDCodes::F18 => 0x6d,
            HIDCodes::F19 => 0x6e,
            HIDCodes::F20 => 0x6f,
            HIDCodes::F21 => 0x70,
            HIDCodes::F22 => 0x71,
            HIDCodes::F23 => 0x72,
            HIDCodes::F24 => 0x73,
            HIDCodes::Open => 0x74,
            HIDCodes::Help => 0x75,
            HIDCodes::Again => 0x79,
            HIDCodes::Undo => 0x7a,
            HIDCodes::Cut => 0x7b,
            HIDCodes::Copy => 0x7c,
            HIDCodes::Paste => 0x7d,
            HIDCodes::Find => 0x7e,
            HIDCodes::VolumeMute => 0x7f,
            HIDCodes::VolumeUp => 0x80,
            HIDCodes::VolumeDown => 0x81,
            HIDCodes::NumpadComma => 0x85,
            HIDCodes::InternationalRO => 0x87,
            HIDCodes::KanaMode => 0x88,
            HIDCodes::InternationalYen => 0x89,
            HIDCodes::Convert => 0x8a,
            HIDCodes::NonConvert => 0x8b,
            HIDCodes::Lang1 => 0x90,
            HIDCodes::Lang2 => 0x91,
            HIDCodes::Lang3 => 0x92,
            HIDCodes::Lang4 => 0x93,
            HIDCodes::LeftCtrl => 0xe0,
            HIDCodes::LeftShift => 0xe1,
            HIDCodes::LeftAlt => 0xe2,
            HIDCodes::LeftMeta => 0xe3,
            HIDCodes::RightCtrl => 0xe4,
            HIDCodes::RightShift => 0xe5,
            HIDCodes::RightAlt => 0xe6,
            HIDCodes::RightMeta => 0xe7,
        }
    }

    /// The key with HID usage code `code`; `None` where no key of this list
    /// has the code.
    pub fn from_u16(code: u16) -> (key: Option<HIDCodes>)
        ensures
            key == Self::with_value(code as int),
            key matches Some(k) ==> k.value() == code,
            key is None ==> forall|k: HIDCodes| k.value() != code,
    {
        match code {
            0x04 => Some(HIDCodes::A),
            0x05 => Some(HIDCodes::B),
            0x06 => Some(HIDCodes::C),
            0x07 => Some(HIDCodes::D),
            0x08 => Some(HIDCodes::E),
            0x09 => Some(HIDCodes::F),
            0x0a => Some(HIDCodes::G),
            0x0b => Some(HIDCodes::H),
            0x0c => Some(HIDCodes::I),
            0x0d => Some(HIDCodes::J),
            0x0e => Some(HIDCodes::K),
            0x0f => Some(HIDCodes::L),
            0x10 => Some(HIDCodes::M),
            0x11 => Some(HIDCodes::N),
            0x12 => Some(HIDCodes::O),
            0x13 => Some(HIDCodes::P),
            0x14 => Some(HIDCodes::Q),
            0x15 => Some(HIDCodes::R),
            0x16 => Some(HIDCodes::S),
            0x17 => Some(HIDCodes::T),
            0x18 => Some(HIDCodes::U),
            0x19 => Some(HIDCodes::V),
            0x1a => Some(HIDCodes::W),
            0x1b => Some(HIDCodes::X),
            0x1c => Some(HIDCodes::Y),
            0x1d => Some(HIDCodes::Z),
            0x1e => Some(HIDCodes::N1),
            0x1f => Some(HIDCodes::N2),
            0x20 => Some(HIDCodes::N3),
            0x21 => Some(HIDCodes::N4),
            0x22 => Some(HIDCodes::N5),
            0x23 => Some(HIDCodes::N6),
            0x24 => Some(HIDCodes::N7),
            0x25 => Some(HIDCodes::N8),
            0x26 => Some(HIDCodes::N9),
            0x27 => Some(HIDCodes::N0),
            0x28 => Some(HIDCodes::Enter),
            0x29 => Some(HIDCodes::Escape),
            0x2a => Some(HIDCodes::Backspace),
            0x2b => Some(HIDCodes::Tab),
            0x2c => Some(HIDCodes::Space),
            0x2d => Some(HIDCodes::Minus),
            0x2e => Some(HIDCodes::Equal),
            0x2f => Some(HIDCodes::BracketLeft),
            0x30 => Some(HIDCodes::BracketRight),
            0x31 => Some(HIDCodes::Backslash),
            0x33 => Some(HIDCodes::Semicolon),
            0x34 => Some(HIDCodes::Quote),
            0x35 => Some(HIDCodes::Backquote),
            0x36 => Some(HIDCodes::Comma),
            0x37 => Some(HIDCodes::Period),
            0x38 => Some(HIDCodes::Slash),
            0x39 => Some(HIDCodes::CapsLock),
            0x3a => Some(HIDCodes::F1),
            0x3b => Some(HIDCodes::F2),
            0x3c => Some(HIDCodes::F3),
            0x3d => Some(HIDCodes::F4),
            0x3e => Some(HIDCodes::F5),
            0x3f => Some(HIDCodes::F6),
            0x40 => Some(HIDCodes::F7),
            0x41 => Some(HIDCodes::F8),
            0x42 => Some(HIDCodes::F9),
            0x43 => Some(HIDCodes::F10),
            0x44 => Some(HIDCodes::F11),
            0x45 => Some(HIDCodes::F12),
            0x46 => Some(HIDCodes::PrintScreen),
            0x47 => Some(HIDCodes::ScrollLock),
            0x48 => Some(HIDCodes::PauseBreak),
            0x49 => Some(HIDCodes::Insert),
            0x4a => Some(HIDCodes::Home),
            0x4b => Some(HIDCodes::PageUp),
            0x4c => Some(HIDCodes::Delete),
            0x4d => Some(HIDCodes::End),
            0x4e => Some(HIDCodes::PageDown),
            0x4f => Some(HIDCodes::ArrowRight),
            0x50 => Some(HIDCodes::ArrowLeft),
            0x51 => Some(HIDCodes::ArrowDown),
            0x52 => Some(HIDCodes::ArrowUp),
            0x53 => Some(HIDCodes::NumLock),
            0x54 => Some(HIDCodes::NumpadDivide),
            0x55 => Some(HIDCodes::NumpadMultiply),
            0x56 => Some(HIDCodes::NumpadSubtract),
            0x57 => Some(HIDCodes::NumpadAdd),
            0x58 => Some(HIDCodes::NumpadEnter),
            0x59 => Some(HIDCodes::Numpad1),
            0x5a => Some(HIDCodes::Numpad2),
            0x5b => Some(HIDCodes::Numpad3),
            0x5c => Some(HIDCodes::Numpad4),
            0x5d => Some(HIDCodes::Numpad5),
            0x5e => Some(HIDCodes::Numpad6),
            0x5f => Some(HIDCodes::Numpad7),
            0x60 => Some(HIDCodes::Numpad8),
            0x61 => Some(HIDCodes::Numpad9),
            0x62 => Some(HIDCodes::Numpad0),
            0x63 => Some(HIDCodes::NumpadDecimal),
            0x64 => Some(HIDCodes::InternationalBackslash),
            0x65 => Some(HIDCodes::ContextMenu),
            0x66 => Some(HIDCodes::Power),
            0x67 => Some(HIDCodes::NumpadEqual),
            0x68 => Some(HIDCodes::F13),
            0x69 => Some(HIDCodes::F14),
            0x6a => Some(HIDCodes::F15),
            0x6b => Some(HIDCodes::F16),
            0x6c => Some(HIDCodes::F17),
            0x6d => Some(HIDCodes::F18),
            0x6e => Some(HIDCodes::F19),
            0x6f => Some(HIDCodes::F20),
            0x70 => Some(HIDCodes::F21),
            0x71 => Some(HIDCodes::F22),
            0x72 => Some(HIDCodes::F23),
            0x73 => Some(HIDCodes::F24),
            0x74 => Some(HIDCodes::Open),
            0x75 => Some(HIDCodes::Help),
            0x79 => Some(HIDCodes::Again),
            0x7a => Some(HIDCodes::Undo),
            0x7b => Some(HIDCodes::Cut),
            0x7c => Some(HIDCodes::Copy),
            0x7d => Some(HIDCodes::Paste),
            0x7e => Some(HIDCodes::Find),
            0x7f => Some(HIDCodes::VolumeMute),
            0x80 => Some(HIDCodes::VolumeUp),
            0x81 => Some(HIDCodes::VolumeDown),
            0x85 => Some(HIDCodes::NumpadComma),
            0x87 => Some(HIDCodes::InternationalRO),
            0x88 => Some(HIDCodes::KanaMode),
            0x89 => Some(HIDCodes::InternationalYen),
            0x8a => Some(HIDCodes::Convert),
            0x8b => Some(HIDCodes::NonConvert),
            0x90 => Some(HIDCodes::Lang1),
            0x91 => Some(HIDCodes::Lang2),
            0x92 => Some(HIDCodes::Lang3),
            0x93 => Some(HIDCodes::Lang4),
            0xe0 => Some(HIDCodes::LeftCtrl),
            0xe1 => Some(HIDCodes::LeftShift),
            0xe2 => Some(HIDCodes::LeftAlt),
            0xe3 => Some(HIDCodes::LeftMeta),
            0xe4 => Some(HIDCodes::RightCtrl),
            0xe5 => Some(HIDCodes::RightShift),
            0xe6 => Some(HIDCodes::RightAlt),
            0xe7 => Some(HIDCodes::RightMeta),
            _ => None,
        }
    }
}

/// Every key is found again by its HID usage code.
pub proof fn lemma_keys_are_found_by_their_codes(key: HIDCodes)
    ensures
        HIDCodes::with_value(key.value()) == Some(key),
        0x04 <= key.value() <= 0xe7,
{
}

} // verus!
