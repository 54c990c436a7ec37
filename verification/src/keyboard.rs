//! Keyboard translation: physical key codes, modifier flags and key events
//! in the form the browser host expects them.

use vstd::prelude::*;

verus! {

/// Caps Lock is on.
pub const EVENTFLAG_CAPS_LOCK_ON: u32 = 1;
/// A Shift key is held.
pub const EVENTFLAG_SHIFT_DOWN: u32 = 2;
/// A Control key is held.
pub const EVENTFLAG_CONTROL_DOWN: u32 = 4;
/// An Alt key is held.
pub const EVENTFLAG_ALT_DOWN: u32 = 8;
/// The left mouse button is held.
pub const EVENTFLAG_LEFT_MOUSE_BUTTON: u32 = 16;
/// The middle mouse button is held.
pub const EVENTFLAG_MIDDLE_MOUSE_BUTTON: u32 = 32;
/// The right mouse button is held.
pub const EVENTFLAG_RIGHT_MOUSE_BUTTON: u32 = 64;
/// A Command / Meta key is held.
pub const EVENTFLAG_COMMAND_DOWN: u32 = 128;
/// Num Lock is on.
pub const EVENTFLAG_NUM_LOCK_ON: u32 = 256;
/// The key lies on the numeric keypad.
pub const EVENTFLAG_IS_KEY_PAD: u32 = 512;
/// The key is the left one of a pair.
pub const EVENTFLAG_IS_LEFT: u32 = 1024;
/// The key is the right one of a pair.
pub const EVENTFLAG_IS_RIGHT: u32 = 2048;
/// AltGr is held.
pub const EVENTFLAG_ALTGR_DOWN: u32 = 4096;
/// The key event is an auto-repeat.
pub const EVENTFLAG_IS_REPEAT: u32 = 8192;

/// A physical key position, named after the W3C UI Events `code` values.
#[derive(Clone, Copy, Debug, PartialEq, Eq, Structural)]
pub enum KeyCode {
    Backquote,
    Backslash,
    BracketLeft,
    BracketRight,
    Comma,
    Digit0,
    Digit1,
    Digit2,
    Digit3,
    Digit4,
    Digit5,
    Digit6,
    Digit7,
    Digit8,
    Digit9,
    Equal,
    IntlBackslash,
    IntlRo,
    IntlYen,
    KeyA,
    KeyB,
    KeyC,
    KeyD,
    KeyE,
    KeyF,
    KeyG,
    KeyH,
    KeyI,
    KeyJ,
    KeyK,
    KeyL,
    KeyM,
    KeyN,
    KeyO,
    KeyP,
    KeyQ,
    KeyR,
    KeyS,
    KeyT,
    KeyU,
    KeyV,
    KeyW,
    KeyX,
    KeyY,
    KeyZ,
    Minus,
    Period,
    Quote,
    Semicolon,
    Slash,
    AltLeft,
    AltRight,
    Backspace,
    CapsLock,
    ContextMenu,
    ControlLeft,
    ControlRight,
    Enter,
    MetaLeft,
    MetaRight,
    ShiftLeft,
    ShiftRight,
    Space,
    Tab,
    Convert,
    KanaMode,
    Lang1,
    Lang2,
    Lang3,
    Lang4,
    Lang5,
    NonConvert,
    Delete,
    End,
    Help,
    Home,
    Insert,
    PageDown,
    PageUp,
    ArrowDown,
    ArrowLeft,
    ArrowRight,
    ArrowUp,
    NumLock,
    Numpad0,
    Numpad1,
    Numpad2,
    Numpad3,
    Numpad4,
    Numpad5,
    Numpad6,
    Numpad7,
    Numpad8,
    Numpad9,
    NumpadAdd,
    NumpadBackspace,
    NumpadClear,
    NumpadClearEntry,
    NumpadComma,
    NumpadDecimal,
    NumpadDivide,
    NumpadEnter,
    NumpadEqual,
    NumpadHash,
    NumpadMemoryAdd,
    NumpadMemoryClear,
    NumpadMemoryRecall,
    NumpadMemoryStore,
    NumpadMemorySubtract,
    NumpadMultiply,
    NumpadParenLeft,
    NumpadParenRight,
    NumpadStar,
    NumpadSubtract,
    Escape,
    Fn,
    FnLock,
    PrintScreen,
    ScrollLock,
    Pause,
    BrowserBack,
    BrowserFavorites,
    BrowserForward,
    BrowserHome,
    BrowserRefresh,
    BrowserSearch,
    BrowserStop,
    Eject,
    LaunchApp1,
    LaunchApp2,
    LaunchMail,
    MediaPlay,
    MediaPlayPause,
    MediaSelect,
    MediaStop,
    MediaTrackNext,
    MediaTrackPrevious,
    Power,
    Sleep,
    AudioVolumeDown,
    AudioVolumeMute,
    AudioVolumeUp,
    WakeUp,
    Meta,
    Hyper,
    Turbo,
    Abort,
    Resume,
    Suspend,
    Again,
    Copy,
    Cut,
    Find,
    Open,
    Paste,
    Props,
    Select,
    Undo,
    Hiragana,
    Katakana,
    F1,
    F2,
    F3,
    F4,
    F5,
    F6,
    F7,
    F8,
    F9,
    F10,
    F11,
    F12,
    F13,
    F14,
    F15,
    F16,
    F17,
    F18,
    F19,
    F20,
    F21,
    F22,
    F23,
    F24,
    F25,
    F26,
    F27,
    F28,
    F29,
    F30,
    F31,
    F32,
    F33,
    F34,
    F35,
}

/// The Linux evdev scan code that the browser receives for a physical key;
/// 0 for keys that have none here.
pub open spec fn native_scan_code(code: KeyCode) -> i32 {
    match code {
        KeyCode::Escape => 1,
        KeyCode::Digit1 => 2,
        KeyCode::Digit2 => 3,
        KeyCode::Digit3 => 4,
        KeyCode::Digit4 => 5,
        KeyCode::Digit5 => 6,
        KeyCode::Digit6 => 7,
        KeyCode::Digit7 => 8,
        KeyCode::Digit8 => 9,
        KeyCode::Digit9 => 10,
        KeyCode::Digit0 => 11,
        KeyCode::Minus => 12,
        KeyCode::Equal => 13,
        KeyCode::Backspace => 14,
        KeyCode::Tab => 15,
        KeyCode::KeyQ => 16,
        KeyCode::KeyW => 17,
        KeyCode::KeyE => 18,
        KeyCode::KeyR => 19,
        KeyCode::KeyT => 20,
        KeyCode::KeyY => 21,
        KeyCode::KeyU => 22,
        KeyCode::KeyI => 23,
        KeyCode::KeyO => 24,
        KeyCode::KeyP => 25,
        KeyCode::BracketLeft => 26,
        KeyCode::BracketRight => 27,
        KeyCode::Enter => 28,
        KeyCode::ControlLeft => 29,
        KeyCode::KeyA => 30,
        KeyCode::KeyS => 31,
        KeyCode::KeyD => 32,
        KeyCode::KeyF => 33,
        KeyCode::KeyG => 34,
        KeyCode::KeyH => 35,
        KeyCode::KeyJ => 36,
        KeyCode::KeyK => 37,
        KeyCode::KeyL => 38,
        KeyCode::Semicolon => 39,
        KeyCode::Quote => 40,
        KeyCode::Backquote => 41,
        KeyCode::ShiftLeft => 42,
        KeyCode::Backslash => 43,
        KeyCode::KeyZ => 44,
        KeyCode::KeyX => 45,
        KeyCode::KeyC => 46,
        KeyCode::KeyV => 47,
        KeyCode::KeyB => 48,
        KeyCode::KeyN => 49,
        KeyCode::KeyM => 50,
        KeyCode::Comma => 51,
        KeyCode::Period => 52,
        KeyCode::Slash => 53,
        KeyCode::ShiftRight => 54,
        KeyCode::NumpadMultiply => 55,
        KeyCode::AltLeft => 56,
        KeyCode::Space => 57,
        KeyCode::CapsLock => 58,
        KeyCode::F1 => 59,
        KeyCode::F2 => 60,
        KeyCode::F3 => 61,
        KeyCode::F4 => 62,
        KeyCode::F5 => 63,
        KeyCode::F6 => 64,
        KeyCode::F7 => 65,
        KeyCode::F8 => 66,
        KeyCode::F9 => 67,
        KeyCode::F10 => 68,
        KeyCode::ScrollLock => 70,
        KeyCode::Numpad7 => 71,
        KeyCode::Numpad8 => 72,
        KeyCode::Numpad9 => 73,
        KeyCode::NumpadSubtract => 74,
        KeyCode::Numpad4 => 75,
        KeyCode::Numpad5 => 76,
        KeyCode::Numpad6 => 77,
        KeyCode::NumpadAdd => 78,
        KeyCode::Numpad1 => 79,
        KeyCode::Numpad2 => 80,
        KeyCode::Numpad3 => 81,
        KeyCode::Numpad0 => 82,
        KeyCode::NumpadDecimal => 83,
        KeyCode::PrintScreen => 84,
        KeyCode::IntlBackslash => 86,
        KeyCode::F11 => 87,
        KeyCode::F12 => 88,
        KeyCode::F13 => 183,
        KeyCode::F14 => 184,
        KeyCode::F15 => 185,
        KeyCode::F16 => 186,
        KeyCode::F17 => 187,
        KeyCode::F18 => 188,
        KeyCode::F19 => 189,
        KeyCode::F20 => 190,
        KeyCode::F21 => 191,
        KeyCode::F22 => 192,
        KeyCode::F23 => 193,
        KeyCode::F24 => 194,
        KeyCode::KanaMode => 90,
        KeyCode::Lang3 => 91,
        KeyCode::Lang4 => 92,
        KeyCode::Lang5 => 93,
        KeyCode::IntlRo => 97,
        KeyCode::Convert => 121,
        KeyCode::NonConvert => 123,
        KeyCode::NumpadEnter => 96,
        KeyCode::ControlRight => 97,
        KeyCode::NumpadDivide => 98,
        KeyCode::AltRight => 100,
        KeyCode::NumLock => 69,
        KeyCode::Pause => 119,
        KeyCode::Home => 102,
        KeyCode::ArrowUp => 103,
        KeyCode::PageUp => 104,
        KeyCode::ArrowLeft => 105,
        KeyCode::ArrowRight => 106,
        KeyCode::End => 107,
        KeyCode::ArrowDown => 108,
        KeyCode::PageDown => 109,
        KeyCode::Insert => 110,
        KeyCode::Delete => 111,
        KeyCode::MetaLeft => 125,
        KeyCode::MetaRight => 126,
        KeyCode::ContextMenu => 127,
        KeyCode::Power => 116,
        KeyCode::Sleep => 142,
        KeyCode::WakeUp => 143,
        KeyCode::MediaPlay => 200,
        KeyCode::MediaStop => 128,
        KeyCode::MediaTrackNext => 163,
        KeyCode::MediaTrackPrevious => 165,
        KeyCode::MediaSelect => 226,
        _ => 0,
    }
}

/// The keys that lie on the numeric keypad (Num Lock included).
pub open spec fn is_keypad_code(code: KeyCode) -> bool {
    match code {
        KeyCode::Numpad0 => true,
        KeyCode::Numpad1 => true,
        KeyCode::Numpad2 => true,
        KeyCode::Numpad3 => true,
        KeyCode::Numpad4 => true,
        KeyCode::Numpad5 => true,
        KeyCode::Numpad6 => true,
        KeyCode::Numpad7 => true,
        KeyCode::Numpad8 => true,
        KeyCode::Numpad9 => true,
        KeyCode::NumpadDecimal => true,
        KeyCode::NumpadEnter => true,
        KeyCode::NumpadSubtract => true,
        KeyCode::NumpadAdd => true,
        KeyCode::NumpadMultiply => true,
        KeyCode::NumpadDivide => true,
        KeyCode::NumLock => true,
        _ => false,
    }
}

/// Translates a physical key into `(windows_key_code, native_key_code, is_keypad)`.
/// Both key codes carry the scan code.
pub fn code_to_native(code: KeyCode) -> (r: (i32, i32, bool))
    ensures
        r.0 == native_scan_code(code),
        r.1 == r.0,
        r.2 == is_keypad_code(code),
{
    let native: i32 = match code {
        KeyCode::Escape => 1,
        KeyCode::Digit1 => 2,
        KeyCode::Digit2 => 3,
        KeyCode::Digit3 => 4,
        KeyCode::Digit4 => 5,
        KeyCode::Digit5 => 6,
        KeyCode::Digit6 => 7,
        KeyCode::Digit7 => 8,
        KeyCode::Digit8 => 9,
        KeyCode::Digit9 => 10,
        KeyCode::Digit0 => 11,
        KeyCode::Minus => 12,
        KeyCode::Equal => 13,
        KeyCode::Backspace => 14,
        KeyCode::Tab => 15,
        KeyCode::KeyQ => 16,
        KeyCode::KeyW => 17,
        KeyCode::KeyE => 18,
        KeyCode::KeyR => 19,
        KeyCode::KeyT => 20,
        KeyCode::KeyY => 21,
        KeyCode::KeyU => 22,
        KeyCode::KeyI => 23,
        KeyCode::KeyO => 24,
        KeyCode::KeyP => 25,
        KeyCode::BracketLeft => 26,
        KeyCode::BracketRight => 27,
        KeyCode::Enter => 28,
        KeyCode::ControlLeft => 29,
        KeyCode::KeyA => 30,
        KeyCode::KeyS => 31,
        KeyCode::KeyD => 32,
        KeyCode::KeyF => 33,
        KeyCode::KeyG => 34,
        KeyCode::KeyH => 35,
        KeyCode::KeyJ => 36,
        KeyCode::KeyK => 37,
        KeyCode::KeyL => 38,
        KeyCode::Semicolon => 39,
        KeyCode::Quote => 40,
        KeyCode::Backquote => 41,
        KeyCode::ShiftLeft => 42,
        KeyCode::Backslash => 43,
        KeyCode::KeyZ => 44,
        KeyCode::KeyX => 45,
        KeyCode::KeyC => 46,
        KeyCode::KeyV => 47,
        KeyCode::KeyB => 48,
        KeyCode::KeyN => 49,
        KeyCode::KeyM => 50,
        KeyCode::Comma => 51,
        KeyCode::Period => 52,
        KeyCode::Slash => 53,
        KeyCode::ShiftRight => 54,
        KeyCode::NumpadMultiply => 55,
        KeyCode::AltLeft => 56,
        KeyCode::Space => 57,
        KeyCode::CapsLock => 58,
        KeyCode::F1 => 59,
        KeyCode::F2 => 60,
        KeyCode::F3 => 61,
        KeyCode::F4 => 62,
        KeyCode::F5 => 63,
        KeyCode::F6 => 64,
        KeyCode::F7 => 65,
        KeyCode::F8 => 66,
        KeyCode::F9 => 67,
        KeyCode::F10 => 68,
        KeyCode::ScrollLock => 70,
        KeyCode::Numpad7 => 71,
        KeyCode::Numpad8 => 72,
        KeyCode::Numpad9 => 73,
        KeyCode::NumpadSubtract => 74,
        KeyCode::Numpad4 => 75,
        KeyCode::Numpad5 => 76,
        KeyCode::Numpad6 => 77,
        KeyCode::NumpadAdd => 78,
        KeyCode::Numpad1 => 79,
        KeyCode::Numpad2 => 80,
        KeyCode::Numpad3 => 81,
        KeyCode::Numpad0 => 82,
        KeyCode::NumpadDecimal => 83,
        KeyCode::PrintScreen => 84,
        KeyCode::IntlBackslash => 86,
        KeyCode::F11 => 87,
        KeyCode::F12 => 88,
        KeyCode::F13 => 183,
        KeyCode::F14 => 184,
        KeyCode::F15 => 185,
        KeyCode::F16 => 186,
        KeyCode::F17 => 187,
        KeyCode::F18 => 188,
        KeyCode::F19 => 189,
        KeyCode::F20 => 190,
        KeyCode::F21 => 191,
        KeyCode::F22 => 192,
        KeyCode::F23 => 193,
        KeyCode::F24 => 194,
        KeyCode::KanaMode => 90,
        KeyCode::Lang3 => 91,
        KeyCode::Lang4 => 92,
        KeyCode::Lang5 => 93,
        KeyCode::IntlRo => 97,
        KeyCode::Convert => 121,
        KeyCode::NonConvert => 123,
        KeyCode::NumpadEnter => 96,
        KeyCode::ControlRight => 97,
        KeyCode::NumpadDivide => 98,
        KeyCode::AltRight => 100,
        KeyCode::NumLock => 69,
        KeyCode::Pause => 119,
        KeyCode::Home => 102,
        KeyCode::ArrowUp => 103,
        KeyCode::PageUp => 104,
        KeyCode::ArrowLeft => 105,
        KeyCode::ArrowRight => 106,
        KeyCode::End => 107,
        KeyCode::ArrowDown => 108,
        KeyCode::PageDown => 109,
        KeyCode::Insert => 110,
        KeyCode::Delete => 111,
        KeyCode::MetaLeft => 125,
        KeyCode::MetaRight => 126,
        KeyCode::ContextMenu => 127,
        KeyCode::Power => 116,
        KeyCode::Sleep => 142,
        KeyCode::WakeUp => 143,
        KeyCode::MediaPlay => 200,
        KeyCode::MediaStop => 128,
        KeyCode::MediaTrackNext => 163,
        KeyCode::MediaTrackPrevious => 165,
        KeyCode::MediaSelect => 226,
        _ => 0,
    };
    let is_keypad: bool = match code {
        KeyCode::Numpad0 => true,
        KeyCode::Numpad1 => true,
        KeyCode::Numpad2 => true,
        KeyCode::Numpad3 => true,
        KeyCode::Numpad4 => true,
        KeyCode::Numpad5 => true,
        KeyCode::Numpad6 => true,
        KeyCode::Numpad7 => true,
        KeyCode::Numpad8 => true,
        KeyCode::Numpad9 => true,
        KeyCode::NumpadDecimal => true,
        KeyCode::NumpadEnter => true,
        KeyCode::NumpadSubtract => true,
        KeyCode::NumpadAdd => true,
        KeyCode::NumpadMultiply => true,
        KeyCode::NumpadDivide => true,
        KeyCode::NumLock => true,
        _ => false,
    };
    (native, native, is_keypad)
}

/// Every key on the numeric keypad has a scan code.
pub proof fn lemma_keypad_keys_have_scan_codes(code: KeyCode)
    requires
        is_keypad_code(code),
    ensures
        native_scan_code(code) != 0,
{
}

/// Scan codes lie between 0 and 226.
pub proof fn lemma_scan_code_range(code: KeyCode)
    ensures
        0 <= native_scan_code(code) <= 226,
{
}

/// The key a Linux evdev scan code stands for, where one of the keys here has
/// it (97 names the right Control key).
pub open spec fn key_with_scan_code(n: i32) -> Option<KeyCode> {
    match n {
        1 => Some(KeyCode::Escape),
        2 => Some(KeyCode::Digit1),
        3 => Some(KeyCode::Digit2),
        4 => Some(KeyCode::Digit3),
        5 => Some(KeyCode::Digit4),
        6 => Some(KeyCode::Digit5),
        7 => Some(KeyCode::Digit6),
        8 => Some(KeyCode::Digit7),
        9 => Some(KeyCode::Digit8),
        10 => Some(KeyCode::Digit9),
        11 => Some(KeyCode::Digit0),
        12 => Some(KeyCode::Minus),
        13 => Some(KeyCode::Equal),
        14 => Some(KeyCode::Backspace),
        15 => Some(KeyCode::Tab),
        16 => Some(KeyCode::KeyQ),
        17 => Some(KeyCode::KeyW),
        18 => Some(KeyCode::KeyE),
        19 => Some(KeyCode::KeyR),
        20 => Some(KeyCode::KeyT),
        21 => Some(KeyCode::KeyY),
        22 => Some(KeyCode::KeyU),
        23 => Some(KeyCode::KeyI),
        24 => Some(KeyCode::KeyO),
        25 => Some(KeyCode::KeyP),
        26 => Some(KeyCode::BracketLeft),
        27 => Some(KeyCode::BracketRight),
        28 => Some(KeyCode::Enter),
        29 => Some(KeyCode::ControlLeft),
        30 => Some(KeyCode::KeyA),
        31 => Some(KeyCode::KeyS),
        32 => Some(KeyCode::KeyD),
        33 => Some(KeyCode::KeyF),
        34 => Some(KeyCode::KeyG),
        35 => Some(KeyCode::KeyH),
        36 => Some(KeyCode::KeyJ),
        37 => Some(KeyCode::KeyK),
        38 => Some(KeyCode::KeyL),
        39 => Some(KeyCode::Semicolon),
        40 => Some(KeyCode::Quote),
        41 => Some(KeyCode::Backquote),
        42 => Some(KeyCode::ShiftLeft),
        43 => Some(KeyCode::Backslash),
        44 => Some(KeyCode::KeyZ),
        45 => Some(KeyCode::KeyX),
        46 => Some(KeyCode::KeyC),
        47 => Some(KeyCode::KeyV),
        48 => Some(KeyCode::KeyB),
        49 => Some(KeyCode::KeyN),
        50 => Some(KeyCode::KeyM),
        51 => Some(KeyCode::Comma),
        52 => Some(KeyCode::Period),
        53 => Some(KeyCode::Slash),
        54 => Some(KeyCode::ShiftRight),
        55 => Some(KeyCode::NumpadMultiply),
        56 => Some(KeyCode::AltLeft),
        57 => Some(KeyCode::Space),
        58 => Some(KeyCode::CapsLock),
        59 => Some(KeyCode::F1),
        60 => Some(KeyCode::F2),
        61 => Some(KeyCode::F3),
        62 => Some(KeyCode::F4),
        63 => Some(KeyCode::F5),
        64 => Some(KeyCode::F6),
        65 => Some(KeyCode::F7),
        66 => Some(KeyCode::F8),
        67 => Some(KeyCode::F9),
        68 => Some(KeyCode::F10),
        69 => Some(KeyCode::NumLock),
        70 => Some(KeyCode::ScrollLock),
        71 => Some(KeyCode::Numpad7),
        72 => Some(KeyCode::Numpad8),
        73 => Some(KeyCode::Numpad9),
        74 => Some(KeyCode::NumpadSubtract),
        75 => Some(KeyCode::Numpad4),
        76 => Some(KeyCode::Numpad5),
        77 => Some(KeyCode::Numpad6),
        78 => Some(KeyCode::NumpadAdd),
        79 => Some(KeyCode::Numpad1),
        80 => Some(KeyCode::Numpad2),
        81 => Some(KeyCode::Numpad3),
        82 => Some(KeyCode::Numpad0),
        83 => Some(KeyCode::NumpadDecimal),
        84 => Some(KeyCode::PrintScreen),
        86 => Some(KeyCode::IntlBackslash),
        87 => Some(KeyCode::F11),
        88 => Some(KeyCode::F12),
        90 => Some(KeyCode::KanaMode),
        91 => Some(KeyCode::Lang3),
        92 => Some(KeyCode::Lang4),
        93 => Some(KeyCode::Lang5),
        96 => Some(KeyCode::NumpadEnter),
        97 => Some(KeyCode::ControlRight),
        98 => Some(KeyCode::NumpadDivide),
        100 => Some(KeyCode::AltRight),
        102 => Some(KeyCode::Home),
        103 => Some(KeyCode::ArrowUp),
        104 => Some(KeyCode::PageUp),
        105 => Some(KeyCode::ArrowLeft),
        106 => Some(KeyCode::ArrowRight),
        107 => Some(KeyCode::End),
        108 => Some(KeyCode::ArrowDown),
        109 => Some(KeyCode::PageDown),
        110 => Some(KeyCode::Insert),
        111 => Some(KeyCode::Delete),
        116 => Some(KeyCode::Power),
        119 => Some(KeyCode::Pause),
        121 => Some(KeyCode::Convert),
        123 => Some(KeyCode::NonConvert),
        125 => Some(KeyCode::MetaLeft),
        126 => Some(KeyCode::MetaRight),
        127 => Some(KeyCode::ContextMenu),
        128 => Some(KeyCode::MediaStop),
        142 => Some(KeyCode::Sleep),
        143 => Some(KeyCode::WakeUp),
        163 => Some(KeyCode::MediaTrackNext),
        165 => Some(KeyCode::MediaTrackPrevious),
        183 => Some(KeyCode::F13),
        184 => Some(KeyCode::F14),
        185 => Some(KeyCode::F15),
        186 => Some(KeyCode::F16),
        187 => Some(KeyCode::F17),
        188 => Some(KeyCode::F18),
        189 => Some(KeyCode::F19),
        190 => Some(KeyCode::F20),
        191 => Some(KeyCode::F21),
        192 => Some(KeyCode::F22),
        193 => Some(KeyCode::F23),
        194 => Some(KeyCode::F24),
        200 => Some(KeyCode::MediaPlay),
        226 => Some(KeyCode::MediaSelect),
        _ => None,
    }
}

/// The scan codes are the Linux evdev `KEY_*` codes of the keys (`KEY_ESC` 1,
/// `KEY_1` 2, ..., `KEY_LEFT` 105, `KEY_RIGHT` 106, ..., `KEY_SELECT` 226).
pub proof fn lemma_evdev_scan_codes()
    ensures
        native_scan_code(KeyCode::Escape) == 1,
        native_scan_code(KeyCode::Digit1) == 2,
        native_scan_code(KeyCode::Digit2) == 3,
        native_scan_code(KeyCode::Digit3) == 4,
        native_scan_code(KeyCode::Digit4) == 5,
        native_scan_code(KeyCode::Digit5) == 6,
        native_scan_code(KeyCode::Digit6) == 7,
        native_scan_code(KeyCode::Digit7) == 8,
        native_scan_code(KeyCode::Digit8) == 9,
        native_scan_code(KeyCode::Digit9) == 10,
        native_scan_code(KeyCode::Digit0) == 11,
        native_scan_code(KeyCode::Minus) == 12,
        native_scan_code(KeyCode::Equal) == 13,
        native_scan_code(KeyCode::Backspace) == 14,
        native_scan_code(KeyCode::Tab) == 15,
        native_scan_code(KeyCode::KeyQ) == 16,
        native_scan_code(KeyCode::KeyW) == 17,
        native_scan_code(KeyCode::KeyE) == 18,
        native_scan_code(KeyCode::KeyR) == 19,
        native_scan_code(KeyCode::KeyT) == 20,
        native_scan_code(KeyCode::KeyY) == 21,
        native_scan_code(KeyCode::KeyU) == 22,
        native_scan_code(KeyCode::KeyI) == 23,
        native_scan_code(KeyCode::KeyO) == 24,
        native_scan_code(KeyCode::KeyP) == 25,
        native_scan_code(KeyCode::BracketLeft) == 26,
        native_scan_code(KeyCode::BracketRight) == 27,
        native_scan_code(KeyCode::Enter) == 28,
        native_scan_code(KeyCode::ControlLeft) == 29,
        native_scan_code(KeyCode::KeyA) == 30,
        native_scan_code(KeyCode::KeyS) == 31,
        native_scan_code(KeyCode::KeyD) == 32,
        native_scan_code(KeyCode::KeyF) == 33,
        native_scan_code(KeyCode::KeyG) == 34,
        native_scan_code(KeyCode::KeyH) == 35,
        native_scan_code(KeyCode::KeyJ) == 36,
        native_scan_code(KeyCode::KeyK) == 37,
        native_scan_code(KeyCode::KeyL) == 38,
        native_scan_code(KeyCode::Semicolon) == 39,
        native_scan_code(KeyCode::Quote) == 40,
        native_scan_code(KeyCode::Backquote) == 41,
        native_scan_code(KeyCode::ShiftLeft) == 42,
        native_scan_code(KeyCode::Backslash) == 43,
        native_scan_code(KeyCode::KeyZ) == 44,
        native_scan_code(KeyCode::KeyX) == 45,
        native_scan_code(KeyCode::KeyC) == 46,
        native_scan_code(KeyCode::KeyV) == 47,
        native_scan_code(KeyCode::KeyB) == 48,
        native_scan_code(KeyCode::KeyN) == 49,
        native_scan_code(KeyCode::KeyM) == 50,
        native_scan_code(KeyCode::Comma) == 51,
        native_scan_code(KeyCode::Period) == 52,
        native_scan_code(KeyCode::Slash) == 53,
        native_scan_code(KeyCode::ShiftRight) == 54,
        native_scan_code(KeyCode::NumpadMultiply) == 55,
        native_scan_code(KeyCode::AltLeft) == 56,
        native_scan_code(KeyCode::Space) == 57,
        native_scan_code(KeyCode::CapsLock) == 58,
        native_scan_code(KeyCode::F1) == 59,
        native_scan_code(KeyCode::F2) == 60,
        native_scan_code(KeyCode::F3) == 61,
        native_scan_code(KeyCode::F4) == 62,
        native_scan_code(KeyCode::F5) == 63,
        native_scan_code(KeyCode::F6) == 64,
        native_scan_code(KeyCode::F7) == 65,
        native_scan_code(KeyCode::F8) == 66,
        native_scan_code(KeyCode::F9) == 67,
        native_scan_code(KeyCode::F10) == 68,
        native_scan_code(KeyCode::ScrollLock) == 70,
        native_scan_code(KeyCode::Numpad7) == 71,
        native_scan_code(KeyCode::Numpad8) == 72,
        native_scan_code(KeyCode::Numpad9) == 73,
        native_scan_code(KeyCode::NumpadSubtract) == 74,
        native_scan_code(KeyCode::Numpad4) == 75,
        native_scan_code(KeyCode::Numpad5) == 76,
        native_scan_code(KeyCode::Numpad6) == 77,
        native_scan_code(KeyCode::NumpadAdd) == 78,
        native_scan_code(KeyCode::Numpad1) == 79,
        native_scan_code(KeyCode::Numpad2) == 80,
        native_scan_code(KeyCode::Numpad3) == 81,
        native_scan_code(KeyCode::Numpad0) == 82,
        native_scan_code(KeyCode::NumpadDecimal) == 83,
        native_scan_code(KeyCode::PrintScreen) == 84,
        native_scan_code(KeyCode::IntlBackslash) == 86,
        native_scan_code(KeyCode::F11) == 87,
        native_scan_code(KeyCode::F12) == 88,
        native_scan_code(KeyCode::F13) == 183,
        native_scan_code(KeyCode::F14) == 184,
        native_scan_code(KeyCode::F15) == 185,
        native_scan_code(KeyCode::F16) == 186,
        native_scan_code(KeyCode::F17) == 187,
        native_scan_code(KeyCode::F18) == 188,
        native_scan_code(KeyCode::F19) == 189,
        native_scan_code(KeyCode::F20) == 190,
        native_scan_code(KeyCode::F21) == 191,
        native_scan_code(KeyCode::F22) == 192,
        native_scan_code(KeyCode::F23) == 193,
        native_scan_code(KeyCode::F24) == 194,
        native_scan_code(KeyCode::KanaMode) == 90,
        native_scan_code(KeyCode::Lang3) == 91,
        native_scan_code(KeyCode::Lang4) == 92,
        native_scan_code(KeyCode::Lang5) == 93,
        native_scan_code(KeyCode::IntlRo) == 97,
        native_scan_code(KeyCode::Convert) == 121,
        native_scan_code(KeyCode::NonConvert) == 123,
        native_scan_code(KeyCode::NumpadEnter) == 96,
        native_scan_code(KeyCode::ControlRight) == 97,
        native_scan_code(KeyCode::NumpadDivide) == 98,
        native_scan_code(KeyCode::AltRight) == 100,
        native_scan_code(KeyCode::NumLock) == 69,
        native_scan_code(KeyCode::Pause) == 119,
        native_scan_code(KeyCode::Home) == 102,
        native_scan_code(KeyCode::ArrowUp) == 103,
        native_scan_code(KeyCode::PageUp) == 104,
        native_scan_code(KeyCode::ArrowLeft) == 105,
        native_scan_code(KeyCode::ArrowRight) == 106,
        native_scan_code(KeyCode::End) == 107,
        native_scan_code(KeyCode::ArrowDown) == 108,
        native_scan_code(KeyCode::PageDown) == 109,
        native_scan_code(KeyCode::Insert) == 110,
        native_scan_code(KeyCode::Delete) == 111,
        native_scan_code(KeyCode::MetaLeft) == 125,
        native_scan_code(KeyCode::MetaRight) == 126,
        native_scan_code(KeyCode::ContextMenu) == 127,
        native_scan_code(KeyCode::Power) == 116,
        native_scan_code(KeyCode::Sleep) == 142,
        native_scan_code(KeyCode::WakeUp) == 143,
        native_scan_code(KeyCode::MediaPlay) == 200,
        native_scan_code(KeyCode::MediaStop) == 128,
        native_scan_code(KeyCode::MediaTrackNext) == 163,
        native_scan_code(KeyCode::MediaTrackPrevious) == 165,
        native_scan_code(KeyCode::MediaSelect) == 226,
{
}

/// A non-zero scan code leads back to its key; only the Japanese Ro key shares
/// its code (97) with the right Control key.
pub proof fn lemma_scan_code_identifies_key(code: KeyCode)
    requires
        native_scan_code(code) != 0,
        code != KeyCode::IntlRo,
    ensures
        key_with_scan_code(native_scan_code(code)) == Some(code),
{
}

/// Distinct keys get distinct scan codes, except the Japanese Ro key and the
/// right Control key.
pub proof fn lemma_scan_codes_distinct(a: KeyCode, b: KeyCode)
    requires
        a != b,
        native_scan_code(a) != 0,
        native_scan_code(b) != 0,
        !(a == KeyCode::IntlRo && b == KeyCode::ControlRight),
        !(a == KeyCode::ControlRight && b == KeyCode::IntlRo),
    ensures
        native_scan_code(a) != native_scan_code(b),
{
    if a != KeyCode::IntlRo && b != KeyCode::IntlRo {
        lemma_scan_code_identifies_key(a);
        lemma_scan_code_identifies_key(b);
    } else if a == KeyCode::IntlRo {
        lemma_scan_code_identifies_key(b);
    } else {
        lemma_scan_code_identifies_key(a);
    }
}

/// A key lies on the numeric keypad exactly when its scan code is one of the
/// evdev keypad codes: `KEY_KPASTERISK` 55, `KEY_NUMLOCK` 69, `KEY_KP7` to
/// `KEY_KPDOT` 71 to 83, `KEY_KPENTER` 96 and `KEY_KPSLASH` 98.
pub proof fn lemma_keypad_by_scan_code(code: KeyCode)
    ensures
        is_keypad_code(code) <==> ({
            let n = native_scan_code(code);
            n == 55 || n == 69 || (71 <= n <= 83) || n == 96 || n == 98
        }),
{
}

/// The modifier keys held while an input event happened.
#[derive(Clone, Copy, Debug, PartialEq, Eq, Structural)]
pub struct ModifierKeys {
    pub shift: bool,
    pub control: bool,
    pub alt: bool,
    pub meta: bool,
}

/// The browser's flag bits for the held modifier keys.
pub open spec fn modifier_flags(m: ModifierKeys) -> u32 {
    (if m.shift { EVENTFLAG_SHIFT_DOWN } else { 0u32 })
        | (if m.control { EVENTFLAG_CONTROL_DOWN } else { 0u32 })
        | (if m.alt { EVENTFLAG_ALT_DOWN } else { 0u32 })
        | (if m.meta { EVENTFLAG_COMMAND_DOWN } else { 0u32 })
}

/// The browser's modifier flags for `m`, added to the bits of `button_flag`.
pub fn winit_modifiers_to_cef(m: ModifierKeys, button_flag: u32) -> (r: u32)
    ensures
        r == button_flag | modifier_flags(m),
{
    let shift: u32 = if m.shift { EVENTFLAG_SHIFT_DOWN } else { 0 };
    let control: u32 = if m.control { EVENTFLAG_CONTROL_DOWN } else { 0 };
    let alt: u32 = if m.alt { EVENTFLAG_ALT_DOWN } else { 0 };
    let meta: u32 = if m.meta { EVENTFLAG_COMMAND_DOWN } else { 0 };
    let flags: u32 = button_flag | shift | control | alt | meta;
    assert(flags == button_flag | (shift | control | alt | meta)) by (bit_vector)
        requires
            flags == button_flag | shift | control | alt | meta,
    ;
    flags
}

/// Each held modifier key shows in the flags by its own bit, every bit of the
/// button flag is kept, and no other modifier bit is set.
pub proof fn lemma_modifier_flags_report_keys(m: ModifierKeys, button_flag: u32)
    ensures
        (button_flag | modifier_flags(m)) & button_flag == button_flag,
        m.shift ==> (button_flag | modifier_flags(m)) & EVENTFLAG_SHIFT_DOWN != 0,
        m.control ==> (button_flag | modifier_flags(m)) & EVENTFLAG_CONTROL_DOWN != 0,
        m.alt ==> (button_flag | modifier_flags(m)) & EVENTFLAG_ALT_DOWN != 0,
        m.meta ==> (button_flag | modifier_flags(m)) & EVENTFLAG_COMMAND_DOWN != 0,
        button_flag & EVENTFLAG_SHIFT_DOWN == 0 ==> (m.shift <==> (button_flag
            | modifier_flags(m)) & EVENTFLAG_SHIFT_DOWN != 0),
        button_flag & EVENTFLAG_CONTROL_DOWN == 0 ==> (m.control <==> (button_flag
            | modifier_flags(m)) & EVENTFLAG_CONTROL_DOWN != 0),
        button_flag & EVENTFLAG_ALT_DOWN == 0 ==> (m.alt <==> (button_flag | modifier_flags(m))
            & EVENTFLAG_ALT_DOWN != 0),
        button_flag & EVENTFLAG_COMMAND_DOWN == 0 ==> (m.meta <==> (button_flag
            | modifier_flags(m)) & EVENTFLAG_COMMAND_DOWN != 0),
        modifier_flags(m) & !(EVENTFLAG_SHIFT_DOWN | EVENTFLAG_CONTROL_DOWN | EVENTFLAG_ALT_DOWN
            | EVENTFLAG_COMMAND_DOWN) == 0,
{
    let s: u32 = if m.shift { 2 } else { 0 };
    let c: u32 = if m.control { 4 } else { 0 };
    let a: u32 = if m.alt { 8 } else { 0 };
    let t: u32 = if m.meta { 128 } else { 0 };
    let b = button_flag;
    assert(modifier_flags(m) == s | c | a | t);
    assert((b | (s | c | a | t)) & b == b) by (bit_vector);
    assert(s == 2 ==> (b | (s | c | a | t)) & 2 != 0) by (bit_vector);
    assert(c == 4 ==> (b | (s | c | a | t)) & 4 != 0) by (bit_vector);
    assert(a == 8 ==> (b | (s | c | a | t)) & 8 != 0) by (bit_vector);
    assert(t == 128 ==> (b | (s | c | a | t)) & 128 != 0) by (bit_vector);
    assert((s == 0 || s == 2) && (c == 0 || c == 4) && (a == 0 || a == 8) && (t == 0 || t == 128)
        ==> {
        &&& (b & 2 == 0 ==> (s == 2 <==> (b | (s | c | a | t)) & 2 != 0))
        &&& (b & 4 == 0 ==> (c == 4 <==> (b | (s | c | a | t)) & 4 != 0))
        &&& (b & 8 == 0 ==> (a == 8 <==> (b | (s | c | a | t)) & 8 != 0))
        &&& (b & 128 == 0 ==> (t == 128 <==> (b | (s | c | a | t)) & 128 != 0))
        &&& (s | c | a | t) & !(2u32 | 4u32 | 8u32 | 128u32) == 0
    }) by (bit_vector);
}

/// The first UTF-16 code unit that encodes the scalar value `c`.
pub open spec fn utf16_first_unit(c: u32) -> u16 {
    if c < 0x10000 {
        c as u16
    } else {
        (0xD800 + (c - 0x10000) / 0x400) as u16
    }
}

/// The first UTF-16 code unit of `c`: the character itself inside the Basic
/// Multilingual Plane, its high surrogate outside it.
pub fn char16_from_char(c: char) -> (r: u16)
    ensures
        r == utf16_first_unit(c as u32),
        (c as u32) < 0x10000 ==> r as u32 == c as u32,
        (c as u32) >= 0x10000 ==> 0xD800 <= r <= 0xDBFF,
        (c as u32) >= 0x10000 ==> 0x10000 + (r - 0xD800) * 0x400 <= (c as u32) < 0x10000 + (r
            - 0xD800 + 1) * 0x400,
{
    let v: u32 = c as u32;
    if v < 0x10000 {
        v as u16
    } else {
        (0xD800 + (v - 0x10000) / 0x400) as u16
    }
}

/// Whether a key went down or up, as the browser names it.
#[derive(Clone, Copy, Debug, PartialEq, Eq, Structural)]
pub enum KeyEventKind {
    RawKeyDown,
    KeyDown,
    KeyUp,
    Char,
}

/// A keyboard event as the window system reports it.
pub struct KeyInput {
    /// The physical key, `None` where the window system could not identify it.
    pub code: Option<KeyCode>,
    /// `true` for a key press, `false` for a release.
    pub pressed: bool,
    /// The text the key produced, with the modifiers applied.
    pub text: Option<String>,
    /// The text the key produces without modifiers.
    pub unmodified_text: Option<String>,
    /// The event is an auto-repeat.
    pub repeat: bool,
}

/// A keyboard event in the form the browser host takes it.
#[derive(Clone, Copy, Debug, PartialEq, Eq, Structural)]
pub struct CefKeyEvent {
    pub kind: KeyEventKind,
    pub modifiers: u32,
    pub windows_key_code: i32,
    pub native_key_code: i32,
    pub is_system_key: i32,
    pub character: u16,
    pub unmodified_character: u16,
    pub focus_on_editable_field: i32,
}

/// The first character of an optional text, NUL where there is none.
pub open spec fn first_char(text: Option<String>) -> char {
    match text {
        Some(t) => if t@.len() > 0 { t@[0] } else { '\0' },
        None => '\0',
    }
}

/// The browser key event for a keyboard input.
pub open spec fn key_event_for(event: &KeyInput, modifiers: ModifierKeys) -> CefKeyEvent {
    let native = match event.code {
        Some(c) => native_scan_code(c),
        None => 0,
    };
    let keypad = match event.code {
        Some(c) => is_keypad_code(c),
        None => false,
    };
    CefKeyEvent {
        kind: if event.pressed { KeyEventKind::KeyDown } else { KeyEventKind::KeyUp },
        modifiers: modifier_flags(modifiers) | (if keypad { EVENTFLAG_IS_KEY_PAD } else { 0u32 })
            | (if event.repeat { EVENTFLAG_IS_REPEAT } else { 0u32 }),
        windows_key_code: native,
        native_key_code: native,
        is_system_key: 0,
        character: utf16_first_unit(first_char(event.text) as u32),
        unmodified_character: utf16_first_unit(first_char(event.unmodified_text) as u32),
        focus_on_editable_field: 0,
    }
}

fn first_char_of(text: &Option<String>) -> (c: char)
    ensures
        c == first_char(*text),
{
    broadcast use vstd::string::group_string_axioms;

    match text {
        Some(t) => {
            let mut it = t.as_str().chars();
            match it.next() {
                Some(c) => c,
                None => '\0',
            }
        },
        None => '\0',
    }
}

/// Builds the browser key event for a keyboard input.
pub fn build_key_event(event: &KeyInput, modifiers: ModifierKeys) -> (r: CefKeyEvent)
    ensures
        r == key_event_for(event, modifiers),
{
    let (windows_key_code, native_key_code, is_keypad) = match event.code {
        Some(code) => code_to_native(code),
        None => (0, 0, false),
    };
    let kind = if event.pressed {
        KeyEventKind::KeyDown
    } else {
        KeyEventKind::KeyUp
    };
    let character = first_char_of(&event.text);
    let unmodified_character = first_char_of(&event.unmodified_text);
    let mut mods = winit_modifiers_to_cef(modifiers, 0);
    assert(0u32 | modifier_flags(modifiers) == modifier_flags(modifiers)) by (bit_vector);
    if is_keypad {
        mods = mods | EVENTFLAG_IS_KEY_PAD;
    }
    if event.repeat {
        mods = mods | EVENTFLAG_IS_REPEAT;
    }
    proof {
        let f = modifier_flags(modifiers);
        assert(f | 0u32 == f) by (bit_vector);
        assert(f | 0u32 | 0u32 == f) by (bit_vector);
        assert(f | 512u32 | 0u32 == f | 512u32) by (bit_vector);
        assert(f | 0u32 | 8192u32 == f | 8192u32) by (bit_vector);
    }
    CefKeyEvent {
        kind,
        modifiers: mods,
        windows_key_code,
        native_key_code,
        is_system_key: 0,
        character: char16_from_char(character),
        unmodified_character: char16_from_char(unmodified_character),
        focus_on_editable_field: 0,
    }
}

/// The flag values are the browser's: each modifier, button and key property
/// has its own bit.
pub proof fn lemma_event_flag_values()
    ensures
        EVENTFLAG_CAPS_LOCK_ON == 1,
        EVENTFLAG_SHIFT_DOWN == 2,
        EVENTFLAG_CONTROL_DOWN == 4,
        EVENTFLAG_ALT_DOWN == 8,
        EVENTFLAG_LEFT_MOUSE_BUTTON == 16,
        EVENTFLAG_MIDDLE_MOUSE_BUTTON == 32,
        EVENTFLAG_RIGHT_MOUSE_BUTTON == 64,
        EVENTFLAG_COMMAND_DOWN == 128,
        EVENTFLAG_NUM_LOCK_ON == 256,
        EVENTFLAG_IS_KEY_PAD == 512,
        EVENTFLAG_IS_LEFT == 1024,
        EVENTFLAG_IS_RIGHT == 2048,
        EVENTFLAG_ALTGR_DOWN == 4096,
        EVENTFLAG_IS_REPEAT == 8192,
{
}

/// A key event goes down on a press and up on a release, carries the key's
/// scan code in both code fields, is never a system key, marks keypad keys and
/// repeats by their own flag bits, and reports each held modifier.
pub proof fn lemma_key_event_fields(event: &KeyInput, modifiers: ModifierKeys)
    ensures
        ({
            let e = key_event_for(event, modifiers);
            &&& (e.kind == KeyEventKind::KeyDown <==> event.pressed)
            &&& (e.kind == KeyEventKind::KeyUp <==> !event.pressed)
            &&& e.windows_key_code == e.native_key_code
            &&& e.native_key_code == (match event.code {
                Some(c) => native_scan_code(c),
                None => 0,
            })
            &&& e.is_system_key == 0
            &&& e.focus_on_editable_field == 0
            &&& (e.modifiers & 512 != 0 <==> (event.code matches Some(c) && is_keypad_code(c)))
            &&& (e.modifiers & 8192 != 0 <==> event.repeat)
            &&& (e.modifiers & 2 != 0 <==> modifiers.shift)
            &&& (e.modifiers & 4 != 0 <==> modifiers.control)
            &&& (e.modifiers & 8 != 0 <==> modifiers.alt)
            &&& (e.modifiers & 128 != 0 <==> modifiers.meta)
            &&& (first_char(event.text) as u32) < 0x10000 ==> e.character as u32 == first_char(event.text) as u32
        }),
{
    let kp = match event.code {
        Some(c) => is_keypad_code(c),
        None => false,
    };
    let s: u32 = if modifiers.shift { 2 } else { 0 };
    let c: u32 = if modifiers.control { 4 } else { 0 };
    let a: u32 = if modifiers.alt { 8 } else { 0 };
    let t: u32 = if modifiers.meta { 128 } else { 0 };
    let k: u32 = if kp { 512 } else { 0 };
    let r: u32 = if event.repeat { 8192 } else { 0 };
    assert(modifier_flags(modifiers) == s | c | a | t);
    assert((s == 0 || s == 2) && (c == 0 || c == 4) && (a == 0 || a == 8) && (t == 0 || t == 128)
        && (k == 0 || k == 512) && (r == 0 || r == 8192) ==> {
        let f = (s | c | a | t) | k | r;
        &&& (f & 512 != 0 <==> k == 512)
        &&& (f & 8192 != 0 <==> r == 8192)
        &&& (f & 2 != 0 <==> s == 2)
        &&& (f & 4 != 0 <==> c == 4)
        &&& (f & 8 != 0 <==> a == 8)
        &&& (f & 128 != 0 <==> t == 128)
    }) by (bit_vector);
}

} // verus!
