//! Key codes, modifiers and the names by which the hotkey configuration refers to them.
//!
//! `KeyCode` holds the physical keys that `global_hotkey` binds and that this
//! application can name; `Modifier` the modifier that a hotkey text names;
//! `EguiKey` the keys that the window toolkit reports while a new hotkey is typed.

use vstd::prelude::*;

use crate::text::{
    all_white, is_white_space, lemma_trimmed_idempotent, lemma_trimmed_pad, lemma_trimmed_plain,
    text_is, trim, trimmed,
};

verus! {

/// A physical key, named as `global_hotkey::hotkey::Code` names it.
#[derive(Clone, Copy, Debug, PartialEq, Eq, Structural)]
pub enum KeyCode {
    ArrowDown,
    ArrowLeft,
    ArrowRight,
    ArrowUp,
    Escape,
    Tab,
    Backquote,
    Backslash,
    AltLeft,
    AltRight,
    CapsLock,
    ControlLeft,
    ControlRight,
    ShiftLeft,
    ShiftRight,
    BracketLeft,
    BracketRight,
    MetaLeft,
    MetaRight,
    Semicolon,
    Quote,
    IntlBackslash,
    IntlRo,
    IntlYen,
    ContextMenu,
    Comma,
    Period,
    Slash,
    Digit0,
    Digit1,
    Digit2,
    Digit3,
    Digit4,
    Digit5,
    Digit6,
    Digit7,
    Digit8,
    Digit9,
    Backspace,
    Enter,
    Space,
    Insert,
    Delete,
    Home,
    End,
    PageUp,
    PageDown,
    Minus,
    Equal,
    Numpad0,
    Numpad1,
    Numpad2,
    Numpad3,
    Numpad4,
    Numpad5,
    Numpad6,
    Numpad7,
    Numpad8,
    Numpad9,
    KeyA,
    KeyB,
    KeyC,
    KeyD,
    KeyE,
    KeyF,
    KeyG,
    KeyH,
    KeyI,
    KeyJ,
    KeyK,
    KeyL,
    KeyM,
    KeyN,
    KeyO,
    KeyP,
    KeyQ,
    KeyR,
    KeyS,
    KeyT,
    KeyU,
    KeyV,
    KeyW,
    KeyX,
    KeyY,
    KeyZ,
    F1,
    F2,
    F3,
    F4,
    F5,
    F6,
    F7,
    F8,
    F9,
    F10,
    F11,
    F12,
    F13,
    F14,
    F15,
    F16,
    F17,
    F18,
    F19,
    F20,
    Fn,
}

/// One modifier flag of `global_hotkey::hotkey::Modifiers`, or the empty set.
#[derive(Clone, Copy, Debug, PartialEq, Eq, Structural)]
pub enum Modifier {
    Alt,
    Control,
    Shift,
    AltGraph,
    CapsLock,
    Fn,
    Symbol,
    Hyper,
    Meta,
    NumLock,
    ScrollLock,
    Super,
    SymbolLock,
    Empty,
}

/// A key as the window toolkit (`egui::Key`) reports it.
#[derive(Clone, Copy, Debug, PartialEq, Eq, Structural)]
pub enum EguiKey {
    ArrowDown,
    ArrowLeft,
    ArrowRight,
    ArrowUp,
    Escape,
    Tab,
    Backspace,
    Enter,
    Space,
    Insert,
    Delete,
    Home,
    End,
    PageUp,
    PageDown,
    Minus,
    PlusEquals,
    Num0,
    Num1,
    Num2,
    Num3,
    Num4,
    Num5,
    Num6,
    Num7,
    Num8,
    Num9,
    A,
    B,
    C,
    D,
    E,
    F,
    G,
    H,
    I,
    J,
    K,
    L,
    M,
    N,
    O,
    P,
    Q,
    R,
    S,
    T,
    U,
    V,
    W,
    X,
    Y,
    Z,
    F1,
    F2,
    F3,
    F4,
    F5,
    F6,
    F7,
    F8,
    F9,
    F10,
    F11,
    F12,
    F13,
    F14,
    F15,
    F16,
    F17,
    F18,
    F19,
    F20,
}

/// The name under which the configuration file refers to a key code.
pub open spec fn code_table_name(c: KeyCode) -> Seq<char> {
    match c {
        KeyCode::ArrowDown => "ArrowDown"@,
        KeyCode::ArrowLeft => "ArrowLeft"@,
        KeyCode::ArrowRight => "ArrowRight"@,
        KeyCode::ArrowUp => "ArrowUp"@,
        KeyCode::Escape => "Escape"@,
        KeyCode::Tab => "Tab"@,
        KeyCode::Backquote => "Backquote"@,
        KeyCode::Backslash => "Backslash"@,
        KeyCode::AltLeft => "AltLeft"@,
        KeyCode::AltRight => "AltRight"@,
        KeyCode::CapsLock => "CapsLock"@,
        KeyCode::ControlLeft => "ControlLeft"@,
        KeyCode::ControlRight => "ControlRight"@,
        KeyCode::ShiftLeft => "ShiftLeft"@,
        KeyCode::ShiftRight => "ShiftRight"@,
        KeyCode::BracketLeft => "BracketLeft"@,
        KeyCode::BracketRight => "BracketRight"@,
        KeyCode::MetaLeft => "MetaLeft"@,
        KeyCode::MetaRight => "MetaRight"@,
        KeyCode::Semicolon => "Semicolon"@,
        KeyCode::Quote => "Quote"@,
        KeyCode::IntlBackslash => "IntlBackslash"@,
        KeyCode::IntlRo => "IntlRo"@,
        KeyCode::IntlYen => "IntlYen"@,
        KeyCode::ContextMenu => "ContextMenu"@,
        KeyCode::Comma => "Comma"@,
        KeyCode::Period => "Period"@,
        KeyCode::Slash => "Slash"@,
        KeyCode::Digit0 => "Digit0"@,
        KeyCode::Digit1 => "Digit1"@,
        KeyCode::Digit2 => "Digit2"@,
        KeyCode::Digit3 => "Digit3"@,
        KeyCode::Digit4 => "Digit4"@,
        KeyCode::Digit5 => "Digit5"@,
        KeyCode::Digit6 => "Digit6"@,
        KeyCode::Digit7 => "Digit7"@,
        KeyCode::Digit8 => "Digit8"@,
        KeyCode::Digit9 => "Digit9"@,
        KeyCode::Backspace => "Backspace"@,
        KeyCode::Enter => "Enter"@,
        KeyCode::Space => "Space"@,
        KeyCode::Insert => "Insert"@,
        KeyCode::Delete => "Delete"@,
        KeyCode::Home => "Home"@,
        KeyCode::End => "End"@,
        KeyCode::PageUp => "PageUp"@,
        KeyCode::PageDown => "PageDown"@,
        KeyCode::Minus => "Minus"@,
        KeyCode::Equal => "PlusEquals"@,
        KeyCode::Numpad0 => "Num0"@,
        KeyCode::Numpad1 => "Num1"@,
        KeyCode::Numpad2 => "Num2"@,
        KeyCode::Numpad3 => "Num3"@,
        KeyCode::Numpad4 => "Num4"@,
        KeyCode::Numpad5 => "Num5"@,
        KeyCode::Numpad6 => "Num6"@,
        KeyCode::Numpad7 => "Num7"@,
        KeyCode::Numpad8 => "Num8"@,
        KeyCode::Numpad9 => "Num9"@,
        KeyCode::KeyA => "KeyA"@,
        KeyCode::KeyB => "KeyB"@,
        KeyCode::KeyC => "KeyC"@,
        KeyCode::KeyD => "KeyD"@,
        KeyCode::KeyE => "KeyE"@,
        KeyCode::KeyF => "KeyF"@,
        KeyCode::KeyG => "KeyG"@,
        KeyCode::KeyH => "KeyH"@,
        KeyCode::KeyI => "KeyI"@,
        KeyCode::KeyJ => "KeyJ"@,
        KeyCode::KeyK => "KeyK"@,
        KeyCode::KeyL => "KeyL"@,
        KeyCode::KeyM => "KeyM"@,
        KeyCode::KeyN => "KeyN"@,
        KeyCode::KeyO => "KeyO"@,
        KeyCode::KeyP => "KeyP"@,
        KeyCode::KeyQ => "KeyQ"@,
        KeyCode::KeyR => "KeyR"@,
        KeyCode::KeyS => "KeyS"@,
        KeyCode::KeyT => "KeyT"@,
        KeyCode::KeyU => "KeyU"@,
        KeyCode::KeyV => "KeyV"@,
        KeyCode::KeyW => "KeyW"@,
        KeyCode::KeyX => "KeyX"@,
        KeyCode::KeyY => "KeyY"@,
        KeyCode::KeyZ => "KeyZ"@,
        KeyCode::F1 => "F1"@,
        KeyCode::F2 => "F2"@,
        KeyCode::F3 => "F3"@,
        KeyCode::F4 => "F4"@,
        KeyCode::F5 => "F5"@,
        KeyCode::F6 => "F6"@,
        KeyCode::F7 => "F7"@,
        KeyCode::F8 => "F8"@,
        KeyCode::F9 => "F9"@,
        KeyCode::F10 => "F10"@,
        KeyCode::F11 => "F11"@,
        KeyCode::F12 => "F12"@,
        KeyCode::F13 => "F13"@,
        KeyCode::F14 => "F14"@,
        KeyCode::F15 => "F15"@,
        KeyCode::F16 => "F16"@,
        KeyCode::F17 => "F17"@,
        KeyCode::F18 => "F18"@,
        KeyCode::F19 => "F19"@,
        KeyCode::F20 => "F20"@,
        KeyCode::Fn => "Fn"@,
    }
}

/// What `{:?}` prints for the key code: the variant name of `global_hotkey`'s `Code`.
pub open spec fn code_debug_name(c: KeyCode) -> Seq<char> {
    match c {
        KeyCode::ArrowDown => "ArrowDown"@,
        KeyCode::ArrowLeft => "ArrowLeft"@,
        KeyCode::ArrowRight => "ArrowRight"@,
        KeyCode::ArrowUp => "ArrowUp"@,
        KeyCode::Escape => "Escape"@,
        KeyCode::Tab => "Tab"@,
        KeyCode::Backquote => "Backquote"@,
        KeyCode::Backslash => "Backslash"@,
        KeyCode::AltLeft => "AltLeft"@,
        KeyCode::AltRight => "AltRight"@,
        KeyCode::CapsLock => "CapsLock"@,
        KeyCode::ControlLeft => "ControlLeft"@,
        KeyCode::ControlRight => "ControlRight"@,
        KeyCode::ShiftLeft => "ShiftLeft"@,
        KeyCode::ShiftRight => "ShiftRight"@,
        KeyCode::BracketLeft => "BracketLeft"@,
        KeyCode::BracketRight => "BracketRight"@,
        KeyCode::MetaLeft => "MetaLeft"@,
        KeyCode::MetaRight => "MetaRight"@,
        KeyCode::Semicolon => "Semicolon"@,
        KeyCode::Quote => "Quote"@,
        KeyCode::IntlBackslash => "IntlBackslash"@,
        KeyCode::IntlRo => "IntlRo"@,
        KeyCode::IntlYen => "IntlYen"@,
        KeyCode::ContextMenu => "ContextMenu"@,
        KeyCode::Comma => "Comma"@,
        KeyCode::Period => "Period"@,
        KeyCode::Slash => "Slash"@,
        KeyCode::Digit0 => "Digit0"@,
        KeyCode::Digit1 => "Digit1"@,
        KeyCode::Digit2 => "Digit2"@,
        KeyCode::Digit3 => "Digit3"@,
        KeyCode::Digit4 => "Digit4"@,
        KeyCode::Digit5 => "Digit5"@,
        KeyCode::Digit6 => "Digit6"@,
        KeyCode::Digit7 => "Digit7"@,
        KeyCode::Digit8 => "Digit8"@,
        KeyCode::Digit9 => "Digit9"@,
        KeyCode::Backspace => "Backspace"@,
        KeyCode::Enter => "Enter"@,
        KeyCode::Space => "Space"@,
        KeyCode::Insert => "Insert"@,
        KeyCode::Delete => "Delete"@,
        KeyCode::Home => "Home"@,
        KeyCode::End => "End"@,
        KeyCode::PageUp => "PageUp"@,
        KeyCode::PageDown => "PageDown"@,
        KeyCode::Minus => "Minus"@,
        KeyCode::Equal => "Equal"@,
        KeyCode::Numpad0 => "Numpad0"@,
        KeyCode::Numpad1 => "Numpad1"@,
        KeyCode::Numpad2 => "Numpad2"@,
        KeyCode::Numpad3 => "Numpad3"@,
        KeyCode::Numpad4 => "Numpad4"@,
        KeyCode::Numpad5 => "Numpad5"@,
        KeyCode::Numpad6 => "Numpad6"@,
        KeyCode::Numpad7 => "Numpad7"@,
        KeyCode::Numpad8 => "Numpad8"@,
        KeyCode::Numpad9 => "Numpad9"@,
        KeyCode::KeyA => "KeyA"@,
        KeyCode::KeyB => "KeyB"@,
        KeyCode::KeyC => "KeyC"@,
        KeyCode::KeyD => "KeyD"@,
        KeyCode::KeyE => "KeyE"@,
        KeyCode::KeyF => "KeyF"@,
        KeyCode::KeyG => "KeyG"@,
        KeyCode::KeyH => "KeyH"@,
        KeyCode::KeyI => "KeyI"@,
        KeyCode::KeyJ => "KeyJ"@,
        KeyCode::KeyK => "KeyK"@,
        KeyCode::KeyL => "KeyL"@,
        KeyCode::KeyM => "KeyM"@,
        KeyCode::KeyN => "KeyN"@,
        KeyCode::KeyO => "KeyO"@,
        KeyCode::KeyP => "KeyP"@,
        KeyCode::KeyQ => "KeyQ"@,
        KeyCode::KeyR => "KeyR"@,
        KeyCode::KeyS => "KeyS"@,
        KeyCode::KeyT => "KeyT"@,
        KeyCode::KeyU => "KeyU"@,
        KeyCode::KeyV => "KeyV"@,
        KeyCode::KeyW => "KeyW"@,
        KeyCode::KeyX => "KeyX"@,
        KeyCode::KeyY => "KeyY"@,
        KeyCode::KeyZ => "KeyZ"@,
        KeyCode::F1 => "F1"@,
        KeyCode::F2 => "F2"@,
        KeyCode::F3 => "F3"@,
        KeyCode::F4 => "F4"@,
        KeyCode::F5 => "F5"@,
        KeyCode::F6 => "F6"@,
        KeyCode::F7 => "F7"@,
        KeyCode::F8 => "F8"@,
        KeyCode::F9 => "F9"@,
        KeyCode::F10 => "F10"@,
        KeyCode::F11 => "F11"@,
        KeyCode::F12 => "F12"@,
        KeyCode::F13 => "F13"@,
        KeyCode::F14 => "F14"@,
        KeyCode::F15 => "F15"@,
        KeyCode::F16 => "F16"@,
        KeyCode::F17 => "F17"@,
        KeyCode::F18 => "F18"@,
        KeyCode::F19 => "F19"@,
        KeyCode::F20 => "F20"@,
        KeyCode::Fn => "Fn"@,
    }
}

/// The name that a `StringCodeWrap` made from a key code holds.
pub open spec fn code_wrap_name(c: KeyCode) -> Seq<char> {
    match c {
        KeyCode::ArrowDown => "ArrowDown"@,
        KeyCode::ArrowLeft => "ArrowLeft"@,
        KeyCode::ArrowRight => "ArrowRight"@,
        KeyCode::ArrowUp => "ArrowUp"@,
        KeyCode::Escape => "Escape"@,
        KeyCode::Tab => "Tab"@,
        KeyCode::Backquote => "Backquote"@,
        KeyCode::Backslash => "Backslash"@,
        KeyCode::AltLeft => "AltLeft"@,
        KeyCode::AltRight => "AltRight"@,
        KeyCode::CapsLock => "CapsLock"@,
        KeyCode::ControlLeft => "ControlLeft"@,
        KeyCode::ControlRight => "ControlRight"@,
        KeyCode::ShiftLeft => "ShiftLeft"@,
        KeyCode::ShiftRight => "ShiftRight"@,
        KeyCode::BracketLeft => "BracketLeft"@,
        KeyCode::BracketRight => "BracketRight"@,
        KeyCode::MetaLeft => "MetaLeft"@,
        KeyCode::MetaRight => "MetaRight"@,
        KeyCode::Semicolon => "Semicolon"@,
        KeyCode::Quote => "Quote"@,
        KeyCode::IntlBackslash => "IntlBackslash"@,
        KeyCode::IntlRo => "IntlRo"@,
        KeyCode::IntlYen => "IntlYen"@,
        KeyCode::ContextMenu => "ContextMenu"@,
        KeyCode::Comma => "Comma"@,
        KeyCode::Period => "Period"@,
        KeyCode::Slash => "Slash"@,
        KeyCode::Digit0 => "Digit0"@,
        KeyCode::Digit1 => "Digit1"@,
        KeyCode::Digit2 => "Digit2"@,
        KeyCode::Digit3 => "Digit3"@,
        KeyCode::Digit4 => "Digit4"@,
        KeyCode::Digit5 => "Digit5"@,
        KeyCode::Digit6 => "Digit6"@,
        KeyCode::Digit7 => "Digit7"@,
        KeyCode::Digit8 => "Digit8"@,
        KeyCode::Digit9 => "Digit9"@,
        KeyCode::Backspace => "Backspace"@,
        KeyCode::Enter => "Enter"@,
        KeyCode::Space => "Space"@,
        KeyCode::Insert => "Insert"@,
        KeyCode::Delete => "Delete"@,
        KeyCode::Home => "Home"@,
        KeyCode::End => "End"@,
        KeyCode::PageUp => "PageUp"@,
        KeyCode::PageDown => "PageDown"@,
        KeyCode::Minus => "Minus"@,
        KeyCode::Equal => "PlusEquals"@,
        KeyCode::Numpad0 => "Num0"@,
        KeyCode::Numpad1 => "Num1"@,
        KeyCode::Numpad2 => "Num2"@,
        KeyCode::Numpad3 => "Num3"@,
        KeyCode::Numpad4 => "Num4"@,
        KeyCode::Numpad5 => "Num5"@,
        KeyCode::Numpad6 => "Num6"@,
        KeyCode::Numpad7 => "Num7"@,
        KeyCode::Numpad8 => "Num8"@,
        KeyCode::Numpad9 => "Num9"@,
        KeyCode::KeyA => "A"@,
        KeyCode::KeyB => "B"@,
        KeyCode::KeyC => "C"@,
        KeyCode::KeyD => "D"@,
        KeyCode::KeyE => "E"@,
        KeyCode::KeyF => "F"@,
        KeyCode::KeyG => "G"@,
        KeyCode::KeyH => "H"@,
        KeyCode::KeyI => "I"@,
        KeyCode::KeyJ => "J"@,
        KeyCode::KeyK => "K"@,
        KeyCode::KeyL => "L"@,
        KeyCode::KeyM => "M"@,
        KeyCode::KeyN => "N"@,
        KeyCode::KeyO => "O"@,
        KeyCode::KeyP => "P"@,
        KeyCode::KeyQ => "Q"@,
        KeyCode::KeyR => "R"@,
        KeyCode::KeyS => "S"@,
        KeyCode::KeyT => "T"@,
        KeyCode::KeyU => "U"@,
        KeyCode::KeyV => "V"@,
        KeyCode::KeyW => "W"@,
        KeyCode::KeyX => "X"@,
        KeyCode::KeyY => "Y"@,
        KeyCode::KeyZ => "Z"@,
        KeyCode::F1 => "F1"@,
        KeyCode::F2 => "F2"@,
        KeyCode::F3 => "F3"@,
        KeyCode::F4 => "F4"@,
        KeyCode::F5 => "F5"@,
        KeyCode::F6 => "F6"@,
        KeyCode::F7 => "F7"@,
        KeyCode::F8 => "F8"@,
        KeyCode::F9 => "F9"@,
        KeyCode::F10 => "F10"@,
        KeyCode::F11 => "F11"@,
        KeyCode::F12 => "F12"@,
        KeyCode::F13 => "F13"@,
        KeyCode::F14 => "F14"@,
        KeyCode::F15 => "F15"@,
        KeyCode::F16 => "F16"@,
        KeyCode::F17 => "F17"@,
        KeyCode::F18 => "F18"@,
        KeyCode::F19 => "F19"@,
        KeyCode::F20 => "F20"@,
        KeyCode::Fn => "Fn"@,
    }
}

/// The key code that a configuration name stands for; any other text stands for `Enter`.
pub open spec fn code_of_name(s: Seq<char>) -> KeyCode {
    if exists|c: KeyCode| code_table_name(c) == s {
        choose|c: KeyCode| code_table_name(c) == s
    } else {
        KeyCode::Enter
    }
}

/// A key code is stable when the name that `{:?}` prints for it is read back as the same code.
pub open spec fn code_is_stable(c: KeyCode) -> bool {
    code_of_name(trimmed(code_debug_name(c))) == c
}

/// The key codes whose `{:?}` name is also their configuration name: all but `Equal`
/// (named `PlusEquals`) and the keypad digits (named `Num0` to `Num9`).
pub open spec fn debug_name_is_table_name(c: KeyCode) -> bool {
    !(c == KeyCode::Equal || c == KeyCode::Numpad0 || c == KeyCode::Numpad1 || c == KeyCode::Numpad2
        || c == KeyCode::Numpad3 || c == KeyCode::Numpad4 || c == KeyCode::Numpad5 || c
        == KeyCode::Numpad6 || c == KeyCode::Numpad7 || c == KeyCode::Numpad8 || c == KeyCode::Numpad9)
}

/// The toolkit's digit keys, from the main row or the keypad.
pub open spec fn is_digit_key(k: EguiKey) -> bool {
    k == EguiKey::Num0 || k == EguiKey::Num1 || k == EguiKey::Num2 || k == EguiKey::Num3 || k
        == EguiKey::Num4 || k == EguiKey::Num5 || k == EguiKey::Num6 || k == EguiKey::Num7 || k
        == EguiKey::Num8 || k == EguiKey::Num9
}

/// The key code that the name written for a toolkit key is read back as: the key's own
/// code, except for the digits, written `Num0` to `Num9`, which name the keypad's digits.
pub open spec fn egui_name_code(k: EguiKey) -> KeyCode {
    match k {
        EguiKey::Num0 => KeyCode::Numpad0,
        EguiKey::Num1 => KeyCode::Numpad1,
        EguiKey::Num2 => KeyCode::Numpad2,
        EguiKey::Num3 => KeyCode::Numpad3,
        EguiKey::Num4 => KeyCode::Numpad4,
        EguiKey::Num5 => KeyCode::Numpad5,
        EguiKey::Num6 => KeyCode::Numpad6,
        EguiKey::Num7 => KeyCode::Numpad7,
        EguiKey::Num8 => KeyCode::Numpad8,
        EguiKey::Num9 => KeyCode::Numpad9,
        _ => egui_key_code(k),
    }
}

/// The characters that key and modifier names are made of.
pub open spec fn is_name_char(c: char) -> bool {
    ('A' <= c && c <= 'Z') || ('a' <= c && c <= 'z') || ('0' <= c && c <= '9') || c == '_' || c
        == '(' || c == ')'
}

/// A non-empty text of name characters only.
pub open spec fn is_plain_name(s: Seq<char>) -> bool {
    s.len() > 0 && forall|i: int| 0 <= i < s.len() ==> is_name_char(#[trigger] s[i])
}

/// The modifier that a configuration text names; any other text names the empty set.
pub open spec fn modifier_of_name(s: Seq<char>) -> Modifier {
    if s == "ALT"@ {
        Modifier::Alt
    }     else if s == "CONTROL"@ {
        Modifier::Control
    }     else if s == "SHIFT"@ {
        Modifier::Shift
    }     else if s == "ALT_GRAPH"@ {
        Modifier::AltGraph
    }     else if s == "CAPS_LOCK"@ {
        Modifier::CapsLock
    }     else if s == "FN"@ {
        Modifier::Fn
    }     else if s == "SYMBOL"@ {
        Modifier::Symbol
    }     else if s == "HYPER"@ {
        Modifier::Hyper
    }     else if s == "META"@ {
        Modifier::Meta
    }     else if s == "NUM_LOCK"@ {
        Modifier::NumLock
    }     else if s == "SCROLL_LOCK"@ {
        Modifier::ScrollLock
    }     else if s == "SUPER"@ {
        Modifier::Super
    }     else if s == "SYMBOL_LOCK"@ {
        Modifier::SymbolLock
    } else {
        Modifier::Empty
    }
}

/// What `{:?}` prints for the modifier set.
pub open spec fn modifier_debug_name(m: Modifier) -> Seq<char> {
    match m {
        Modifier::Alt => "ALT"@,
        Modifier::Control => "CONTROL"@,
        Modifier::Shift => "SHIFT"@,
        Modifier::AltGraph => "ALT_GRAPH"@,
        Modifier::CapsLock => "CAPS_LOCK"@,
        Modifier::Fn => "FN"@,
        Modifier::Symbol => "SYMBOL"@,
        Modifier::Hyper => "HYPER"@,
        Modifier::Meta => "META"@,
        Modifier::NumLock => "NUM_LOCK"@,
        Modifier::ScrollLock => "SCROLL_LOCK"@,
        Modifier::Super => "SUPER"@,
        Modifier::SymbolLock => "SYMBOL_LOCK"@,
        Modifier::Empty => "(empty)"@,
    }
}

/// The bits of the modifier in `global_hotkey::hotkey::Modifiers`.
pub open spec fn modifier_bits(m: Modifier) -> u32 {
    match m {
        Modifier::Alt => 0x1,
        Modifier::Control => 0x8,
        Modifier::Shift => 0x200,
        Modifier::AltGraph => 0x2,
        Modifier::CapsLock => 0x4,
        Modifier::Fn => 0x10,
        Modifier::Symbol => 0x400,
        Modifier::Hyper => 0x1000,
        Modifier::Meta => 0x40,
        Modifier::NumLock => 0x80,
        Modifier::ScrollLock => 0x100,
        Modifier::Super => 0x2000,
        Modifier::SymbolLock => 0x800,
        Modifier::Empty => 0,
    }
}

/// The key code that a toolkit key binds.
pub open spec fn egui_key_code(k: EguiKey) -> KeyCode {
    match k {
        EguiKey::ArrowDown => KeyCode::ArrowDown,
        EguiKey::ArrowLeft => KeyCode::ArrowLeft,
        EguiKey::ArrowRight => KeyCode::ArrowRight,
        EguiKey::ArrowUp => KeyCode::ArrowUp,
        EguiKey::Escape => KeyCode::Escape,
        EguiKey::Tab => KeyCode::Tab,
        EguiKey::Backspace => KeyCode::Backspace,
        EguiKey::Enter => KeyCode::Enter,
        EguiKey::Space => KeyCode::Space,
        EguiKey::Insert => KeyCode::Insert,
        EguiKey::Delete => KeyCode::Delete,
        EguiKey::Home => KeyCode::Home,
        EguiKey::End => KeyCode::End,
        EguiKey::PageUp => KeyCode::PageUp,
        EguiKey::PageDown => KeyCode::PageDown,
        EguiKey::Minus => KeyCode::Minus,
        EguiKey::PlusEquals => KeyCode::Equal,
        EguiKey::Num0 => KeyCode::Digit0,
        EguiKey::Num1 => KeyCode::Digit1,
        EguiKey::Num2 => KeyCode::Digit2,
        EguiKey::Num3 => KeyCode::Digit3,
        EguiKey::Num4 => KeyCode::Digit4,
        EguiKey::Num5 => KeyCode::Digit5,
        EguiKey::Num6 => KeyCode::Digit6,
        EguiKey::Num7 => KeyCode::Digit7,
        EguiKey::Num8 => KeyCode::Digit8,
        EguiKey::Num9 => KeyCode::Digit9,
        EguiKey::A => KeyCode::KeyA,
        EguiKey::B => KeyCode::KeyB,
        EguiKey::C => KeyCode::KeyC,
        EguiKey::D => KeyCode::KeyD,
        EguiKey::E => KeyCode::KeyE,
        EguiKey::F => KeyCode::KeyF,
        EguiKey::G => KeyCode::KeyG,
        EguiKey::H => KeyCode::KeyH,
        EguiKey::I => KeyCode::KeyI,
        EguiKey::J => KeyCode::KeyJ,
        EguiKey::K => KeyCode::KeyK,
        EguiKey::L => KeyCode::KeyL,
        EguiKey::M => KeyCode::KeyM,
        EguiKey::N => KeyCode::KeyN,
        EguiKey::O => KeyCode::KeyO,
        EguiKey::P => KeyCode::KeyP,
        EguiKey::Q => KeyCode::KeyQ,
        EguiKey::R => KeyCode::KeyR,
        EguiKey::S => KeyCode::KeyS,
        EguiKey::T => KeyCode::KeyT,
        EguiKey::U => KeyCode::KeyU,
        EguiKey::V => KeyCode::KeyV,
        EguiKey::W => KeyCode::KeyW,
        EguiKey::X => KeyCode::KeyX,
        EguiKey::Y => KeyCode::KeyY,
        EguiKey::Z => KeyCode::KeyZ,
        EguiKey::F1 => KeyCode::F1,
        EguiKey::F2 => KeyCode::F2,
        EguiKey::F3 => KeyCode::F3,
        EguiKey::F4 => KeyCode::F4,
        EguiKey::F5 => KeyCode::F5,
        EguiKey::F6 => KeyCode::F6,
        EguiKey::F7 => KeyCode::F7,
        EguiKey::F8 => KeyCode::F8,
        EguiKey::F9 => KeyCode::F9,
        EguiKey::F10 => KeyCode::F10,
        EguiKey::F11 => KeyCode::F11,
        EguiKey::F12 => KeyCode::F12,
        EguiKey::F13 => KeyCode::F13,
        EguiKey::F14 => KeyCode::F14,
        EguiKey::F15 => KeyCode::F15,
        EguiKey::F16 => KeyCode::F16,
        EguiKey::F17 => KeyCode::F17,
        EguiKey::F18 => KeyCode::F18,
        EguiKey::F19 => KeyCode::F19,
        EguiKey::F20 => KeyCode::F20,
    }
}

/// The name under which a toolkit key is written into a hotkey text.
pub open spec fn egui_key_name(k: EguiKey) -> Seq<char> {
    match k {
        EguiKey::ArrowDown => "ArrowDown"@,
        EguiKey::ArrowLeft => "ArrowLeft"@,
        EguiKey::ArrowRight => "ArrowRight"@,
        EguiKey::ArrowUp => "ArrowUp"@,
        EguiKey::Escape => "Escape"@,
        EguiKey::Tab => "Tab"@,
        EguiKey::Backspace => "Backspace"@,
        EguiKey::Enter => "Enter"@,
        EguiKey::Space => "Space"@,
        EguiKey::Insert => "Insert"@,
        EguiKey::Delete => "Delete"@,
        EguiKey::Home => "Home"@,
        EguiKey::End => "End"@,
        EguiKey::PageUp => "PageUp"@,
        EguiKey::PageDown => "PageDown"@,
        EguiKey::Minus => "Minus"@,
        EguiKey::PlusEquals => "PlusEquals"@,
        EguiKey::Num0 => "Num0"@,
        EguiKey::Num1 => "Num1"@,
        EguiKey::Num2 => "Num2"@,
        EguiKey::Num3 => "Num3"@,
        EguiKey::Num4 => "Num4"@,
        EguiKey::Num5 => "Num5"@,
        EguiKey::Num6 => "Num6"@,
        EguiKey::Num7 => "Num7"@,
        EguiKey::Num8 => "Num8"@,
        EguiKey::Num9 => "Num9"@,
        EguiKey::A => "KeyA"@,
        EguiKey::B => "KeyB"@,
        EguiKey::C => "KeyC"@,
        EguiKey::D => "KeyD"@,
        EguiKey::E => "KeyE"@,
        EguiKey::F => "KeyF"@,
        EguiKey::G => "KeyG"@,
        EguiKey::H => "KeyH"@,
        EguiKey::I => "KeyI"@,
        EguiKey::J => "KeyJ"@,
        EguiKey::K => "KeyK"@,
        EguiKey::L => "KeyL"@,
        EguiKey::M => "KeyM"@,
        EguiKey::N => "KeyN"@,
        EguiKey::O => "KeyO"@,
        EguiKey::P => "KeyP"@,
        EguiKey::Q => "KeyQ"@,
        EguiKey::R => "KeyR"@,
        EguiKey::S => "KeyS"@,
        EguiKey::T => "KeyT"@,
        EguiKey::U => "KeyU"@,
        EguiKey::V => "KeyV"@,
        EguiKey::W => "KeyW"@,
        EguiKey::X => "KeyX"@,
        EguiKey::Y => "KeyY"@,
        EguiKey::Z => "KeyZ"@,
        EguiKey::F1 => "F1"@,
        EguiKey::F2 => "F2"@,
        EguiKey::F3 => "F3"@,
        EguiKey::F4 => "F4"@,
        EguiKey::F5 => "F5"@,
        EguiKey::F6 => "F6"@,
        EguiKey::F7 => "F7"@,
        EguiKey::F8 => "F8"@,
        EguiKey::F9 => "F9"@,
        EguiKey::F10 => "F10"@,
        EguiKey::F11 => "F11"@,
        EguiKey::F12 => "F12"@,
        EguiKey::F13 => "F13"@,
        EguiKey::F14 => "F14"@,
        EguiKey::F15 => "F15"@,
        EguiKey::F16 => "F16"@,
        EguiKey::F17 => "F17"@,
        EguiKey::F18 => "F18"@,
        EguiKey::F19 => "F19"@,
        EguiKey::F20 => "F20"@,
    }
}

/// Every key code, in the order of the configuration table.
pub open spec fn all_codes() -> Seq<KeyCode> {
    seq![
        KeyCode::ArrowDown,
        KeyCode::ArrowLeft,
        KeyCode::ArrowRight,
        KeyCode::ArrowUp,
        KeyCode::Escape,
        KeyCode::Tab,
        KeyCode::Backquote,
        KeyCode::Backslash,
        KeyCode::AltLeft,
        KeyCode::AltRight,
        KeyCode::CapsLock,
        KeyCode::ControlLeft,
        KeyCode::ControlRight,
        KeyCode::ShiftLeft,
        KeyCode::ShiftRight,
        KeyCode::BracketLeft,
        KeyCode::BracketRight,
        KeyCode::MetaLeft,
        KeyCode::MetaRight,
        KeyCode::Semicolon,
        KeyCode::Quote,
        KeyCode::IntlBackslash,
        KeyCode::IntlRo,
        KeyCode::IntlYen,
        KeyCode::ContextMenu,
        KeyCode::Comma,
        KeyCode::Period,
        KeyCode::Slash,
        KeyCode::Digit0,
        KeyCode::Digit1,
        KeyCode::Digit2,
        KeyCode::Digit3,
        KeyCode::Digit4,
        KeyCode::Digit5,
        KeyCode::Digit6,
        KeyCode::Digit7,
        KeyCode::Digit8,
        KeyCode::Digit9,
        KeyCode::Backspace,
        KeyCode::Enter,
        KeyCode::Space,
        KeyCode::Insert,
        KeyCode::Delete,
        KeyCode::Home,
        KeyCode::End,
        KeyCode::PageUp,
        KeyCode::PageDown,
        KeyCode::Minus,
        KeyCode::Equal,
        KeyCode::Numpad0,
        KeyCode::Numpad1,
        KeyCode::Numpad2,
        KeyCode::Numpad3,
        KeyCode::Numpad4,
        KeyCode::Numpad5,
        KeyCode::Numpad6,
        KeyCode::Numpad7,
        KeyCode::Numpad8,
        KeyCode::Numpad9,
        KeyCode::KeyA,
        KeyCode::KeyB,
        KeyCode::KeyC,
        KeyCode::KeyD,
        KeyCode::KeyE,
        KeyCode::KeyF,
        KeyCode::KeyG,
        KeyCode::KeyH,
        KeyCode::KeyI,
        KeyCode::KeyJ,
        KeyCode::KeyK,
        KeyCode::KeyL,
        KeyCode::KeyM,
        KeyCode::KeyN,
        KeyCode::KeyO,
        KeyCode::KeyP,
        KeyCode::KeyQ,
        KeyCode::KeyR,
        KeyCode::KeyS,
        KeyCode::KeyT,
        KeyCode::KeyU,
        KeyCode::KeyV,
        KeyCode::KeyW,
        KeyCode::KeyX,
        KeyCode::KeyY,
        KeyCode::KeyZ,
        KeyCode::F1,
        KeyCode::F2,
        KeyCode::F3,
        KeyCode::F4,
        KeyCode::F5,
        KeyCode::F6,
        KeyCode::F7,
        KeyCode::F8,
        KeyCode::F9,
        KeyCode::F10,
        KeyCode::F11,
        KeyCode::F12,
        KeyCode::F13,
        KeyCode::F14,
        KeyCode::F15,
        KeyCode::F16,
        KeyCode::F17,
        KeyCode::F18,
        KeyCode::F19,
        KeyCode::F20,
        KeyCode::Fn,
    ]
}

/// Recovers a key code from the length and a few characters of its configuration name.
spec fn decode_table_name(s: Seq<char>) -> Option<KeyCode> {
    if s.len() == 9 && s[0] == 'A' && s[1] == 'r' && s[5] == 'D' && s[8] == 'n' {
        Some(KeyCode::ArrowDown)
    }     else if s.len() == 9 && s[0] == 'A' && s[1] == 'r' && s[5] == 'L' && s[8] == 't' {
        Some(KeyCode::ArrowLeft)
    }     else if s.len() == 10 && s[0] == 'A' && s[1] == 'r' && s[5] == 'R' && s[9] == 't' {
        Some(KeyCode::ArrowRight)
    }     else if s.len() == 7 && s[0] == 'A' && s[1] == 'r' && s[5] == 'U' && s[6] == 'p' {
        Some(KeyCode::ArrowUp)
    }     else if s.len() == 6 && s[0] == 'E' && s[1] == 's' && s[5] == 'e' && s[5] == 'e' {
        Some(KeyCode::Escape)
    }     else if s.len() == 3 && s[0] == 'T' && s[1] == 'a' && s[2] == 'b' {
        Some(KeyCode::Tab)
    }     else if s.len() == 9 && s[0] == 'B' && s[1] == 'a' && s[5] == 'u' && s[8] == 'e' {
        Some(KeyCode::Backquote)
    }     else if s.len() == 9 && s[0] == 'B' && s[1] == 'a' && s[5] == 'l' && s[8] == 'h' {
        Some(KeyCode::Backslash)
    }     else if s.len() == 7 && s[0] == 'A' && s[1] == 'l' && s[5] == 'f' && s[6] == 't' {
        Some(KeyCode::AltLeft)
    }     else if s.len() == 8 && s[0] == 'A' && s[1] == 'l' && s[5] == 'g' && s[7] == 't' {
        Some(KeyCode::AltRight)
    }     else if s.len() == 8 && s[0] == 'C' && s[1] == 'a' && s[5] == 'o' && s[7] == 'k' {
        Some(KeyCode::CapsLock)
    }     else if s.len() == 11 && s[0] == 'C' && s[1] == 'o' && s[5] == 'o' && s[10] == 't' {
        Some(KeyCode::ControlLeft)
    }     else if s.len() == 12 && s[0] == 'C' && s[1] == 'o' && s[5] == 'o' && s[11] == 't' {
        Some(KeyCode::ControlRight)
    }     else if s.len() == 9 && s[0] == 'S' && s[1] == 'h' && s[5] == 'L' && s[8] == 't' {
        Some(KeyCode::ShiftLeft)
    }     else if s.len() == 10 && s[0] == 'S' && s[1] == 'h' && s[5] == 'R' && s[9] == 't' {
        Some(KeyCode::ShiftRight)
    }     else if s.len() == 11 && s[0] == 'B' && s[1] == 'r' && s[5] == 'e' && s[10] == 't' {
        Some(KeyCode::BracketLeft)
    }     else if s.len() == 12 && s[0] == 'B' && s[1] == 'r' && s[5] == 'e' && s[11] == 't' {
        Some(KeyCode::BracketRight)
    }     else if s.len() == 8 && s[0] == 'M' && s[1] == 'e' && s[5] == 'e' && s[7] == 't' {
        Some(KeyCode::MetaLeft)
    }     else if s.len() == 9 && s[0] == 'M' && s[1] == 'e' && s[5] == 'i' && s[8] == 't' {
        Some(KeyCode::MetaRight)
    }     else if s.len() == 9 && s[0] == 'S' && s[1] == 'e' && s[5] == 'o' && s[8] == 'n' {
        Some(KeyCode::Semicolon)
    }     else if s.len() == 5 && s[0] == 'Q' && s[1] == 'u' && s[4] == 'e' {
        Some(KeyCode::Quote)
    }     else if s.len() == 13 && s[0] == 'I' && s[1] == 'n' && s[5] == 'a' && s[12] == 'h' {
        Some(KeyCode::IntlBackslash)
    }     else if s.len() == 6 && s[0] == 'I' && s[1] == 'n' && s[5] == 'o' && s[5] == 'o' {
        Some(KeyCode::IntlRo)
    }     else if s.len() == 7 && s[0] == 'I' && s[1] == 'n' && s[5] == 'e' && s[6] == 'n' {
        Some(KeyCode::IntlYen)
    }     else if s.len() == 11 && s[0] == 'C' && s[1] == 'o' && s[5] == 'x' && s[10] == 'u' {
        Some(KeyCode::ContextMenu)
    }     else if s.len() == 5 && s[0] == 'C' && s[1] == 'o' && s[4] == 'a' {
        Some(KeyCode::Comma)
    }     else if s.len() == 6 && s[0] == 'P' && s[1] == 'e' && s[5] == 'd' && s[5] == 'd' {
        Some(KeyCode::Period)
    }     else if s.len() == 5 && s[0] == 'S' && s[1] == 'l' && s[4] == 'h' {
        Some(KeyCode::Slash)
    }     else if s.len() == 6 && s[0] == 'D' && s[1] == 'i' && s[5] == '0' && s[5] == '0' {
        Some(KeyCode::Digit0)
    }     else if s.len() == 6 && s[0] == 'D' && s[1] == 'i' && s[5] == '1' && s[5] == '1' {
        Some(KeyCode::Digit1)
    }     else if s.len() == 6 && s[0] == 'D' && s[1] == 'i' && s[5] == '2' && s[5] == '2' {
        Some(KeyCode::Digit2)
    }     else if s.len() == 6 && s[0] == 'D' && s[1] == 'i' && s[5] == '3' && s[5] == '3' {
        Some(KeyCode::Digit3)
    }     else if s.len() == 6 && s[0] == 'D' && s[1] == 'i' && s[5] == '4' && s[5] == '4' {
        Some(KeyCode::Digit4)
    }     else if s.len() == 6 && s[0] == 'D' && s[1] == 'i' && s[5] == '5' && s[5] == '5' {
        Some(KeyCode::Digit5)
    }     else if s.len() == 6 && s[0] == 'D' && s[1] == 'i' && s[5] == '6' && s[5] == '6' {
        Some(KeyCode::Digit6)
    }     else if s.len() == 6 && s[0] == 'D' && s[1] == 'i' && s[5] == '7' && s[5] == '7' {
        Some(KeyCode::Digit7)
    }     else if s.len() == 6 && s[0] == 'D' && s[1] == 'i' && s[5] == '8' && s[5] == '8' {
        Some(KeyCode::Digit8)
    }     else if s.len() == 6 && s[0] == 'D' && s[1] == 'i' && s[5] == '9' && s[5] == '9' {
        Some(KeyCode::Digit9)
    }     else if s.len() == 9 && s[0] == 'B' && s[1] == 'a' && s[5] == 'p' && s[8] == 'e' {
        Some(KeyCode::Backspace)
    }     else if s.len() == 5 && s[0] == 'E' && s[1] == 'n' && s[4] == 'r' {
        Some(KeyCode::Enter)
    }     else if s.len() == 5 && s[0] == 'S' && s[1] == 'p' && s[4] == 'e' {
        Some(KeyCode::Space)
    }     else if s.len() == 6 && s[0] == 'I' && s[1] == 'n' && s[5] == 't' && s[5] == 't' {
        Some(KeyCode::Insert)
    }     else if s.len() == 6 && s[0] == 'D' && s[1] == 'e' && s[5] == 'e' && s[5] == 'e' {
        Some(KeyCode::Delete)
    }     else if s.len() == 4 && s[0] == 'H' && s[1] == 'o' && s[3] == 'e' {
        Some(KeyCode::Home)
    }     else if s.len() == 3 && s[0] == 'E' && s[1] == 'n' && s[2] == 'd' {
        Some(KeyCode::End)
    }     else if s.len() == 6 && s[0] == 'P' && s[1] == 'a' && s[5] == 'p' && s[5] == 'p' {
        Some(KeyCode::PageUp)
    }     else if s.len() == 8 && s[0] == 'P' && s[1] == 'a' && s[5] == 'o' && s[7] == 'n' {
        Some(KeyCode::PageDown)
    }     else if s.len() == 5 && s[0] == 'M' && s[1] == 'i' && s[4] == 's' {
        Some(KeyCode::Minus)
    }     else if s.len() == 10 && s[0] == 'P' && s[1] == 'l' && s[5] == 'q' && s[9] == 's' {
        Some(KeyCode::Equal)
    }     else if s.len() == 4 && s[0] == 'N' && s[1] == 'u' && s[3] == '0' {
        Some(KeyCode::Numpad0)
    }     else if s.len() == 4 && s[0] == 'N' && s[1] == 'u' && s[3] == '1' {
        Some(KeyCode::Numpad1)
    }     else if s.len() == 4 && s[0] == 'N' && s[1] == 'u' && s[3] == '2' {
        Some(KeyCode::Numpad2)
    }     else if s.len() == 4 && s[0] == 'N' && s[1] == 'u' && s[3] == '3' {
        Some(KeyCode::Numpad3)
    }     else if s.len() == 4 && s[0] == 'N' && s[1] == 'u' && s[3] == '4' {
        Some(KeyCode::Numpad4)
    }     else if s.len() == 4 && s[0] == 'N' && s[1] == 'u' && s[3] == '5' {
        Some(KeyCode::Numpad5)
    }     else if s.len() == 4 && s[0] == 'N' && s[1] == 'u' && s[3] == '6' {
        Some(KeyCode::Numpad6)
    }     else if s.len() == 4 && s[0] == 'N' && s[1] == 'u' && s[3] == '7' {
        Some(KeyCode::Numpad7)
    }     else if s.len() == 4 && s[0] == 'N' && s[1] == 'u' && s[3] == '8' {
        Some(KeyCode::Numpad8)
    }     else if s.len() == 4 && s[0] == 'N' && s[1] == 'u' && s[3] == '9' {
        Some(KeyCode::Numpad9)
    }     else if s.len() == 4 && s[0] == 'K' && s[1] == 'e' && s[3] == 'A' {
        Some(KeyCode::KeyA)
    }     else if s.len() == 4 && s[0] == 'K' && s[1] == 'e' && s[3] == 'B' {
        Some(KeyCode::KeyB)
    }     else if s.len() == 4 && s[0] == 'K' && s[1] == 'e' && s[3] == 'C' {
        Some(KeyCode::KeyC)
    }     else if s.len() == 4 && s[0] == 'K' && s[1] == 'e' && s[3] == 'D' {
        Some(KeyCode::KeyD)
    }     else if s.len() == 4 && s[0] == 'K' && s[1] == 'e' && s[3] == 'E' {
        Some(KeyCode::KeyE)
    }     else if s.len() == 4 && s[0] == 'K' && s[1] == 'e' && s[3] == 'F' {
        Some(KeyCode::KeyF)
    }     else if s.len() == 4 && s[0] == 'K' && s[1] == 'e' && s[3] == 'G' {
        Some(KeyCode::KeyG)
    }     else if s.len() == 4 && s[0] == 'K' && s[1] == 'e' && s[3] == 'H' {
        Some(KeyCode::KeyH)
    }     else if s.len() == 4 && s[0] == 'K' && s[1] == 'e' && s[3] == 'I' {
        Some(KeyCode::KeyI)
    }     else if s.len() == 4 && s[0] == 'K' && s[1] == 'e' && s[3] == 'J' {
        Some(KeyCode::KeyJ)
    }     else if s.len() == 4 && s[0] == 'K' && s[1] == 'e' && s[3] == 'K' {
        Some(KeyCode::KeyK)
    }     else if s.len() == 4 && s[0] == 'K' && s[1] == 'e' && s[3] == 'L' {
        Some(KeyCode::KeyL)
    }     else if s.len() == 4 && s[0] == 'K' && s[1] == 'e' && s[3] == 'M' {
        Some(KeyCode::KeyM)
    }     else if s.len() == 4 && s[0] == 'K' && s[1] == 'e' && s[3] == 'N' {
        Some(KeyCode::KeyN)
    }     else if s.len() == 4 && s[0] == 'K' && s[1] == 'e' && s[3] == 'O' {
        Some(KeyCode::KeyO)
    }     else if s.len() == 4 && s[0] == 'K' && s[1] == 'e' && s[3] == 'P' {
        Some(KeyCode::KeyP)
    }     else if s.len() == 4 && s[0] == 'K' && s[1] == 'e' && s[3] == 'Q' {
        Some(KeyCode::KeyQ)
    }     else if s.len() == 4 && s[0] == 'K' && s[1] == 'e' && s[3] == 'R' {
        Some(KeyCode::KeyR)
    }     else if s.len() == 4 && s[0] == 'K' && s[1] == 'e' && s[3] == 'S' {
        Some(KeyCode::KeyS)
    }     else if s.len() == 4 && s[0] == 'K' && s[1] == 'e' && s[3] == 'T' {
        Some(KeyCode::KeyT)
    }     else if s.len() == 4 && s[0] == 'K' && s[1] == 'e' && s[3] == 'U' {
        Some(KeyCode::KeyU)
    }     else if s.len() == 4 && s[0] == 'K' && s[1] == 'e' && s[3] == 'V' {
        Some(KeyCode::KeyV)
    }     else if s.len() == 4 && s[0] == 'K' && s[1] == 'e' && s[3] == 'W' {
        Some(KeyCode::KeyW)
    }     else if s.len() == 4 && s[0] == 'K' && s[1] == 'e' && s[3] == 'X' {
        Some(KeyCode::KeyX)
    }     else if s.len() == 4 && s[0] == 'K' && s[1] == 'e' && s[3] == 'Y' {
        Some(KeyCode::KeyY)
    }     else if s.len() == 4 && s[0] == 'K' && s[1] == 'e' && s[3] == 'Z' {
        Some(KeyCode::KeyZ)
    }     else if s.len() == 2 && s[0] == 'F' && s[1] == '1' && s[1] == '1' {
        Some(KeyCode::F1)
    }     else if s.len() == 2 && s[0] == 'F' && s[1] == '2' && s[1] == '2' {
        Some(KeyCode::F2)
    }     else if s.len() == 2 && s[0] == 'F' && s[1] == '3' && s[1] == '3' {
        Some(KeyCode::F3)
    }     else if s.len() == 2 && s[0] == 'F' && s[1] == '4' && s[1] == '4' {
        Some(KeyCode::F4)
    }     else if s.len() == 2 && s[0] == 'F' && s[1] == '5' && s[1] == '5' {
        Some(KeyCode::F5)
    }     else if s.len() == 2 && s[0] == 'F' && s[1] == '6' && s[1] == '6' {
        Some(KeyCode::F6)
    }     else if s.len() == 2 && s[0] == 'F' && s[1] == '7' && s[1] == '7' {
        Some(KeyCode::F7)
    }     else if s.len() == 2 && s[0] == 'F' && s[1] == '8' && s[1] == '8' {
        Some(KeyCode::F8)
    }     else if s.len() == 2 && s[0] == 'F' && s[1] == '9' && s[1] == '9' {
        Some(KeyCode::F9)
    }     else if s.len() == 3 && s[0] == 'F' && s[1] == '1' && s[2] == '0' {
        Some(KeyCode::F10)
    }     else if s.len() == 3 && s[0] == 'F' && s[1] == '1' && s[2] == '1' {
        Some(KeyCode::F11)
    }     else if s.len() == 3 && s[0] == 'F' && s[1] == '1' && s[2] == '2' {
        Some(KeyCode::F12)
    }     else if s.len() == 3 && s[0] == 'F' && s[1] == '1' && s[2] == '3' {
        Some(KeyCode::F13)
    }     else if s.len() == 3 && s[0] == 'F' && s[1] == '1' && s[2] == '4' {
        Some(KeyCode::F14)
    }     else if s.len() == 3 && s[0] == 'F' && s[1] == '1' && s[2] == '5' {
        Some(KeyCode::F15)
    }     else if s.len() == 3 && s[0] == 'F' && s[1] == '1' && s[2] == '6' {
        Some(KeyCode::F16)
    }     else if s.len() == 3 && s[0] == 'F' && s[1] == '1' && s[2] == '7' {
        Some(KeyCode::F17)
    }     else if s.len() == 3 && s[0] == 'F' && s[1] == '1' && s[2] == '8' {
        Some(KeyCode::F18)
    }     else if s.len() == 3 && s[0] == 'F' && s[1] == '1' && s[2] == '9' {
        Some(KeyCode::F19)
    }     else if s.len() == 3 && s[0] == 'F' && s[1] == '2' && s[2] == '0' {
        Some(KeyCode::F20)
    }     else if s.len() == 2 && s[0] == 'F' && s[1] == 'n' && s[1] == 'n' {
        Some(KeyCode::Fn)
    } else {
        None
    }
}

proof fn lemma_decode_table_name(c: KeyCode)
    ensures
        decode_table_name(code_table_name(c)) == Some(c),
{
    match c {
        KeyCode::ArrowDown => reveal_strlit("ArrowDown"),
        KeyCode::ArrowLeft => reveal_strlit("ArrowLeft"),
        KeyCode::ArrowRight => reveal_strlit("ArrowRight"),
        KeyCode::ArrowUp => reveal_strlit("ArrowUp"),
        KeyCode::Escape => reveal_strlit("Escape"),
        KeyCode::Tab => reveal_strlit("Tab"),
        KeyCode::Backquote => reveal_strlit("Backquote"),
        KeyCode::Backslash => reveal_strlit("Backslash"),
        KeyCode::AltLeft => reveal_strlit("AltLeft"),
        KeyCode::AltRight => reveal_strlit("AltRight"),
        KeyCode::CapsLock => reveal_strlit("CapsLock"),
        KeyCode::ControlLeft => reveal_strlit("ControlLeft"),
        KeyCode::ControlRight => reveal_strlit("ControlRight"),
        KeyCode::ShiftLeft => reveal_strlit("ShiftLeft"),
        KeyCode::ShiftRight => reveal_strlit("ShiftRight"),
        KeyCode::BracketLeft => reveal_strlit("BracketLeft"),
        KeyCode::BracketRight => reveal_strlit("BracketRight"),
        KeyCode::MetaLeft => reveal_strlit("MetaLeft"),
        KeyCode::MetaRight => reveal_strlit("MetaRight"),
        KeyCode::Semicolon => reveal_strlit("Semicolon"),
        KeyCode::Quote => reveal_strlit("Quote"),
        KeyCode::IntlBackslash => reveal_strlit("IntlBackslash"),
        KeyCode::IntlRo => reveal_strlit("IntlRo"),
        KeyCode::IntlYen => reveal_strlit("IntlYen"),
        KeyCode::ContextMenu => reveal_strlit("ContextMenu"),
        KeyCode::Comma => reveal_strlit("Comma"),
        KeyCode::Period => reveal_strlit("Period"),
        KeyCode::Slash => reveal_strlit("Slash"),
        KeyCode::Digit0 => reveal_strlit("Digit0"),
        KeyCode::Digit1 => reveal_strlit("Digit1"),
        KeyCode::Digit2 => reveal_strlit("Digit2"),
        KeyCode::Digit3 => reveal_strlit("Digit3"),
        KeyCode::Digit4 => reveal_strlit("Digit4"),
        KeyCode::Digit5 => reveal_strlit("Digit5"),
        KeyCode::Digit6 => reveal_strlit("Digit6"),
        KeyCode::Digit7 => reveal_strlit("Digit7"),
        KeyCode::Digit8 => reveal_strlit("Digit8"),
        KeyCode::Digit9 => reveal_strlit("Digit9"),
        KeyCode::Backspace => reveal_strlit("Backspace"),
        KeyCode::Enter => reveal_strlit("Enter"),
        KeyCode::Space => reveal_strlit("Space"),
        KeyCode::Insert => reveal_strlit("Insert"),
        KeyCode::Delete => reveal_strlit("Delete"),
        KeyCode::Home => reveal_strlit("Home"),
        KeyCode::End => reveal_strlit("End"),
        KeyCode::PageUp => reveal_strlit("PageUp"),
        KeyCode::PageDown => reveal_strlit("PageDown"),
        KeyCode::Minus => reveal_strlit("Minus"),
        KeyCode::Equal => reveal_strlit("PlusEquals"),
        KeyCode::Numpad0 => reveal_strlit("Num0"),
        KeyCode::Numpad1 => reveal_strlit("Num1"),
        KeyCode::Numpad2 => reveal_strlit("Num2"),
        KeyCode::Numpad3 => reveal_strlit("Num3"),
        KeyCode::Numpad4 => reveal_strlit("Num4"),
        KeyCode::Numpad5 => reveal_strlit("Num5"),
        KeyCode::Numpad6 => reveal_strlit("Num6"),
        KeyCode::Numpad7 => reveal_strlit("Num7"),
        KeyCode::Numpad8 => reveal_strlit("Num8"),
        KeyCode::Numpad9 => reveal_strlit("Num9"),
        KeyCode::KeyA => reveal_strlit("KeyA"),
        KeyCode::KeyB => reveal_strlit("KeyB"),
        KeyCode::KeyC => reveal_strlit("KeyC"),
        KeyCode::KeyD => reveal_strlit("KeyD"),
        KeyCode::KeyE => reveal_strlit("KeyE"),
        KeyCode::KeyF => reveal_strlit("KeyF"),
        KeyCode::KeyG => reveal_strlit("KeyG"),
        KeyCode::KeyH => reveal_strlit("KeyH"),
        KeyCode::KeyI => reveal_strlit("KeyI"),
        KeyCode::KeyJ => reveal_strlit("KeyJ"),
        KeyCode::KeyK => reveal_strlit("KeyK"),
        KeyCode::KeyL => reveal_strlit("KeyL"),
        KeyCode::KeyM => reveal_strlit("KeyM"),
        KeyCode::KeyN => reveal_strlit("KeyN"),
        KeyCode::KeyO => reveal_strlit("KeyO"),
        KeyCode::KeyP => reveal_strlit("KeyP"),
        KeyCode::KeyQ => reveal_strlit("KeyQ"),
        KeyCode::KeyR => reveal_strlit("KeyR"),
        KeyCode::KeyS => reveal_strlit("KeyS"),
        KeyCode::KeyT => reveal_strlit("KeyT"),
        KeyCode::KeyU => reveal_strlit("KeyU"),
        KeyCode::KeyV => reveal_strlit("KeyV"),
        KeyCode::KeyW => reveal_strlit("KeyW"),
        KeyCode::KeyX => reveal_strlit("KeyX"),
        KeyCode::KeyY => reveal_strlit("KeyY"),
        KeyCode::KeyZ => reveal_strlit("KeyZ"),
        KeyCode::F1 => reveal_strlit("F1"),
        KeyCode::F2 => reveal_strlit("F2"),
        KeyCode::F3 => reveal_strlit("F3"),
        KeyCode::F4 => reveal_strlit("F4"),
        KeyCode::F5 => reveal_strlit("F5"),
        KeyCode::F6 => reveal_strlit("F6"),
        KeyCode::F7 => reveal_strlit("F7"),
        KeyCode::F8 => reveal_strlit("F8"),
        KeyCode::F9 => reveal_strlit("F9"),
        KeyCode::F10 => reveal_strlit("F10"),
        KeyCode::F11 => reveal_strlit("F11"),
        KeyCode::F12 => reveal_strlit("F12"),
        KeyCode::F13 => reveal_strlit("F13"),
        KeyCode::F14 => reveal_strlit("F14"),
        KeyCode::F15 => reveal_strlit("F15"),
        KeyCode::F16 => reveal_strlit("F16"),
        KeyCode::F17 => reveal_strlit("F17"),
        KeyCode::F18 => reveal_strlit("F18"),
        KeyCode::F19 => reveal_strlit("F19"),
        KeyCode::F20 => reveal_strlit("F20"),
        KeyCode::Fn => reveal_strlit("Fn"),
    }
}

/// No two key codes share a configuration name.
pub proof fn lemma_table_name_injective(a: KeyCode, b: KeyCode)
    requires
        code_table_name(a) == code_table_name(b),
    ensures
        a == b,
{
    lemma_decode_table_name(a);
    lemma_decode_table_name(b);
}

/// Every key code stands in `all_codes`.
proof fn lemma_all_codes_complete(c: KeyCode)
    ensures
        all_codes().contains(c),
{
    match c {
        KeyCode::ArrowDown => assert(all_codes()[0] == c),
        KeyCode::ArrowLeft => assert(all_codes()[1] == c),
        KeyCode::ArrowRight => assert(all_codes()[2] == c),
        KeyCode::ArrowUp => assert(all_codes()[3] == c),
        KeyCode::Escape => assert(all_codes()[4] == c),
        KeyCode::Tab => assert(all_codes()[5] == c),
        KeyCode::Backquote => assert(all_codes()[6] == c),
        KeyCode::Backslash => assert(all_codes()[7] == c),
        KeyCode::AltLeft => assert(all_codes()[8] == c),
        KeyCode::AltRight => assert(all_codes()[9] == c),
        KeyCode::CapsLock => assert(all_codes()[10] == c),
        KeyCode::ControlLeft => assert(all_codes()[11] == c),
        KeyCode::ControlRight => assert(all_codes()[12] == c),
        KeyCode::ShiftLeft => assert(all_codes()[13] == c),
        KeyCode::ShiftRight => assert(all_codes()[14] == c),
        KeyCode::BracketLeft => assert(all_codes()[15] == c),
        KeyCode::BracketRight => assert(all_codes()[16] == c),
        KeyCode::MetaLeft => assert(all_codes()[17] == c),
        KeyCode::MetaRight => assert(all_codes()[18] == c),
        KeyCode::Semicolon => assert(all_codes()[19] == c),
        KeyCode::Quote => assert(all_codes()[20] == c),
        KeyCode::IntlBackslash => assert(all_codes()[21] == c),
        KeyCode::IntlRo => assert(all_codes()[22] == c),
        KeyCode::IntlYen => assert(all_codes()[23] == c),
        KeyCode::ContextMenu => assert(all_codes()[24] == c),
        KeyCode::Comma => assert(all_codes()[25] == c),
        KeyCode::Period => assert(all_codes()[26] == c),
        KeyCode::Slash => assert(all_codes()[27] == c),
        KeyCode::Digit0 => assert(all_codes()[28] == c),
        KeyCode::Digit1 => assert(all_codes()[29] == c),
        KeyCode::Digit2 => assert(all_codes()[30] == c),
        KeyCode::Digit3 => assert(all_codes()[31] == c),
        KeyCode::Digit4 => assert(all_codes()[32] == c),
        KeyCode::Digit5 => assert(all_codes()[33] == c),
        KeyCode::Digit6 => assert(all_codes()[34] == c),
        KeyCode::Digit7 => assert(all_codes()[35] == c),
        KeyCode::Digit8 => assert(all_codes()[36] == c),
        KeyCode::Digit9 => assert(all_codes()[37] == c),
        KeyCode::Backspace => assert(all_codes()[38] == c),
        KeyCode::Enter => assert(all_codes()[39] == c),
        KeyCode::Space => assert(all_codes()[40] == c),
        KeyCode::Insert => assert(all_codes()[41] == c),
        KeyCode::Delete => assert(all_codes()[42] == c),
        KeyCode::Home => assert(all_codes()[43] == c),
        KeyCode::End => assert(all_codes()[44] == c),
        KeyCode::PageUp => assert(all_codes()[45] == c),
        KeyCode::PageDown => assert(all_codes()[46] == c),
        KeyCode::Minus => assert(all_codes()[47] == c),
        KeyCode::Equal => assert(all_codes()[48] == c),
        KeyCode::Numpad0 => assert(all_codes()[49] == c),
        KeyCode::Numpad1 => assert(all_codes()[50] == c),
        KeyCode::Numpad2 => assert(all_codes()[51] == c),
        KeyCode::Numpad3 => assert(all_codes()[52] == c),
        KeyCode::Numpad4 => assert(all_codes()[53] == c),
        KeyCode::Numpad5 => assert(all_codes()[54] == c),
        KeyCode::Numpad6 => assert(all_codes()[55] == c),
        KeyCode::Numpad7 => assert(all_codes()[56] == c),
        KeyCode::Numpad8 => assert(all_codes()[57] == c),
        KeyCode::Numpad9 => assert(all_codes()[58] == c),
        KeyCode::KeyA => assert(all_codes()[59] == c),
        KeyCode::KeyB => assert(all_codes()[60] == c),
        KeyCode::KeyC => assert(all_codes()[61] == c),
        KeyCode::KeyD => assert(all_codes()[62] == c),
        KeyCode::KeyE => assert(all_codes()[63] == c),
        KeyCode::KeyF => assert(all_codes()[64] == c),
        KeyCode::KeyG => assert(all_codes()[65] == c),
        KeyCode::KeyH => assert(all_codes()[66] == c),
        KeyCode::KeyI => assert(all_codes()[67] == c),
        KeyCode::KeyJ => assert(all_codes()[68] == c),
        KeyCode::KeyK => assert(all_codes()[69] == c),
        KeyCode::KeyL => assert(all_codes()[70] == c),
        KeyCode::KeyM => assert(all_codes()[71] == c),
        KeyCode::KeyN => assert(all_codes()[72] == c),
        KeyCode::KeyO => assert(all_codes()[73] == c),
        KeyCode::KeyP => assert(all_codes()[74] == c),
        KeyCode::KeyQ => assert(all_codes()[75] == c),
        KeyCode::KeyR => assert(all_codes()[76] == c),
        KeyCode::KeyS => assert(all_codes()[77] == c),
        KeyCode::KeyT => assert(all_codes()[78] == c),
        KeyCode::KeyU => assert(all_codes()[79] == c),
        KeyCode::KeyV => assert(all_codes()[80] == c),
        KeyCode::KeyW => assert(all_codes()[81] == c),
        KeyCode::KeyX => assert(all_codes()[82] == c),
        KeyCode::KeyY => assert(all_codes()[83] == c),
        KeyCode::KeyZ => assert(all_codes()[84] == c),
        KeyCode::F1 => assert(all_codes()[85] == c),
        KeyCode::F2 => assert(all_codes()[86] == c),
        KeyCode::F3 => assert(all_codes()[87] == c),
        KeyCode::F4 => assert(all_codes()[88] == c),
        KeyCode::F5 => assert(all_codes()[89] == c),
        KeyCode::F6 => assert(all_codes()[90] == c),
        KeyCode::F7 => assert(all_codes()[91] == c),
        KeyCode::F8 => assert(all_codes()[92] == c),
        KeyCode::F9 => assert(all_codes()[93] == c),
        KeyCode::F10 => assert(all_codes()[94] == c),
        KeyCode::F11 => assert(all_codes()[95] == c),
        KeyCode::F12 => assert(all_codes()[96] == c),
        KeyCode::F13 => assert(all_codes()[97] == c),
        KeyCode::F14 => assert(all_codes()[98] == c),
        KeyCode::F15 => assert(all_codes()[99] == c),
        KeyCode::F16 => assert(all_codes()[100] == c),
        KeyCode::F17 => assert(all_codes()[101] == c),
        KeyCode::F18 => assert(all_codes()[102] == c),
        KeyCode::F19 => assert(all_codes()[103] == c),
        KeyCode::F20 => assert(all_codes()[104] == c),
        KeyCode::Fn => assert(all_codes()[105] == c),
    }
}

/// Reading the configuration name of a key code gives back that key code.
pub proof fn lemma_code_of_table_name(c: KeyCode)
    ensures
        code_of_name(code_table_name(c)) == c,
{
    let d = choose|d: KeyCode| code_table_name(d) == code_table_name(c);
    lemma_table_name_injective(d, c);
}

/// The `{:?}` name of every key code is a plain name.
pub proof fn lemma_code_debug_name_plain(c: KeyCode)
    ensures
        is_plain_name(code_debug_name(c)),
{
    match c {
        KeyCode::ArrowDown => reveal_strlit("ArrowDown"),
        KeyCode::ArrowLeft => reveal_strlit("ArrowLeft"),
        KeyCode::ArrowRight => reveal_strlit("ArrowRight"),
        KeyCode::ArrowUp => reveal_strlit("ArrowUp"),
        KeyCode::Escape => reveal_strlit("Escape"),
        KeyCode::Tab => reveal_strlit("Tab"),
        KeyCode::Backquote => reveal_strlit("Backquote"),
        KeyCode::Backslash => reveal_strlit("Backslash"),
        KeyCode::AltLeft => reveal_strlit("AltLeft"),
        KeyCode::AltRight => reveal_strlit("AltRight"),
        KeyCode::CapsLock => reveal_strlit("CapsLock"),
        KeyCode::ControlLeft => reveal_strlit("ControlLeft"),
        KeyCode::ControlRight => reveal_strlit("ControlRight"),
        KeyCode::ShiftLeft => reveal_strlit("ShiftLeft"),
        KeyCode::ShiftRight => reveal_strlit("ShiftRight"),
        KeyCode::BracketLeft => reveal_strlit("BracketLeft"),
        KeyCode::BracketRight => reveal_strlit("BracketRight"),
        KeyCode::MetaLeft => reveal_strlit("MetaLeft"),
        KeyCode::MetaRight => reveal_strlit("MetaRight"),
        KeyCode::Semicolon => reveal_strlit("Semicolon"),
        KeyCode::Quote => reveal_strlit("Quote"),
        KeyCode::IntlBackslash => reveal_strlit("IntlBackslash"),
        KeyCode::IntlRo => reveal_strlit("IntlRo"),
        KeyCode::IntlYen => reveal_strlit("IntlYen"),
        KeyCode::ContextMenu => reveal_strlit("ContextMenu"),
        KeyCode::Comma => reveal_strlit("Comma"),
        KeyCode::Period => reveal_strlit("Period"),
        KeyCode::Slash => reveal_strlit("Slash"),
        KeyCode::Digit0 => reveal_strlit("Digit0"),
        KeyCode::Digit1 => reveal_strlit("Digit1"),
        KeyCode::Digit2 => reveal_strlit("Digit2"),
        KeyCode::Digit3 => reveal_strlit("Digit3"),
        KeyCode::Digit4 => reveal_strlit("Digit4"),
        KeyCode::Digit5 => reveal_strlit("Digit5"),
        KeyCode::Digit6 => reveal_strlit("Digit6"),
        KeyCode::Digit7 => reveal_strlit("Digit7"),
        KeyCode::Digit8 => reveal_strlit("Digit8"),
        KeyCode::Digit9 => reveal_strlit("Digit9"),
        KeyCode::Backspace => reveal_strlit("Backspace"),
        KeyCode::Enter => reveal_strlit("Enter"),
        KeyCode::Space => reveal_strlit("Space"),
        KeyCode::Insert => reveal_strlit("Insert"),
        KeyCode::Delete => reveal_strlit("Delete"),
        KeyCode::Home => reveal_strlit("Home"),
        KeyCode::End => reveal_strlit("End"),
        KeyCode::PageUp => reveal_strlit("PageUp"),
        KeyCode::PageDown => reveal_strlit("PageDown"),
        KeyCode::Minus => reveal_strlit("Minus"),
        KeyCode::Equal => reveal_strlit("Equal"),
        KeyCode::Numpad0 => reveal_strlit("Numpad0"),
        KeyCode::Numpad1 => reveal_strlit("Numpad1"),
        KeyCode::Numpad2 => reveal_strlit("Numpad2"),
        KeyCode::Numpad3 => reveal_strlit("Numpad3"),
        KeyCode::Numpad4 => reveal_strlit("Numpad4"),
        KeyCode::Numpad5 => reveal_strlit("Numpad5"),
        KeyCode::Numpad6 => reveal_strlit("Numpad6"),
        KeyCode::Numpad7 => reveal_strlit("Numpad7"),
        KeyCode::Numpad8 => reveal_strlit("Numpad8"),
        KeyCode::Numpad9 => reveal_strlit("Numpad9"),
        KeyCode::KeyA => reveal_strlit("KeyA"),
        KeyCode::KeyB => reveal_strlit("KeyB"),
        KeyCode::KeyC => reveal_strlit("KeyC"),
        KeyCode::KeyD => reveal_strlit("KeyD"),
        KeyCode::KeyE => reveal_strlit("KeyE"),
        KeyCode::KeyF => reveal_strlit("KeyF"),
        KeyCode::KeyG => reveal_strlit("KeyG"),
        KeyCode::KeyH => reveal_strlit("KeyH"),
        KeyCode::KeyI => reveal_strlit("KeyI"),
        KeyCode::KeyJ => reveal_strlit("KeyJ"),
        KeyCode::KeyK => reveal_strlit("KeyK"),
        KeyCode::KeyL => reveal_strlit("KeyL"),
        KeyCode::KeyM => reveal_strlit("KeyM"),
        KeyCode::KeyN => reveal_strlit("KeyN"),
        KeyCode::KeyO => reveal_strlit("KeyO"),
        KeyCode::KeyP => reveal_strlit("KeyP"),
        KeyCode::KeyQ => reveal_strlit("KeyQ"),
        KeyCode::KeyR => reveal_strlit("KeyR"),
        KeyCode::KeyS => reveal_strlit("KeyS"),
        KeyCode::KeyT => reveal_strlit("KeyT"),
        KeyCode::KeyU => reveal_strlit("KeyU"),
        KeyCode::KeyV => reveal_strlit("KeyV"),
        KeyCode::KeyW => reveal_strlit("KeyW"),
        KeyCode::KeyX => reveal_strlit("KeyX"),
        KeyCode::KeyY => reveal_strlit("KeyY"),
        KeyCode::KeyZ => reveal_strlit("KeyZ"),
        KeyCode::F1 => reveal_strlit("F1"),
        KeyCode::F2 => reveal_strlit("F2"),
        KeyCode::F3 => reveal_strlit("F3"),
        KeyCode::F4 => reveal_strlit("F4"),
        KeyCode::F5 => reveal_strlit("F5"),
        KeyCode::F6 => reveal_strlit("F6"),
        KeyCode::F7 => reveal_strlit("F7"),
        KeyCode::F8 => reveal_strlit("F8"),
        KeyCode::F9 => reveal_strlit("F9"),
        KeyCode::F10 => reveal_strlit("F10"),
        KeyCode::F11 => reveal_strlit("F11"),
        KeyCode::F12 => reveal_strlit("F12"),
        KeyCode::F13 => reveal_strlit("F13"),
        KeyCode::F14 => reveal_strlit("F14"),
        KeyCode::F15 => reveal_strlit("F15"),
        KeyCode::F16 => reveal_strlit("F16"),
        KeyCode::F17 => reveal_strlit("F17"),
        KeyCode::F18 => reveal_strlit("F18"),
        KeyCode::F19 => reveal_strlit("F19"),
        KeyCode::F20 => reveal_strlit("F20"),
        KeyCode::Fn => reveal_strlit("Fn"),
    }
}

/// The `{:?}` name of every modifier set is a plain name.
pub proof fn lemma_modifier_debug_name_plain(m: Modifier)
    ensures
        is_plain_name(modifier_debug_name(m)),
{
    match m {
        Modifier::Alt => reveal_strlit("ALT"),
        Modifier::Control => reveal_strlit("CONTROL"),
        Modifier::Shift => reveal_strlit("SHIFT"),
        Modifier::AltGraph => reveal_strlit("ALT_GRAPH"),
        Modifier::CapsLock => reveal_strlit("CAPS_LOCK"),
        Modifier::Fn => reveal_strlit("FN"),
        Modifier::Symbol => reveal_strlit("SYMBOL"),
        Modifier::Hyper => reveal_strlit("HYPER"),
        Modifier::Meta => reveal_strlit("META"),
        Modifier::NumLock => reveal_strlit("NUM_LOCK"),
        Modifier::ScrollLock => reveal_strlit("SCROLL_LOCK"),
        Modifier::Super => reveal_strlit("SUPER"),
        Modifier::SymbolLock => reveal_strlit("SYMBOL_LOCK"),
        Modifier::Empty => reveal_strlit("(empty)"),
    }
}

/// A plain name is its own trimmed form.
pub proof fn lemma_plain_name_trimmed(s: Seq<char>)
    requires
        is_plain_name(s),
    ensures
        trimmed(s) == s,
{
    assert(is_name_char(s[0]));
    assert(is_name_char(s[s.len() - 1]));
    lemma_trimmed_plain(s);
}

/// A key code is read back from its `{:?}` name exactly when that name is its
/// configuration name.
pub proof fn lemma_code_stability(c: KeyCode)
    ensures
        code_is_stable(c) == debug_name_is_table_name(c),
{
    lemma_code_debug_name_plain(c);
    lemma_plain_name_trimmed(code_debug_name(c));
    if debug_name_is_table_name(c) {
        lemma_code_of_table_name(c);
        match c {
            KeyCode::ArrowDown => assert(code_debug_name(c) == code_table_name(c)),
            KeyCode::ArrowLeft => assert(code_debug_name(c) == code_table_name(c)),
            KeyCode::ArrowRight => assert(code_debug_name(c) == code_table_name(c)),
            KeyCode::ArrowUp => assert(code_debug_name(c) == code_table_name(c)),
            KeyCode::Escape => assert(code_debug_name(c) == code_table_name(c)),
            KeyCode::Tab => assert(code_debug_name(c) == code_table_name(c)),
            KeyCode::Backquote => assert(code_debug_name(c) == code_table_name(c)),
            KeyCode::Backslash => assert(code_debug_name(c) == code_table_name(c)),
            KeyCode::AltLeft => assert(code_debug_name(c) == code_table_name(c)),
            KeyCode::AltRight => assert(code_debug_name(c) == code_table_name(c)),
            KeyCode::CapsLock => assert(code_debug_name(c) == code_table_name(c)),
            KeyCode::ControlLeft => assert(code_debug_name(c) == code_table_name(c)),
            KeyCode::ControlRight => assert(code_debug_name(c) == code_table_name(c)),
            KeyCode::ShiftLeft => assert(code_debug_name(c) == code_table_name(c)),
            KeyCode::ShiftRight => assert(code_debug_name(c) == code_table_name(c)),
            KeyCode::BracketLeft => assert(code_debug_name(c) == code_table_name(c)),
            KeyCode::BracketRight => assert(code_debug_name(c) == code_table_name(c)),
            KeyCode::MetaLeft => assert(code_debug_name(c) == code_table_name(c)),
            KeyCode::MetaRight => assert(code_debug_name(c) == code_table_name(c)),
            KeyCode::Semicolon => assert(code_debug_name(c) == code_table_name(c)),
            KeyCode::Quote => assert(code_debug_name(c) == code_table_name(c)),
            KeyCode::IntlBackslash => assert(code_debug_name(c) == code_table_name(c)),
            KeyCode::IntlRo => assert(code_debug_name(c) == code_table_name(c)),
            KeyCode::IntlYen => assert(code_debug_name(c) == code_table_name(c)),
            KeyCode::ContextMenu => assert(code_debug_name(c) == code_table_name(c)),
            KeyCode::Comma => assert(code_debug_name(c) == code_table_name(c)),
            KeyCode::Period => assert(code_debug_name(c) == code_table_name(c)),
            KeyCode::Slash => assert(code_debug_name(c) == code_table_name(c)),
            KeyCode::Digit0 => assert(code_debug_name(c) == code_table_name(c)),
            KeyCode::Digit1 => assert(code_debug_name(c) == code_table_name(c)),
            KeyCode::Digit2 => assert(code_debug_name(c) == code_table_name(c)),
            KeyCode::Digit3 => assert(code_debug_name(c) == code_table_name(c)),
            KeyCode::Digit4 => assert(code_debug_name(c) == code_table_name(c)),
            KeyCode::Digit5 => assert(code_debug_name(c) == code_table_name(c)),
            KeyCode::Digit6 => assert(code_debug_name(c) == code_table_name(c)),
            KeyCode::Digit7 => assert(code_debug_name(c) == code_table_name(c)),
            KeyCode::Digit8 => assert(code_debug_name(c) == code_table_name(c)),
            KeyCode::Digit9 => assert(code_debug_name(c) == code_table_name(c)),
            KeyCode::Backspace => assert(code_debug_name(c) == code_table_name(c)),
            KeyCode::Enter => assert(code_debug_name(c) == code_table_name(c)),
            KeyCode::Space => assert(code_debug_name(c) == code_table_name(c)),
            KeyCode::Insert => assert(code_debug_name(c) == code_table_name(c)),
            KeyCode::Delete => assert(code_debug_name(c) == code_table_name(c)),
            KeyCode::Home => assert(code_debug_name(c) == code_table_name(c)),
            KeyCode::End => assert(code_debug_name(c) == code_table_name(c)),
            KeyCode::PageUp => assert(code_debug_name(c) == code_table_name(c)),
            KeyCode::PageDown => assert(code_debug_name(c) == code_table_name(c)),
            KeyCode::Minus => assert(code_debug_name(c) == code_table_name(c)),
            KeyCode::KeyA => assert(code_debug_name(c) == code_table_name(c)),
            KeyCode::KeyB => assert(code_debug_name(c) == code_table_name(c)),
            KeyCode::KeyC => assert(code_debug_name(c) == code_table_name(c)),
            KeyCode::KeyD => assert(code_debug_name(c) == code_table_name(c)),
            KeyCode::KeyE => assert(code_debug_name(c) == code_table_name(c)),
            KeyCode::KeyF => assert(code_debug_name(c) == code_table_name(c)),
            KeyCode::KeyG => assert(code_debug_name(c) == code_table_name(c)),
            KeyCode::KeyH => assert(code_debug_name(c) == code_table_name(c)),
            KeyCode::KeyI => assert(code_debug_name(c) == code_table_name(c)),
            KeyCode::KeyJ => assert(code_debug_name(c) == code_table_name(c)),
            KeyCode::KeyK => assert(code_debug_name(c) == code_table_name(c)),
            KeyCode::KeyL => assert(code_debug_name(c) == code_table_name(c)),
            KeyCode::KeyM => assert(code_debug_name(c) == code_table_name(c)),
            KeyCode::KeyN => assert(code_debug_name(c) == code_table_name(c)),
            KeyCode::KeyO => assert(code_debug_name(c) == code_table_name(c)),
            KeyCode::KeyP => assert(code_debug_name(c) == code_table_name(c)),
            KeyCode::KeyQ => assert(code_debug_name(c) == code_table_name(c)),
            KeyCode::KeyR => assert(code_debug_name(c) == code_table_name(c)),
            KeyCode::KeyS => assert(code_debug_name(c) == code_table_name(c)),
            KeyCode::KeyT => assert(code_debug_name(c) == code_table_name(c)),
            KeyCode::KeyU => assert(code_debug_name(c) == code_table_name(c)),
            KeyCode::KeyV => assert(code_debug_name(c) == code_table_name(c)),
            KeyCode::KeyW => assert(code_debug_name(c) == code_table_name(c)),
            KeyCode::KeyX => assert(code_debug_name(c) == code_table_name(c)),
            KeyCode::KeyY => assert(code_debug_name(c) == code_table_name(c)),
            KeyCode::KeyZ => assert(code_debug_name(c) == code_table_name(c)),
            KeyCode::F1 => assert(code_debug_name(c) == code_table_name(c)),
            KeyCode::F2 => assert(code_debug_name(c) == code_table_name(c)),
            KeyCode::F3 => assert(code_debug_name(c) == code_table_name(c)),
            KeyCode::F4 => assert(code_debug_name(c) == code_table_name(c)),
            KeyCode::F5 => assert(code_debug_name(c) == code_table_name(c)),
            KeyCode::F6 => assert(code_debug_name(c) == code_table_name(c)),
            KeyCode::F7 => assert(code_debug_name(c) == code_table_name(c)),
            KeyCode::F8 => assert(code_debug_name(c) == code_table_name(c)),
            KeyCode::F9 => assert(code_debug_name(c) == code_table_name(c)),
            KeyCode::F10 => assert(code_debug_name(c) == code_table_name(c)),
            KeyCode::F11 => assert(code_debug_name(c) == code_table_name(c)),
            KeyCode::F12 => assert(code_debug_name(c) == code_table_name(c)),
            KeyCode::F13 => assert(code_debug_name(c) == code_table_name(c)),
            KeyCode::F14 => assert(code_debug_name(c) == code_table_name(c)),
            KeyCode::F15 => assert(code_debug_name(c) == code_table_name(c)),
            KeyCode::F16 => assert(code_debug_name(c) == code_table_name(c)),
            KeyCode::F17 => assert(code_debug_name(c) == code_table_name(c)),
            KeyCode::F18 => assert(code_debug_name(c) == code_table_name(c)),
            KeyCode::F19 => assert(code_debug_name(c) == code_table_name(c)),
            KeyCode::F20 => assert(code_debug_name(c) == code_table_name(c)),
            KeyCode::Fn => assert(code_debug_name(c) == code_table_name(c)),
            _ => {},
        }
    } else {
        let s = code_debug_name(c);
        match c {
            KeyCode::Equal => reveal_strlit("Equal"),
            KeyCode::Numpad0 => reveal_strlit("Numpad0"),
            KeyCode::Numpad1 => reveal_strlit("Numpad1"),
            KeyCode::Numpad2 => reveal_strlit("Numpad2"),
            KeyCode::Numpad3 => reveal_strlit("Numpad3"),
            KeyCode::Numpad4 => reveal_strlit("Numpad4"),
            KeyCode::Numpad5 => reveal_strlit("Numpad5"),
            KeyCode::Numpad6 => reveal_strlit("Numpad6"),
            KeyCode::Numpad7 => reveal_strlit("Numpad7"),
            KeyCode::Numpad8 => reveal_strlit("Numpad8"),
            KeyCode::Numpad9 => reveal_strlit("Numpad9"),
            _ => {},
        }
        assert forall|d: KeyCode| code_table_name(d) != s by {
            lemma_decode_table_name(d);
        }
    }
}

/// The name under which a pressed toolkit key is written is read back as the key code that
/// the key binds, except for the digits, whose names are read back as the keypad's digits.
pub proof fn lemma_egui_name_read_back(k: EguiKey)
    ensures
        code_of_name(trimmed(egui_key_name(k))) == egui_name_code(k),
        egui_name_code(k) == egui_key_code(k) <==> !is_digit_key(k),
{
    match k {
        EguiKey::ArrowDown => {
            reveal_strlit("ArrowDown");
            assert(egui_key_name(k) == code_table_name(KeyCode::ArrowDown));
            lemma_code_of_table_name(KeyCode::ArrowDown);
        },
        EguiKey::ArrowLeft => {
            reveal_strlit("ArrowLeft");
            assert(egui_key_name(k) == code_table_name(KeyCode::ArrowLeft));
            lemma_code_of_table_name(KeyCode::ArrowLeft);
        },
        EguiKey::ArrowRight => {
            reveal_strlit("ArrowRight");
            assert(egui_key_name(k) == code_table_name(KeyCode::ArrowRight));
            lemma_code_of_table_name(KeyCode::ArrowRight);
        },
        EguiKey::ArrowUp => {
            reveal_strlit("ArrowUp");
            assert(egui_key_name(k) == code_table_name(KeyCode::ArrowUp));
            lemma_code_of_table_name(KeyCode::ArrowUp);
        },
        EguiKey::Escape => {
            reveal_strlit("Escape");
            assert(egui_key_name(k) == code_table_name(KeyCode::Escape));
            lemma_code_of_table_name(KeyCode::Escape);
        },
        EguiKey::Tab => {
            reveal_strlit("Tab");
            assert(egui_key_name(k) == code_table_name(KeyCode::Tab));
            lemma_code_of_table_name(KeyCode::Tab);
        },
        EguiKey::Backspace => {
            reveal_strlit("Backspace");
            assert(egui_key_name(k) == code_table_name(KeyCode::Backspace));
            lemma_code_of_table_name(KeyCode::Backspace);
        },
        EguiKey::Enter => {
            reveal_strlit("Enter");
            assert(egui_key_name(k) == code_table_name(KeyCode::Enter));
            lemma_code_of_table_name(KeyCode::Enter);
        },
        EguiKey::Space => {
            reveal_strlit("Space");
            assert(egui_key_name(k) == code_table_name(KeyCode::Space));
            lemma_code_of_table_name(KeyCode::Space);
        },
        EguiKey::Insert => {
            reveal_strlit("Insert");
            assert(egui_key_name(k) == code_table_name(KeyCode::Insert));
            lemma_code_of_table_name(KeyCode::Insert);
        },
        EguiKey::Delete => {
            reveal_strlit("Delete");
            assert(egui_key_name(k) == code_table_name(KeyCode::Delete));
            lemma_code_of_table_name(KeyCode::Delete);
        },
        EguiKey::Home => {
            reveal_strlit("Home");
            assert(egui_key_name(k) == code_table_name(KeyCode::Home));
            lemma_code_of_table_name(KeyCode::Home);
        },
        EguiKey::End => {
            reveal_strlit("End");
            assert(egui_key_name(k) == code_table_name(KeyCode::End));
            lemma_code_of_table_name(KeyCode::End);
        },
        EguiKey::PageUp => {
            reveal_strlit("PageUp");
            assert(egui_key_name(k) == code_table_name(KeyCode::PageUp));
            lemma_code_of_table_name(KeyCode::PageUp);
        },
        EguiKey::PageDown => {
            reveal_strlit("PageDown");
            assert(egui_key_name(k) == code_table_name(KeyCode::PageDown));
            lemma_code_of_table_name(KeyCode::PageDown);
        },
        EguiKey::Minus => {
            reveal_strlit("Minus");
            assert(egui_key_name(k) == code_table_name(KeyCode::Minus));
            lemma_code_of_table_name(KeyCode::Minus);
        },
        EguiKey::PlusEquals => {
            reveal_strlit("PlusEquals");
            assert(egui_key_name(k) == code_table_name(KeyCode::Equal));
            lemma_code_of_table_name(KeyCode::Equal);
        },
        EguiKey::Num0 => {
            reveal_strlit("Num0");
            assert(egui_key_name(k) == code_table_name(KeyCode::Numpad0));
            lemma_code_of_table_name(KeyCode::Numpad0);
        },
        EguiKey::Num1 => {
            reveal_strlit("Num1");
            assert(egui_key_name(k) == code_table_name(KeyCode::Numpad1));
            lemma_code_of_table_name(KeyCode::Numpad1);
        },
        EguiKey::Num2 => {
            reveal_strlit("Num2");
            assert(egui_key_name(k) == code_table_name(KeyCode::Numpad2));
            lemma_code_of_table_name(KeyCode::Numpad2);
        },
        EguiKey::Num3 => {
            reveal_strlit("Num3");
            assert(egui_key_name(k) == code_table_name(KeyCode::Numpad3));
            lemma_code_of_table_name(KeyCode::Numpad3);
        },
        EguiKey::Num4 => {
            reveal_strlit("Num4");
            assert(egui_key_name(k) == code_table_name(KeyCode::Numpad4));
            lemma_code_of_table_name(KeyCode::Numpad4);
        },
        EguiKey::Num5 => {
            reveal_strlit("Num5");
            assert(egui_key_name(k) == code_table_name(KeyCode::Numpad5));
            lemma_code_of_table_name(KeyCode::Numpad5);
        },
        EguiKey::Num6 => {
            reveal_strlit("Num6");
            assert(egui_key_name(k) == code_table_name(KeyCode::Numpad6));
            lemma_code_of_table_name(KeyCode::Numpad6);
        },
        EguiKey::Num7 => {
            reveal_strlit("Num7");
            assert(egui_key_name(k) == code_table_name(KeyCode::Numpad7));
            lemma_code_of_table_name(KeyCode::Numpad7);
        },
        EguiKey::Num8 => {
            reveal_strlit("Num8");
            assert(egui_key_name(k) == code_table_name(KeyCode::Numpad8));
            lemma_code_of_table_name(KeyCode::Numpad8);
        },
        EguiKey::Num9 => {
            reveal_strlit("Num9");
            assert(egui_key_name(k) == code_table_name(KeyCode::Numpad9));
            lemma_code_of_table_name(KeyCode::Numpad9);
        },
        EguiKey::A => {
            reveal_strlit("KeyA");
            assert(egui_key_name(k) == code_table_name(KeyCode::KeyA));
            lemma_code_of_table_name(KeyCode::KeyA);
        },
        EguiKey::B => {
            reveal_strlit("KeyB");
            assert(egui_key_name(k) == code_table_name(KeyCode::KeyB));
            lemma_code_of_table_name(KeyCode::KeyB);
        },
        EguiKey::C => {
            reveal_strlit("KeyC");
            assert(egui_key_name(k) == code_table_name(KeyCode::KeyC));
            lemma_code_of_table_name(KeyCode::KeyC);
        },
        EguiKey::D => {
            reveal_strlit("KeyD");
            assert(egui_key_name(k) == code_table_name(KeyCode::KeyD));
            lemma_code_of_table_name(KeyCode::KeyD);
        },
        EguiKey::E => {
            reveal_strlit("KeyE");
            assert(egui_key_name(k) == code_table_name(KeyCode::KeyE));
            lemma_code_of_table_name(KeyCode::KeyE);
        },
        EguiKey::F => {
            reveal_strlit("KeyF");
            assert(egui_key_name(k) == code_table_name(KeyCode::KeyF));
            lemma_code_of_table_name(KeyCode::KeyF);
        },
        EguiKey::G => {
            reveal_strlit("KeyG");
            assert(egui_key_name(k) == code_table_name(KeyCode::KeyG));
            lemma_code_of_table_name(KeyCode::KeyG);
        },
        EguiKey::H => {
            reveal_strlit("KeyH");
            assert(egui_key_name(k) == code_table_name(KeyCode::KeyH));
            lemma_code_of_table_name(KeyCode::KeyH);
        },
        EguiKey::I => {
            reveal_strlit("KeyI");
            assert(egui_key_name(k) == code_table_name(KeyCode::KeyI));
            lemma_code_of_table_name(KeyCode::KeyI);
        },
        EguiKey::J => {
            reveal_strlit("KeyJ");
            assert(egui_key_name(k) == code_table_name(KeyCode::KeyJ));
            lemma_code_of_table_name(KeyCode::KeyJ);
        },
        EguiKey::K => {
            reveal_strlit("KeyK");
            assert(egui_key_name(k) == code_table_name(KeyCode::KeyK));
            lemma_code_of_table_name(KeyCode::KeyK);
        },
        EguiKey::L => {
            reveal_strlit("KeyL");
            assert(egui_key_name(k) == code_table_name(KeyCode::KeyL));
            lemma_code_of_table_name(KeyCode::KeyL);
        },
        EguiKey::M => {
            reveal_strlit("KeyM");
            assert(egui_key_name(k) == code_table_name(KeyCode::KeyM));
            lemma_code_of_table_name(KeyCode::KeyM);
        },
        EguiKey::N => {
            reveal_strlit("KeyN");
            assert(egui_key_name(k) == code_table_name(KeyCode::KeyN));
            lemma_code_of_table_name(KeyCode::KeyN);
        },
        EguiKey::O => {
            reveal_strlit("KeyO");
            assert(egui_key_name(k) == code_table_name(KeyCode::KeyO));
            lemma_code_of_table_name(KeyCode::KeyO);
        },
        EguiKey::P => {
            reveal_strlit("KeyP");
            assert(egui_key_name(k) == code_table_name(KeyCode::KeyP));
            lemma_code_of_table_name(KeyCode::KeyP);
        },
        EguiKey::Q => {
            reveal_strlit("KeyQ");
            assert(egui_key_name(k) == code_table_name(KeyCode::KeyQ));
            lemma_code_of_table_name(KeyCode::KeyQ);
        },
        EguiKey::R => {
            reveal_strlit("KeyR");
            assert(egui_key_name(k) == code_table_name(KeyCode::KeyR));
            lemma_code_of_table_name(KeyCode::KeyR);
        },
        EguiKey::S => {
            reveal_strlit("KeyS");
            assert(egui_key_name(k) == code_table_name(KeyCode::KeyS));
            lemma_code_of_table_name(KeyCode::KeyS);
        },
        EguiKey::T => {
            reveal_strlit("KeyT");
            assert(egui_key_name(k) == code_table_name(KeyCode::KeyT));
            lemma_code_of_table_name(KeyCode::KeyT);
        },
        EguiKey::U => {
            reveal_strlit("KeyU");
            assert(egui_key_name(k) == code_table_name(KeyCode::KeyU));
            lemma_code_of_table_name(KeyCode::KeyU);
        },
        EguiKey::V => {
            reveal_strlit("KeyV");
            assert(egui_key_name(k) == code_table_name(KeyCode::KeyV));
            lemma_code_of_table_name(KeyCode::KeyV);
        },
        EguiKey::W => {
            reveal_strlit("KeyW");
            assert(egui_key_name(k) == code_table_name(KeyCode::KeyW));
            lemma_code_of_table_name(KeyCode::KeyW);
        },
        EguiKey::X => {
            reveal_strlit("KeyX");
            assert(egui_key_name(k) == code_table_name(KeyCode::KeyX));
            lemma_code_of_table_name(KeyCode::KeyX);
        },
        EguiKey::Y => {
            reveal_strlit("KeyY");
            assert(egui_key_name(k) == code_table_name(KeyCode::KeyY));
            lemma_code_of_table_name(KeyCode::KeyY);
        },
        EguiKey::Z => {
            reveal_strlit("KeyZ");
            assert(egui_key_name(k) == code_table_name(KeyCode::KeyZ));
            lemma_code_of_table_name(KeyCode::KeyZ);
        },
        EguiKey::F1 => {
            reveal_strlit("F1");
            assert(egui_key_name(k) == code_table_name(KeyCode::F1));
            lemma_code_of_table_name(KeyCode::F1);
        },
        EguiKey::F2 => {
            reveal_strlit("F2");
            assert(egui_key_name(k) == code_table_name(KeyCode::F2));
            lemma_code_of_table_name(KeyCode::F2);
        },
        EguiKey::F3 => {
            reveal_strlit("F3");
            assert(egui_key_name(k) == code_table_name(KeyCode::F3));
            lemma_code_of_table_name(KeyCode::F3);
        },
        EguiKey::F4 => {
            reveal_strlit("F4");
            assert(egui_key_name(k) == code_table_name(KeyCode::F4));
            lemma_code_of_table_name(KeyCode::F4);
        },
        EguiKey::F5 => {
            reveal_strlit("F5");
            assert(egui_key_name(k) == code_table_name(KeyCode::F5));
            lemma_code_of_table_name(KeyCode::F5);
        },
        EguiKey::F6 => {
            reveal_strlit("F6");
            assert(egui_key_name(k) == code_table_name(KeyCode::F6));
            lemma_code_of_table_name(KeyCode::F6);
        },
        EguiKey::F7 => {
            reveal_strlit("F7");
            assert(egui_key_name(k) == code_table_name(KeyCode::F7));
            lemma_code_of_table_name(KeyCode::F7);
        },
        EguiKey::F8 => {
            reveal_strlit("F8");
            assert(egui_key_name(k) == code_table_name(KeyCode::F8));
            lemma_code_of_table_name(KeyCode::F8);
        },
        EguiKey::F9 => {
            reveal_strlit("F9");
            assert(egui_key_name(k) == code_table_name(KeyCode::F9));
            lemma_code_of_table_name(KeyCode::F9);
        },
        EguiKey::F10 => {
            reveal_strlit("F10");
            assert(egui_key_name(k) == code_table_name(KeyCode::F10));
            lemma_code_of_table_name(KeyCode::F10);
        },
        EguiKey::F11 => {
            reveal_strlit("F11");
            assert(egui_key_name(k) == code_table_name(KeyCode::F11));
            lemma_code_of_table_name(KeyCode::F11);
        },
        EguiKey::F12 => {
            reveal_strlit("F12");
            assert(egui_key_name(k) == code_table_name(KeyCode::F12));
            lemma_code_of_table_name(KeyCode::F12);
        },
        EguiKey::F13 => {
            reveal_strlit("F13");
            assert(egui_key_name(k) == code_table_name(KeyCode::F13));
            lemma_code_of_table_name(KeyCode::F13);
        },
        EguiKey::F14 => {
            reveal_strlit("F14");
            assert(egui_key_name(k) == code_table_name(KeyCode::F14));
            lemma_code_of_table_name(KeyCode::F14);
        },
        EguiKey::F15 => {
            reveal_strlit("F15");
            assert(egui_key_name(k) == code_table_name(KeyCode::F15));
            lemma_code_of_table_name(KeyCode::F15);
        },
        EguiKey::F16 => {
            reveal_strlit("F16");
            assert(egui_key_name(k) == code_table_name(KeyCode::F16));
            lemma_code_of_table_name(KeyCode::F16);
        },
        EguiKey::F17 => {
            reveal_strlit("F17");
            assert(egui_key_name(k) == code_table_name(KeyCode::F17));
            lemma_code_of_table_name(KeyCode::F17);
        },
        EguiKey::F18 => {
            reveal_strlit("F18");
            assert(egui_key_name(k) == code_table_name(KeyCode::F18));
            lemma_code_of_table_name(KeyCode::F18);
        },
        EguiKey::F19 => {
            reveal_strlit("F19");
            assert(egui_key_name(k) == code_table_name(KeyCode::F19));
            lemma_code_of_table_name(KeyCode::F19);
        },
        EguiKey::F20 => {
            reveal_strlit("F20");
            assert(egui_key_name(k) == code_table_name(KeyCode::F20));
            lemma_code_of_table_name(KeyCode::F20);
        },
    }
    let s = egui_key_name(k);
    assert(is_plain_name(s));
    lemma_plain_name_trimmed(s);
}

/// Reading a modifier's `{:?}` name gives back the modifier.
pub proof fn lemma_modifier_read_back(m: Modifier)
    ensures
        modifier_of_name(modifier_debug_name(m)) == m,
{
    reveal_strlit("ALT");
    reveal_strlit("CONTROL");
    reveal_strlit("SHIFT");
    reveal_strlit("ALT_GRAPH");
    reveal_strlit("CAPS_LOCK");
    reveal_strlit("FN");
    reveal_strlit("SYMBOL");
    reveal_strlit("HYPER");
    reveal_strlit("META");
    reveal_strlit("NUM_LOCK");
    reveal_strlit("SCROLL_LOCK");
    reveal_strlit("SUPER");
    reveal_strlit("SYMBOL_LOCK");
    reveal_strlit("(empty)");
    assert("ALT"@.len() == 3);
    assert("CONTROL"@.len() == 7);
    assert("SHIFT"@.len() == 5);
    assert("ALT_GRAPH"@.len() == 9);
    assert("CAPS_LOCK"@.len() == 9);
    assert("FN"@.len() == 2);
    assert("SYMBOL"@.len() == 6);
    assert("HYPER"@.len() == 5);
    assert("META"@.len() == 4);
    assert("NUM_LOCK"@.len() == 8);
    assert("SCROLL_LOCK"@.len() == 11);
    assert("SUPER"@.len() == 5);
    assert("SYMBOL_LOCK"@.len() == 11);
    assert("(empty)"@.len() == 7);
    assert("SHIFT"@[0] != "HYPER"@[0]);
    assert("HYPER"@[0] != "SUPER"@[0]);
    assert("SHIFT"@[1] != "SUPER"@[1]);
    assert("ALT_GRAPH"@[0] != "CAPS_LOCK"@[0]);
    assert("CONTROL"@[0] != "(empty)"@[0]);
    assert("SCROLL_LOCK"@[1] != "SYMBOL_LOCK"@[1]);
    match m {
        Modifier::Alt => assert(modifier_of_name(modifier_debug_name(m)) == m),
        Modifier::Control => assert(modifier_of_name(modifier_debug_name(m)) == m),
        Modifier::Shift => assert(modifier_of_name(modifier_debug_name(m)) == m),
        Modifier::AltGraph => assert(modifier_of_name(modifier_debug_name(m)) == m),
        Modifier::CapsLock => assert(modifier_of_name(modifier_debug_name(m)) == m),
        Modifier::Fn => assert(modifier_of_name(modifier_debug_name(m)) == m),
        Modifier::Symbol => assert(modifier_of_name(modifier_debug_name(m)) == m),
        Modifier::Hyper => assert(modifier_of_name(modifier_debug_name(m)) == m),
        Modifier::Meta => assert(modifier_of_name(modifier_debug_name(m)) == m),
        Modifier::NumLock => assert(modifier_of_name(modifier_debug_name(m)) == m),
        Modifier::ScrollLock => assert(modifier_of_name(modifier_debug_name(m)) == m),
        Modifier::Super => assert(modifier_of_name(modifier_debug_name(m)) == m),
        Modifier::SymbolLock => assert(modifier_of_name(modifier_debug_name(m)) == m),
        Modifier::Empty => assert(modifier_of_name(modifier_debug_name(m)) == m),
    }
}

/// The key codes of the letter keys.
pub open spec fn is_letter_key(c: KeyCode) -> bool {
    c == KeyCode::KeyA
        || c == KeyCode::KeyB
        || c == KeyCode::KeyC
        || c == KeyCode::KeyD
        || c == KeyCode::KeyE
        || c == KeyCode::KeyF
        || c == KeyCode::KeyG
        || c == KeyCode::KeyH
        || c == KeyCode::KeyI
        || c == KeyCode::KeyJ
        || c == KeyCode::KeyK
        || c == KeyCode::KeyL
        || c == KeyCode::KeyM
        || c == KeyCode::KeyN
        || c == KeyCode::KeyO
        || c == KeyCode::KeyP
        || c == KeyCode::KeyQ
        || c == KeyCode::KeyR
        || c == KeyCode::KeyS
        || c == KeyCode::KeyT
        || c == KeyCode::KeyU
        || c == KeyCode::KeyV
        || c == KeyCode::KeyW
        || c == KeyCode::KeyX
        || c == KeyCode::KeyY
        || c == KeyCode::KeyZ
}

/// Every configuration name of a key code has at least two characters.
proof fn lemma_table_name_long(c: KeyCode)
    ensures
        code_table_name(c).len() >= 2,
{
    match c {
        KeyCode::ArrowDown => reveal_strlit("ArrowDown"),
        KeyCode::ArrowLeft => reveal_strlit("ArrowLeft"),
        KeyCode::ArrowRight => reveal_strlit("ArrowRight"),
        KeyCode::ArrowUp => reveal_strlit("ArrowUp"),
        KeyCode::Escape => reveal_strlit("Escape"),
        KeyCode::Tab => reveal_strlit("Tab"),
        KeyCode::Backquote => reveal_strlit("Backquote"),
        KeyCode::Backslash => reveal_strlit("Backslash"),
        KeyCode::AltLeft => reveal_strlit("AltLeft"),
        KeyCode::AltRight => reveal_strlit("AltRight"),
        KeyCode::CapsLock => reveal_strlit("CapsLock"),
        KeyCode::ControlLeft => reveal_strlit("ControlLeft"),
        KeyCode::ControlRight => reveal_strlit("ControlRight"),
        KeyCode::ShiftLeft => reveal_strlit("ShiftLeft"),
        KeyCode::ShiftRight => reveal_strlit("ShiftRight"),
        KeyCode::BracketLeft => reveal_strlit("BracketLeft"),
        KeyCode::BracketRight => reveal_strlit("BracketRight"),
        KeyCode::MetaLeft => reveal_strlit("MetaLeft"),
        KeyCode::MetaRight => reveal_strlit("MetaRight"),
        KeyCode::Semicolon => reveal_strlit("Semicolon"),
        KeyCode::Quote => reveal_strlit("Quote"),
        KeyCode::IntlBackslash => reveal_strlit("IntlBackslash"),
        KeyCode::IntlRo => reveal_strlit("IntlRo"),
        KeyCode::IntlYen => reveal_strlit("IntlYen"),
        KeyCode::ContextMenu => reveal_strlit("ContextMenu"),
        KeyCode::Comma => reveal_strlit("Comma"),
        KeyCode::Period => reveal_strlit("Period"),
        KeyCode::Slash => reveal_strlit("Slash"),
        KeyCode::Digit0 => reveal_strlit("Digit0"),
        KeyCode::Digit1 => reveal_strlit("Digit1"),
        KeyCode::Digit2 => reveal_strlit("Digit2"),
        KeyCode::Digit3 => reveal_strlit("Digit3"),
        KeyCode::Digit4 => reveal_strlit("Digit4"),
        KeyCode::Digit5 => reveal_strlit("Digit5"),
        KeyCode::Digit6 => reveal_strlit("Digit6"),
        KeyCode::Digit7 => reveal_strlit("Digit7"),
        KeyCode::Digit8 => reveal_strlit("Digit8"),
        KeyCode::Digit9 => reveal_strlit("Digit9"),
        KeyCode::Backspace => reveal_strlit("Backspace"),
        KeyCode::Enter => reveal_strlit("Enter"),
        KeyCode::Space => reveal_strlit("Space"),
        KeyCode::Insert => reveal_strlit("Insert"),
        KeyCode::Delete => reveal_strlit("Delete"),
        KeyCode::Home => reveal_strlit("Home"),
        KeyCode::End => reveal_strlit("End"),
        KeyCode::PageUp => reveal_strlit("PageUp"),
        KeyCode::PageDown => reveal_strlit("PageDown"),
        KeyCode::Minus => reveal_strlit("Minus"),
        KeyCode::Equal => reveal_strlit("PlusEquals"),
        KeyCode::Numpad0 => reveal_strlit("Num0"),
        KeyCode::Numpad1 => reveal_strlit("Num1"),
        KeyCode::Numpad2 => reveal_strlit("Num2"),
        KeyCode::Numpad3 => reveal_strlit("Num3"),
        KeyCode::Numpad4 => reveal_strlit("Num4"),
        KeyCode::Numpad5 => reveal_strlit("Num5"),
        KeyCode::Numpad6 => reveal_strlit("Num6"),
        KeyCode::Numpad7 => reveal_strlit("Num7"),
        KeyCode::Numpad8 => reveal_strlit("Num8"),
        KeyCode::Numpad9 => reveal_strlit("Num9"),
        KeyCode::KeyA => reveal_strlit("KeyA"),
        KeyCode::KeyB => reveal_strlit("KeyB"),
        KeyCode::KeyC => reveal_strlit("KeyC"),
        KeyCode::KeyD => reveal_strlit("KeyD"),
        KeyCode::KeyE => reveal_strlit("KeyE"),
        KeyCode::KeyF => reveal_strlit("KeyF"),
        KeyCode::KeyG => reveal_strlit("KeyG"),
        KeyCode::KeyH => reveal_strlit("KeyH"),
        KeyCode::KeyI => reveal_strlit("KeyI"),
        KeyCode::KeyJ => reveal_strlit("KeyJ"),
        KeyCode::KeyK => reveal_strlit("KeyK"),
        KeyCode::KeyL => reveal_strlit("KeyL"),
        KeyCode::KeyM => reveal_strlit("KeyM"),
        KeyCode::KeyN => reveal_strlit("KeyN"),
        KeyCode::KeyO => reveal_strlit("KeyO"),
        KeyCode::KeyP => reveal_strlit("KeyP"),
        KeyCode::KeyQ => reveal_strlit("KeyQ"),
        KeyCode::KeyR => reveal_strlit("KeyR"),
        KeyCode::KeyS => reveal_strlit("KeyS"),
        KeyCode::KeyT => reveal_strlit("KeyT"),
        KeyCode::KeyU => reveal_strlit("KeyU"),
        KeyCode::KeyV => reveal_strlit("KeyV"),
        KeyCode::KeyW => reveal_strlit("KeyW"),
        KeyCode::KeyX => reveal_strlit("KeyX"),
        KeyCode::KeyY => reveal_strlit("KeyY"),
        KeyCode::KeyZ => reveal_strlit("KeyZ"),
        KeyCode::F1 => reveal_strlit("F1"),
        KeyCode::F2 => reveal_strlit("F2"),
        KeyCode::F3 => reveal_strlit("F3"),
        KeyCode::F4 => reveal_strlit("F4"),
        KeyCode::F5 => reveal_strlit("F5"),
        KeyCode::F6 => reveal_strlit("F6"),
        KeyCode::F7 => reveal_strlit("F7"),
        KeyCode::F8 => reveal_strlit("F8"),
        KeyCode::F9 => reveal_strlit("F9"),
        KeyCode::F10 => reveal_strlit("F10"),
        KeyCode::F11 => reveal_strlit("F11"),
        KeyCode::F12 => reveal_strlit("F12"),
        KeyCode::F13 => reveal_strlit("F13"),
        KeyCode::F14 => reveal_strlit("F14"),
        KeyCode::F15 => reveal_strlit("F15"),
        KeyCode::F16 => reveal_strlit("F16"),
        KeyCode::F17 => reveal_strlit("F17"),
        KeyCode::F18 => reveal_strlit("F18"),
        KeyCode::F19 => reveal_strlit("F19"),
        KeyCode::F20 => reveal_strlit("F20"),
        KeyCode::Fn => reveal_strlit("Fn"),
    }
}

/// Turning a key code into a `StringCodeWrap` and back gives the code again, except for
/// the letter keys: their bare letter names no key code and is read as `Enter`.
pub proof fn lemma_wrap_round_trip(c: KeyCode)
    ensures
        code_of_name(code_wrap_name(c)) == if is_letter_key(c) {
            KeyCode::Enter
        } else {
            c
        },
{
    if is_letter_key(c) {
        match c {
            KeyCode::KeyA => reveal_strlit("A"),
            KeyCode::KeyB => reveal_strlit("B"),
            KeyCode::KeyC => reveal_strlit("C"),
            KeyCode::KeyD => reveal_strlit("D"),
            KeyCode::KeyE => reveal_strlit("E"),
            KeyCode::KeyF => reveal_strlit("F"),
            KeyCode::KeyG => reveal_strlit("G"),
            KeyCode::KeyH => reveal_strlit("H"),
            KeyCode::KeyI => reveal_strlit("I"),
            KeyCode::KeyJ => reveal_strlit("J"),
            KeyCode::KeyK => reveal_strlit("K"),
            KeyCode::KeyL => reveal_strlit("L"),
            KeyCode::KeyM => reveal_strlit("M"),
            KeyCode::KeyN => reveal_strlit("N"),
            KeyCode::KeyO => reveal_strlit("O"),
            KeyCode::KeyP => reveal_strlit("P"),
            KeyCode::KeyQ => reveal_strlit("Q"),
            KeyCode::KeyR => reveal_strlit("R"),
            KeyCode::KeyS => reveal_strlit("S"),
            KeyCode::KeyT => reveal_strlit("T"),
            KeyCode::KeyU => reveal_strlit("U"),
            KeyCode::KeyV => reveal_strlit("V"),
            KeyCode::KeyW => reveal_strlit("W"),
            KeyCode::KeyX => reveal_strlit("X"),
            KeyCode::KeyY => reveal_strlit("Y"),
            KeyCode::KeyZ => reveal_strlit("Z"),
            _ => {},
        }
        assert(code_wrap_name(c).len() == 1);
        assert forall|d: KeyCode| code_table_name(d) != code_wrap_name(c) by {
            lemma_table_name_long(d);
        }
    } else {
        match c {
            KeyCode::ArrowDown => assert(code_wrap_name(c) == code_table_name(c)),
            KeyCode::ArrowLeft => assert(code_wrap_name(c) == code_table_name(c)),
            KeyCode::ArrowRight => assert(code_wrap_name(c) == code_table_name(c)),
            KeyCode::ArrowUp => assert(code_wrap_name(c) == code_table_name(c)),
            KeyCode::Escape => assert(code_wrap_name(c) == code_table_name(c)),
            KeyCode::Tab => assert(code_wrap_name(c) == code_table_name(c)),
            KeyCode::Backquote => assert(code_wrap_name(c) == code_table_name(c)),
            KeyCode::Backslash => assert(code_wrap_name(c) == code_table_name(c)),
            KeyCode::AltLeft => assert(code_wrap_name(c) == code_table_name(c)),
            KeyCode::AltRight => assert(code_wrap_name(c) == code_table_name(c)),
            KeyCode::CapsLock => assert(code_wrap_name(c) == code_table_name(c)),
            KeyCode::ControlLeft => assert(code_wrap_name(c) == code_table_name(c)),
            KeyCode::ControlRight => assert(code_wrap_name(c) == code_table_name(c)),
            KeyCode::ShiftLeft => assert(code_wrap_name(c) == code_table_name(c)),
            KeyCode::ShiftRight => assert(code_wrap_name(c) == code_table_name(c)),
            KeyCode::BracketLeft => assert(code_wrap_name(c) == code_table_name(c)),
            KeyCode::BracketRight => assert(code_wrap_name(c) == code_table_name(c)),
            KeyCode::MetaLeft => assert(code_wrap_name(c) == code_table_name(c)),
            KeyCode::MetaRight => assert(code_wrap_name(c) == code_table_name(c)),
            KeyCode::Semicolon => assert(code_wrap_name(c) == code_table_name(c)),
            KeyCode::Quote => assert(code_wrap_name(c) == code_table_name(c)),
            KeyCode::IntlBackslash => assert(code_wrap_name(c) == code_table_name(c)),
            KeyCode::IntlRo => assert(code_wrap_name(c) == code_table_name(c)),
            KeyCode::IntlYen => assert(code_wrap_name(c) == code_table_name(c)),
            KeyCode::ContextMenu => assert(code_wrap_name(c) == code_table_name(c)),
            KeyCode::Comma => assert(code_wrap_name(c) == code_table_name(c)),
            KeyCode::Period => assert(code_wrap_name(c) == code_table_name(c)),
            KeyCode::Slash => assert(code_wrap_name(c) == code_table_name(c)),
            KeyCode::Digit0 => assert(code_wrap_name(c) == code_table_name(c)),
            KeyCode::Digit1 => assert(code_wrap_name(c) == code_table_name(c)),
            KeyCode::Digit2 => assert(code_wrap_name(c) == code_table_name(c)),
            KeyCode::Digit3 => assert(code_wrap_name(c) == code_table_name(c)),
            KeyCode::Digit4 => assert(code_wrap_name(c) == code_table_name(c)),
            KeyCode::Digit5 => assert(code_wrap_name(c) == code_table_name(c)),
            KeyCode::Digit6 => assert(code_wrap_name(c) == code_table_name(c)),
            KeyCode::Digit7 => assert(code_wrap_name(c) == code_table_name(c)),
            KeyCode::Digit8 => assert(code_wrap_name(c) == code_table_name(c)),
            KeyCode::Digit9 => assert(code_wrap_name(c) == code_table_name(c)),
            KeyCode::Backspace => assert(code_wrap_name(c) == code_table_name(c)),
            KeyCode::Enter => assert(code_wrap_name(c) == code_table_name(c)),
            KeyCode::Space => assert(code_wrap_name(c) == code_table_name(c)),
            KeyCode::Insert => assert(code_wrap_name(c) == code_table_name(c)),
            KeyCode::Delete => assert(code_wrap_name(c) == code_table_name(c)),
            KeyCode::Home => assert(code_wrap_name(c) == code_table_name(c)),
            KeyCode::End => assert(code_wrap_name(c) == code_table_name(c)),
            KeyCode::PageUp => assert(code_wrap_name(c) == code_table_name(c)),
            KeyCode::PageDown => assert(code_wrap_name(c) == code_table_name(c)),
            KeyCode::Minus => assert(code_wrap_name(c) == code_table_name(c)),
            KeyCode::Equal => assert(code_wrap_name(c) == code_table_name(c)),
            KeyCode::Numpad0 => assert(code_wrap_name(c) == code_table_name(c)),
            KeyCode::Numpad1 => assert(code_wrap_name(c) == code_table_name(c)),
            KeyCode::Numpad2 => assert(code_wrap_name(c) == code_table_name(c)),
            KeyCode::Numpad3 => assert(code_wrap_name(c) == code_table_name(c)),
            KeyCode::Numpad4 => assert(code_wrap_name(c) == code_table_name(c)),
            KeyCode::Numpad5 => assert(code_wrap_name(c) == code_table_name(c)),
            KeyCode::Numpad6 => assert(code_wrap_name(c) == code_table_name(c)),
            KeyCode::Numpad7 => assert(code_wrap_name(c) == code_table_name(c)),
            KeyCode::Numpad8 => assert(code_wrap_name(c) == code_table_name(c)),
            KeyCode::Numpad9 => assert(code_wrap_name(c) == code_table_name(c)),
            KeyCode::F1 => assert(code_wrap_name(c) == code_table_name(c)),
            KeyCode::F2 => assert(code_wrap_name(c) == code_table_name(c)),
            KeyCode::F3 => assert(code_wrap_name(c) == code_table_name(c)),
            KeyCode::F4 => assert(code_wrap_name(c) == code_table_name(c)),
            KeyCode::F5 => assert(code_wrap_name(c) == code_table_name(c)),
            KeyCode::F6 => assert(code_wrap_name(c) == code_table_name(c)),
            KeyCode::F7 => assert(code_wrap_name(c) == code_table_name(c)),
            KeyCode::F8 => assert(code_wrap_name(c) == code_table_name(c)),
            KeyCode::F9 => assert(code_wrap_name(c) == code_table_name(c)),
            KeyCode::F10 => assert(code_wrap_name(c) == code_table_name(c)),
            KeyCode::F11 => assert(code_wrap_name(c) == code_table_name(c)),
            KeyCode::F12 => assert(code_wrap_name(c) == code_table_name(c)),
            KeyCode::F13 => assert(code_wrap_name(c) == code_table_name(c)),
            KeyCode::F14 => assert(code_wrap_name(c) == code_table_name(c)),
            KeyCode::F15 => assert(code_wrap_name(c) == code_table_name(c)),
            KeyCode::F16 => assert(code_wrap_name(c) == code_table_name(c)),
            KeyCode::F17 => assert(code_wrap_name(c) == code_table_name(c)),
            KeyCode::F18 => assert(code_wrap_name(c) == code_table_name(c)),
            KeyCode::F19 => assert(code_wrap_name(c) == code_table_name(c)),
            KeyCode::F20 => assert(code_wrap_name(c) == code_table_name(c)),
            KeyCode::Fn => assert(code_wrap_name(c) == code_table_name(c)),
            _ => {},
        }
        lemma_code_of_table_name(c);
    }
}

/// The name under which every toolkit key is written is a plain name.
pub proof fn lemma_egui_key_name_plain(k: EguiKey)
    ensures
        is_plain_name(egui_key_name(k)),
{
    match k {
        EguiKey::ArrowDown => reveal_strlit("ArrowDown"),
        EguiKey::ArrowLeft => reveal_strlit("ArrowLeft"),
        EguiKey::ArrowRight => reveal_strlit("ArrowRight"),
        EguiKey::ArrowUp => reveal_strlit("ArrowUp"),
        EguiKey::Escape => reveal_strlit("Escape"),
        EguiKey::Tab => reveal_strlit("Tab"),
        EguiKey::Backspace => reveal_strlit("Backspace"),
        EguiKey::Enter => reveal_strlit("Enter"),
        EguiKey::Space => reveal_strlit("Space"),
        EguiKey::Insert => reveal_strlit("Insert"),
        EguiKey::Delete => reveal_strlit("Delete"),
        EguiKey::Home => reveal_strlit("Home"),
        EguiKey::End => reveal_strlit("End"),
        EguiKey::PageUp => reveal_strlit("PageUp"),
        EguiKey::PageDown => reveal_strlit("PageDown"),
        EguiKey::Minus => reveal_strlit("Minus"),
        EguiKey::PlusEquals => reveal_strlit("PlusEquals"),
        EguiKey::Num0 => reveal_strlit("Num0"),
        EguiKey::Num1 => reveal_strlit("Num1"),
        EguiKey::Num2 => reveal_strlit("Num2"),
        EguiKey::Num3 => reveal_strlit("Num3"),
        EguiKey::Num4 => reveal_strlit("Num4"),
        EguiKey::Num5 => reveal_strlit("Num5"),
        EguiKey::Num6 => reveal_strlit("Num6"),
        EguiKey::Num7 => reveal_strlit("Num7"),
        EguiKey::Num8 => reveal_strlit("Num8"),
        EguiKey::Num9 => reveal_strlit("Num9"),
        EguiKey::A => reveal_strlit("KeyA"),
        EguiKey::B => reveal_strlit("KeyB"),
        EguiKey::C => reveal_strlit("KeyC"),
        EguiKey::D => reveal_strlit("KeyD"),
        EguiKey::E => reveal_strlit("KeyE"),
        EguiKey::F => reveal_strlit("KeyF"),
        EguiKey::G => reveal_strlit("KeyG"),
        EguiKey::H => reveal_strlit("KeyH"),
        EguiKey::I => reveal_strlit("KeyI"),
        EguiKey::J => reveal_strlit("KeyJ"),
        EguiKey::K => reveal_strlit("KeyK"),
        EguiKey::L => reveal_strlit("KeyL"),
        EguiKey::M => reveal_strlit("KeyM"),
        EguiKey::N => reveal_strlit("KeyN"),
        EguiKey::O => reveal_strlit("KeyO"),
        EguiKey::P => reveal_strlit("KeyP"),
        EguiKey::Q => reveal_strlit("KeyQ"),
        EguiKey::R => reveal_strlit("KeyR"),
        EguiKey::S => reveal_strlit("KeyS"),
        EguiKey::T => reveal_strlit("KeyT"),
        EguiKey::U => reveal_strlit("KeyU"),
        EguiKey::V => reveal_strlit("KeyV"),
        EguiKey::W => reveal_strlit("KeyW"),
        EguiKey::X => reveal_strlit("KeyX"),
        EguiKey::Y => reveal_strlit("KeyY"),
        EguiKey::Z => reveal_strlit("KeyZ"),
        EguiKey::F1 => reveal_strlit("F1"),
        EguiKey::F2 => reveal_strlit("F2"),
        EguiKey::F3 => reveal_strlit("F3"),
        EguiKey::F4 => reveal_strlit("F4"),
        EguiKey::F5 => reveal_strlit("F5"),
        EguiKey::F6 => reveal_strlit("F6"),
        EguiKey::F7 => reveal_strlit("F7"),
        EguiKey::F8 => reveal_strlit("F8"),
        EguiKey::F9 => reveal_strlit("F9"),
        EguiKey::F10 => reveal_strlit("F10"),
        EguiKey::F11 => reveal_strlit("F11"),
        EguiKey::F12 => reveal_strlit("F12"),
        EguiKey::F13 => reveal_strlit("F13"),
        EguiKey::F14 => reveal_strlit("F14"),
        EguiKey::F15 => reveal_strlit("F15"),
        EguiKey::F16 => reveal_strlit("F16"),
        EguiKey::F17 => reveal_strlit("F17"),
        EguiKey::F18 => reveal_strlit("F18"),
        EguiKey::F19 => reveal_strlit("F19"),
        EguiKey::F20 => reveal_strlit("F20"),
    }
}

/// White space around a key name, or trimming it once more, never changes the key code it
/// is read as.
pub proof fn lemma_code_name_ignores_padding(a: Seq<char>, s: Seq<char>, b: Seq<char>)
    requires
        all_white(a),
        all_white(b),
    ensures
        code_of_name(trimmed(a + s + b)) == code_of_name(trimmed(s)),
        code_of_name(trimmed(trimmed(s))) == code_of_name(trimmed(s)),
{
    lemma_trimmed_pad(a, s, b);
    lemma_trimmed_idempotent(s);
}

/// The configuration name of a key code, as a string literal.
pub fn table_name_text(c: KeyCode) -> (r: &'static str)
    ensures
        r@ == code_table_name(c),
{
    match c {
        KeyCode::ArrowDown => "ArrowDown",
        KeyCode::ArrowLeft => "ArrowLeft",
        KeyCode::ArrowRight => "ArrowRight",
        KeyCode::ArrowUp => "ArrowUp",
        KeyCode::Escape => "Escape",
        KeyCode::Tab => "Tab",
        KeyCode::Backquote => "Backquote",
        KeyCode::Backslash => "Backslash",
        KeyCode::AltLeft => "AltLeft",
        KeyCode::AltRight => "AltRight",
        KeyCode::CapsLock => "CapsLock",
        KeyCode::ControlLeft => "ControlLeft",
        KeyCode::ControlRight => "ControlRight",
        KeyCode::ShiftLeft => "ShiftLeft",
        KeyCode::ShiftRight => "ShiftRight",
        KeyCode::BracketLeft => "BracketLeft",
        KeyCode::BracketRight => "BracketRight",
        KeyCode::MetaLeft => "MetaLeft",
        KeyCode::MetaRight => "MetaRight",
        KeyCode::Semicolon => "Semicolon",
        KeyCode::Quote => "Quote",
        KeyCode::IntlBackslash => "IntlBackslash",
        KeyCode::IntlRo => "IntlRo",
        KeyCode::IntlYen => "IntlYen",
        KeyCode::ContextMenu => "ContextMenu",
        KeyCode::Comma => "Comma",
        KeyCode::Period => "Period",
        KeyCode::Slash => "Slash",
        KeyCode::Digit0 => "Digit0",
        KeyCode::Digit1 => "Digit1",
        KeyCode::Digit2 => "Digit2",
        KeyCode::Digit3 => "Digit3",
        KeyCode::Digit4 => "Digit4",
        KeyCode::Digit5 => "Digit5",
        KeyCode::Digit6 => "Digit6",
        KeyCode::Digit7 => "Digit7",
        KeyCode::Digit8 => "Digit8",
        KeyCode::Digit9 => "Digit9",
        KeyCode::Backspace => "Backspace",
        KeyCode::Enter => "Enter",
        KeyCode::Space => "Space",
        KeyCode::Insert => "Insert",
        KeyCode::Delete => "Delete",
        KeyCode::Home => "Home",
        KeyCode::End => "End",
        KeyCode::PageUp => "PageUp",
        KeyCode::PageDown => "PageDown",
        KeyCode::Minus => "Minus",
        KeyCode::Equal => "PlusEquals",
        KeyCode::Numpad0 => "Num0",
        KeyCode::Numpad1 => "Num1",
        KeyCode::Numpad2 => "Num2",
        KeyCode::Numpad3 => "Num3",
        KeyCode::Numpad4 => "Num4",
        KeyCode::Numpad5 => "Num5",
        KeyCode::Numpad6 => "Num6",
        KeyCode::Numpad7 => "Num7",
        KeyCode::Numpad8 => "Num8",
        KeyCode::Numpad9 => "Num9",
        KeyCode::KeyA => "KeyA",
        KeyCode::KeyB => "KeyB",
        KeyCode::KeyC => "KeyC",
        KeyCode::KeyD => "KeyD",
        KeyCode::KeyE => "KeyE",
        KeyCode::KeyF => "KeyF",
        KeyCode::KeyG => "KeyG",
        KeyCode::KeyH => "KeyH",
        KeyCode::KeyI => "KeyI",
        KeyCode::KeyJ => "KeyJ",
        KeyCode::KeyK => "KeyK",
        KeyCode::KeyL => "KeyL",
        KeyCode::KeyM => "KeyM",
        KeyCode::KeyN => "KeyN",
        KeyCode::KeyO => "KeyO",
        KeyCode::KeyP => "KeyP",
        KeyCode::KeyQ => "KeyQ",
        KeyCode::KeyR => "KeyR",
        KeyCode::KeyS => "KeyS",
        KeyCode::KeyT => "KeyT",
        KeyCode::KeyU => "KeyU",
        KeyCode::KeyV => "KeyV",
        KeyCode::KeyW => "KeyW",
        KeyCode::KeyX => "KeyX",
        KeyCode::KeyY => "KeyY",
        KeyCode::KeyZ => "KeyZ",
        KeyCode::F1 => "F1",
        KeyCode::F2 => "F2",
        KeyCode::F3 => "F3",
        KeyCode::F4 => "F4",
        KeyCode::F5 => "F5",
        KeyCode::F6 => "F6",
        KeyCode::F7 => "F7",
        KeyCode::F8 => "F8",
        KeyCode::F9 => "F9",
        KeyCode::F10 => "F10",
        KeyCode::F11 => "F11",
        KeyCode::F12 => "F12",
        KeyCode::F13 => "F13",
        KeyCode::F14 => "F14",
        KeyCode::F15 => "F15",
        KeyCode::F16 => "F16",
        KeyCode::F17 => "F17",
        KeyCode::F18 => "F18",
        KeyCode::F19 => "F19",
        KeyCode::F20 => "F20",
        KeyCode::Fn => "Fn",
    }
}

/// What `{:?}` prints for a key code, as a string literal.
pub fn debug_name_text(c: KeyCode) -> (r: &'static str)
    ensures
        r@ == code_debug_name(c),
{
    match c {
        KeyCode::ArrowDown => "ArrowDown",
        KeyCode::ArrowLeft => "ArrowLeft",
        KeyCode::ArrowRight => "ArrowRight",
        KeyCode::ArrowUp => "ArrowUp",
        KeyCode::Escape => "Escape",
        KeyCode::Tab => "Tab",
        KeyCode::Backquote => "Backquote",
        KeyCode::Backslash => "Backslash",
        KeyCode::AltLeft => "AltLeft",
        KeyCode::AltRight => "AltRight",
        KeyCode::CapsLock => "CapsLock",
        KeyCode::ControlLeft => "ControlLeft",
        KeyCode::ControlRight => "ControlRight",
        KeyCode::ShiftLeft => "ShiftLeft",
        KeyCode::ShiftRight => "ShiftRight",
        KeyCode::BracketLeft => "BracketLeft",
        KeyCode::BracketRight => "BracketRight",
        KeyCode::MetaLeft => "MetaLeft",
        KeyCode::MetaRight => "MetaRight",
        KeyCode::Semicolon => "Semicolon",
        KeyCode::Quote => "Quote",
        KeyCode::IntlBackslash => "IntlBackslash",
        KeyCode::IntlRo => "IntlRo",
        KeyCode::IntlYen => "IntlYen",
        KeyCode::ContextMenu => "ContextMenu",
        KeyCode::Comma => "Comma",
        KeyCode::Period => "Period",
        KeyCode::Slash => "Slash",
        KeyCode::Digit0 => "Digit0",
        KeyCode::Digit1 => "Digit1",
        KeyCode::Digit2 => "Digit2",
        KeyCode::Digit3 => "Digit3",
        KeyCode::Digit4 => "Digit4",
        KeyCode::Digit5 => "Digit5",
        KeyCode::Digit6 => "Digit6",
        KeyCode::Digit7 => "Digit7",
        KeyCode::Digit8 => "Digit8",
        KeyCode::Digit9 => "Digit9",
        KeyCode::Backspace => "Backspace",
        KeyCode::Enter => "Enter",
        KeyCode::Space => "Space",
        KeyCode::Insert => "Insert",
        KeyCode::Delete => "Delete",
        KeyCode::Home => "Home",
        KeyCode::End => "End",
        KeyCode::PageUp => "PageUp",
        KeyCode::PageDown => "PageDown",
        KeyCode::Minus => "Minus",
        KeyCode::Equal => "Equal",
        KeyCode::Numpad0 => "Numpad0",
        KeyCode::Numpad1 => "Numpad1",
        KeyCode::Numpad2 => "Numpad2",
        KeyCode::Numpad3 => "Numpad3",
        KeyCode::Numpad4 => "Numpad4",
        KeyCode::Numpad5 => "Numpad5",
        KeyCode::Numpad6 => "Numpad6",
        KeyCode::Numpad7 => "Numpad7",
        KeyCode::Numpad8 => "Numpad8",
        KeyCode::Numpad9 => "Numpad9",
        KeyCode::KeyA => "KeyA",
        KeyCode::KeyB => "KeyB",
        KeyCode::KeyC => "KeyC",
        KeyCode::KeyD => "KeyD",
        KeyCode::KeyE => "KeyE",
        KeyCode::KeyF => "KeyF",
        KeyCode::KeyG => "KeyG",
        KeyCode::KeyH => "KeyH",
        KeyCode::KeyI => "KeyI",
        KeyCode::KeyJ => "KeyJ",
        KeyCode::KeyK => "KeyK",
        KeyCode::KeyL => "KeyL",
        KeyCode::KeyM => "KeyM",
        KeyCode::KeyN => "KeyN",
        KeyCode::KeyO => "KeyO",
        KeyCode::KeyP => "KeyP",
        KeyCode::KeyQ => "KeyQ",
        KeyCode::KeyR => "KeyR",
        KeyCode::KeyS => "KeyS",
        KeyCode::KeyT => "KeyT",
        KeyCode::KeyU => "KeyU",
        KeyCode::KeyV => "KeyV",
        KeyCode::KeyW => "KeyW",
        KeyCode::KeyX => "KeyX",
        KeyCode::KeyY => "KeyY",
        KeyCode::KeyZ => "KeyZ",
        KeyCode::F1 => "F1",
        KeyCode::F2 => "F2",
        KeyCode::F3 => "F3",
        KeyCode::F4 => "F4",
        KeyCode::F5 => "F5",
        KeyCode::F6 => "F6",
        KeyCode::F7 => "F7",
        KeyCode::F8 => "F8",
        KeyCode::F9 => "F9",
        KeyCode::F10 => "F10",
        KeyCode::F11 => "F11",
        KeyCode::F12 => "F12",
        KeyCode::F13 => "F13",
        KeyCode::F14 => "F14",
        KeyCode::F15 => "F15",
        KeyCode::F16 => "F16",
        KeyCode::F17 => "F17",
        KeyCode::F18 => "F18",
        KeyCode::F19 => "F19",
        KeyCode::F20 => "F20",
        KeyCode::Fn => "Fn",
    }
}

/// What `{:?}` prints for a modifier set, as a string literal.
pub fn modifier_debug_text(m: Modifier) -> (r: &'static str)
    ensures
        r@ == modifier_debug_name(m),
{
    match m {
        Modifier::Alt => "ALT",
        Modifier::Control => "CONTROL",
        Modifier::Shift => "SHIFT",
        Modifier::AltGraph => "ALT_GRAPH",
        Modifier::CapsLock => "CAPS_LOCK",
        Modifier::Fn => "FN",
        Modifier::Symbol => "SYMBOL",
        Modifier::Hyper => "HYPER",
        Modifier::Meta => "META",
        Modifier::NumLock => "NUM_LOCK",
        Modifier::ScrollLock => "SCROLL_LOCK",
        Modifier::Super => "SUPER",
        Modifier::SymbolLock => "SYMBOL_LOCK",
        Modifier::Empty => "(empty)",
    }
}

/// The bits of a modifier in `global_hotkey::hotkey::Modifiers`.
pub fn modifier_bits_of(m: Modifier) -> (r: u32)
    ensures
        r == modifier_bits(m),
{
    match m {
        Modifier::Alt => 0x1,
        Modifier::Control => 0x8,
        Modifier::Shift => 0x200,
        Modifier::AltGraph => 0x2,
        Modifier::CapsLock => 0x4,
        Modifier::Fn => 0x10,
        Modifier::Symbol => 0x400,
        Modifier::Hyper => 0x1000,
        Modifier::Meta => 0x40,
        Modifier::NumLock => 0x80,
        Modifier::ScrollLock => 0x100,
        Modifier::Super => 0x2000,
        Modifier::SymbolLock => 0x800,
        Modifier::Empty => 0,
    }
}

/// Every key code, in the order of the table of names.
pub fn all_codes_vec() -> (v: Vec<KeyCode>)
    ensures
        v@ == all_codes(),
{
    let v = vec![
        KeyCode::ArrowDown,
        KeyCode::ArrowLeft,
        KeyCode::ArrowRight,
        KeyCode::ArrowUp,
        KeyCode::Escape,
        KeyCode::Tab,
        KeyCode::Backquote,
        KeyCode::Backslash,
        KeyCode::AltLeft,
        KeyCode::AltRight,
        KeyCode::CapsLock,
        KeyCode::ControlLeft,
        KeyCode::ControlRight,
        KeyCode::ShiftLeft,
        KeyCode::ShiftRight,
        KeyCode::BracketLeft,
        KeyCode::BracketRight,
        KeyCode::MetaLeft,
        KeyCode::MetaRight,
        KeyCode::Semicolon,
        KeyCode::Quote,
        KeyCode::IntlBackslash,
        KeyCode::IntlRo,
        KeyCode::IntlYen,
        KeyCode::ContextMenu,
        KeyCode::Comma,
        KeyCode::Period,
        KeyCode::Slash,
        KeyCode::Digit0,
        KeyCode::Digit1,
        KeyCode::Digit2,
        KeyCode::Digit3,
        KeyCode::Digit4,
        KeyCode::Digit5,
        KeyCode::Digit6,
        KeyCode::Digit7,
        KeyCode::Digit8,
        KeyCode::Digit9,
        KeyCode::Backspace,
        KeyCode::Enter,
        KeyCode::Space,
        KeyCode::Insert,
        KeyCode::Delete,
        KeyCode::Home,
        KeyCode::End,
        KeyCode::PageUp,
        KeyCode::PageDown,
        KeyCode::Minus,
        KeyCode::Equal,
        KeyCode::Numpad0,
        KeyCode::Numpad1,
        KeyCode::Numpad2,
        KeyCode::Numpad3,
        KeyCode::Numpad4,
        KeyCode::Numpad5,
        KeyCode::Numpad6,
        KeyCode::Numpad7,
        KeyCode::Numpad8,
        KeyCode::Numpad9,
        KeyCode::KeyA,
        KeyCode::KeyB,
        KeyCode::KeyC,
        KeyCode::KeyD,
        KeyCode::KeyE,
        KeyCode::KeyF,
        KeyCode::KeyG,
        KeyCode::KeyH,
        KeyCode::KeyI,
        KeyCode::KeyJ,
        KeyCode::KeyK,
        KeyCode::KeyL,
        KeyCode::KeyM,
        KeyCode::KeyN,
        KeyCode::KeyO,
        KeyCode::KeyP,
        KeyCode::KeyQ,
        KeyCode::KeyR,
        KeyCode::KeyS,
        KeyCode::KeyT,
        KeyCode::KeyU,
        KeyCode::KeyV,
        KeyCode::KeyW,
        KeyCode::KeyX,
        KeyCode::KeyY,
        KeyCode::KeyZ,
        KeyCode::F1,
        KeyCode::F2,
        KeyCode::F3,
        KeyCode::F4,
        KeyCode::F5,
        KeyCode::F6,
        KeyCode::F7,
        KeyCode::F8,
        KeyCode::F9,
        KeyCode::F10,
        KeyCode::F11,
        KeyCode::F12,
        KeyCode::F13,
        KeyCode::F14,
        KeyCode::F15,
        KeyCode::F16,
        KeyCode::F17,
        KeyCode::F18,
        KeyCode::F19,
        KeyCode::F20,
        KeyCode::Fn,
    ];
    assert(v@ =~= all_codes());
    v
}

/// The key code that a configuration name stands for (`Enter` for an unknown name).
pub fn code_from_name(s: &str) -> (r: KeyCode)
    ensures
        r == code_of_name(s@),
{
    let codes = all_codes_vec();
    let mut i: usize = 0;
    while i < codes.len()
        invariant
            codes@ == all_codes(),
            i <= codes@.len(),
            forall|j: int| 0 <= j < i ==> code_table_name(#[trigger] codes@[j]) != s@,
        decreases codes@.len() - i,
    {
        let c = codes[i];
        if text_is(s, table_name_text(c)) {
            proof {
                lemma_code_of_table_name(c);
            }
            return c;
        }
        i += 1;
    }
    proof {
        assert forall|c: KeyCode| code_table_name(c) != s@ by {
            lemma_all_codes_complete(c);
            let j = choose|j: int| 0 <= j < all_codes().len() && all_codes()[j] == c;
            assert(codes@[j] == c);
        }
    }
    KeyCode::Enter
}

/// The modifier that a configuration text names (the empty set for an unknown text).
pub fn modifier_from_name(s: &str) -> (r: Modifier)
    ensures
        r == modifier_of_name(s@),
{
    if text_is(s, "ALT") {
        Modifier::Alt
    }     else if text_is(s, "CONTROL") {
        Modifier::Control
    }     else if text_is(s, "SHIFT") {
        Modifier::Shift
    }     else if text_is(s, "ALT_GRAPH") {
        Modifier::AltGraph
    }     else if text_is(s, "CAPS_LOCK") {
        Modifier::CapsLock
    }     else if text_is(s, "FN") {
        Modifier::Fn
    }     else if text_is(s, "SYMBOL") {
        Modifier::Symbol
    }     else if text_is(s, "HYPER") {
        Modifier::Hyper
    }     else if text_is(s, "META") {
        Modifier::Meta
    }     else if text_is(s, "NUM_LOCK") {
        Modifier::NumLock
    }     else if text_is(s, "SCROLL_LOCK") {
        Modifier::ScrollLock
    }     else if text_is(s, "SUPER") {
        Modifier::Super
    }     else if text_is(s, "SYMBOL_LOCK") {
        Modifier::SymbolLock
    } else {
        Modifier::Empty
    }
}

/// A key code name held as a string, as the configuration file writes it.
pub struct StringCodeWrap {
    code: String,
}

impl View for StringCodeWrap {
    type V = Seq<char>;

    closed spec fn view(&self) -> Seq<char> {
        self.code@
    }
}

impl StringCodeWrap {
    /// Wraps a key code name.
    pub fn new(code: String) -> (r: Self)
        ensures
            r@ == code@,
    {
        Self { code }
    }

    /// The key code that the (trimmed) text names; `Enter` where it names none.
    pub fn string_to_code(s: String) -> (r: KeyCode)
        ensures
            r == code_of_name(trimmed(s@)),
    {
        let wrap = StringCodeWrap::new(trim(s.as_str()));
        wrap.into_code()
    }

    /// The modifier that the text names exactly; the empty set where it names none.
    pub fn string_to_modifiers(s: String) -> (r: Modifier)
        ensures
            r == modifier_of_name(s@),
    {
        modifier_from_name(s.as_str())
    }

    /// The key code that the held name stands for; `Enter` where it names none.
    pub fn into_code(self) -> (r: KeyCode)
        ensures
            r == code_of_name(self@),
    {
        code_from_name(self.code.as_str())
    }

    /// The name that stands for a key code (letters by their bare letter).
    pub fn from_code(value: KeyCode) -> (r: Self)
        ensures
            r@ == code_wrap_name(value),
    {
        let name: &str = match value {
            KeyCode::ArrowDown => "ArrowDown",
            KeyCode::ArrowLeft => "ArrowLeft",
            KeyCode::ArrowRight => "ArrowRight",
            KeyCode::ArrowUp => "ArrowUp",
            KeyCode::Escape => "Escape",
            KeyCode::Tab => "Tab",
            KeyCode::Backquote => "Backquote",
            KeyCode::Backslash => "Backslash",
            KeyCode::AltLeft => "AltLeft",
            KeyCode::AltRight => "AltRight",
            KeyCode::CapsLock => "CapsLock",
            KeyCode::ControlLeft => "ControlLeft",
            KeyCode::ControlRight => "ControlRight",
            KeyCode::ShiftLeft => "ShiftLeft",
            KeyCode::ShiftRight => "ShiftRight",
            KeyCode::BracketLeft => "BracketLeft",
            KeyCode::BracketRight => "BracketRight",
            KeyCode::MetaLeft => "MetaLeft",
            KeyCode::MetaRight => "MetaRight",
            KeyCode::Semicolon => "Semicolon",
            KeyCode::Quote => "Quote",
            KeyCode::IntlBackslash => "IntlBackslash",
            KeyCode::IntlRo => "IntlRo",
            KeyCode::IntlYen => "IntlYen",
            KeyCode::ContextMenu => "ContextMenu",
            KeyCode::Comma => "Comma",
            KeyCode::Period => "Period",
            KeyCode::Slash => "Slash",
            KeyCode::Digit0 => "Digit0",
            KeyCode::Digit1 => "Digit1",
            KeyCode::Digit2 => "Digit2",
            KeyCode::Digit3 => "Digit3",
            KeyCode::Digit4 => "Digit4",
            KeyCode::Digit5 => "Digit5",
            KeyCode::Digit6 => "Digit6",
            KeyCode::Digit7 => "Digit7",
            KeyCode::Digit8 => "Digit8",
            KeyCode::Digit9 => "Digit9",
            KeyCode::Backspace => "Backspace",
            KeyCode::Enter => "Enter",
            KeyCode::Space => "Space",
            KeyCode::Insert => "Insert",
            KeyCode::Delete => "Delete",
            KeyCode::Home => "Home",
            KeyCode::End => "End",
            KeyCode::PageUp => "PageUp",
            KeyCode::PageDown => "PageDown",
            KeyCode::Minus => "Minus",
            KeyCode::Equal => "PlusEquals",
            KeyCode::Numpad0 => "Num0",
            KeyCode::Numpad1 => "Num1",
            KeyCode::Numpad2 => "Num2",
            KeyCode::Numpad3 => "Num3",
            KeyCode::Numpad4 => "Num4",
            KeyCode::Numpad5 => "Num5",
            KeyCode::Numpad6 => "Num6",
            KeyCode::Numpad7 => "Num7",
            KeyCode::Numpad8 => "Num8",
            KeyCode::Numpad9 => "Num9",
            KeyCode::KeyA => "A",
            KeyCode::KeyB => "B",
            KeyCode::KeyC => "C",
            KeyCode::KeyD => "D",
            KeyCode::KeyE => "E",
            KeyCode::KeyF => "F",
            KeyCode::KeyG => "G",
            KeyCode::KeyH => "H",
            KeyCode::KeyI => "I",
            KeyCode::KeyJ => "J",
            KeyCode::KeyK => "K",
            KeyCode::KeyL => "L",
            KeyCode::KeyM => "M",
            KeyCode::KeyN => "N",
            KeyCode::KeyO => "O",
            KeyCode::KeyP => "P",
            KeyCode::KeyQ => "Q",
            KeyCode::KeyR => "R",
            KeyCode::KeyS => "S",
            KeyCode::KeyT => "T",
            KeyCode::KeyU => "U",
            KeyCode::KeyV => "V",
            KeyCode::KeyW => "W",
            KeyCode::KeyX => "X",
            KeyCode::KeyY => "Y",
            KeyCode::KeyZ => "Z",
            KeyCode::F1 => "F1",
            KeyCode::F2 => "F2",
            KeyCode::F3 => "F3",
            KeyCode::F4 => "F4",
            KeyCode::F5 => "F5",
            KeyCode::F6 => "F6",
            KeyCode::F7 => "F7",
            KeyCode::F8 => "F8",
            KeyCode::F9 => "F9",
            KeyCode::F10 => "F10",
            KeyCode::F11 => "F11",
            KeyCode::F12 => "F12",
            KeyCode::F13 => "F13",
            KeyCode::F14 => "F14",
            KeyCode::F15 => "F15",
            KeyCode::F16 => "F16",
            KeyCode::F17 => "F17",
            KeyCode::F18 => "F18",
            KeyCode::F19 => "F19",
            KeyCode::F20 => "F20",
            KeyCode::Fn => "Fn",
        };
        StringCodeWrap::new(name.to_owned())
    }
}

/// A toolkit key, on its way to a key code or a hotkey text.
pub struct EguiKeyWrap {
    key: EguiKey,
}

impl EguiKeyWrap {
    /// Wraps a toolkit key.
    pub fn new(key: EguiKey) -> (r: EguiKeyWrap)
        ensures
            r.key() == key,
    {
        EguiKeyWrap { key }
    }

    /// The wrapped key.
    pub closed spec fn key(&self) -> EguiKey {
        self.key
    }

    /// The key code that the toolkit key binds.
    pub fn into_code(self) -> (r: KeyCode)
        ensures
            r == egui_key_code(self.key()),
    {
        match self.key {
            EguiKey::ArrowDown => KeyCode::ArrowDown,
            EguiKey::ArrowLeft => KeyCode::ArrowLeft,
            EguiKey::ArrowRight => KeyCode::ArrowRight,
            EguiKey::ArrowUp => KeyCode::ArrowUp,
            EguiKey::Escape => KeyCode::Escape,
            EguiKey::Tab => KeyCode::Tab,
            EguiKey::Backspace => KeyCode::Backspace,
            EguiKey::Enter => KeyCode::Enter,
            EguiKey::Space => KeyCode::Space,
            EguiKey::Insert => KeyCode::Insert,
            EguiKey::Delete => KeyCode::Delete,
            EguiKey::Home => KeyCode::Home,
            EguiKey::End => KeyCode::End,
            EguiKey::PageUp => KeyCode::PageUp,
            EguiKey::PageDown => KeyCode::PageDown,
            EguiKey::Minus => KeyCode::Minus,
            EguiKey::PlusEquals => KeyCode::Equal,
            EguiKey::Num0 => KeyCode::Digit0,
            EguiKey::Num1 => KeyCode::Digit1,
            EguiKey::Num2 => KeyCode::Digit2,
            EguiKey::Num3 => KeyCode::Digit3,
            EguiKey::Num4 => KeyCode::Digit4,
            EguiKey::Num5 => KeyCode::Digit5,
            EguiKey::Num6 => KeyCode::Digit6,
            EguiKey::Num7 => KeyCode::Digit7,
            EguiKey::Num8 => KeyCode::Digit8,
            EguiKey::Num9 => KeyCode::Digit9,
            EguiKey::A => KeyCode::KeyA,
            EguiKey::B => KeyCode::KeyB,
            EguiKey::C => KeyCode::KeyC,
            EguiKey::D => KeyCode::KeyD,
            EguiKey::E => KeyCode::KeyE,
            EguiKey::F => KeyCode::KeyF,
            EguiKey::G => KeyCode::KeyG,
            EguiKey::H => KeyCode::KeyH,
            EguiKey::I => KeyCode::KeyI,
            EguiKey::J => KeyCode::KeyJ,
            EguiKey::K => KeyCode::KeyK,
            EguiKey::L => KeyCode::KeyL,
            EguiKey::M => KeyCode::KeyM,
            EguiKey::N => KeyCode::KeyN,
            EguiKey::O => KeyCode::KeyO,
            EguiKey::P => KeyCode::KeyP,
            EguiKey::Q => KeyCode::KeyQ,
            EguiKey::R => KeyCode::KeyR,
            EguiKey::S => KeyCode::KeyS,
            EguiKey::T => KeyCode::KeyT,
            EguiKey::U => KeyCode::KeyU,
            EguiKey::V => KeyCode::KeyV,
            EguiKey::W => KeyCode::KeyW,
            EguiKey::X => KeyCode::KeyX,
            EguiKey::Y => KeyCode::KeyY,
            EguiKey::Z => KeyCode::KeyZ,
            EguiKey::F1 => KeyCode::F1,
            EguiKey::F2 => KeyCode::F2,
            EguiKey::F3 => KeyCode::F3,
            EguiKey::F4 => KeyCode::F4,
            EguiKey::F5 => KeyCode::F5,
            EguiKey::F6 => KeyCode::F6,
            EguiKey::F7 => KeyCode::F7,
            EguiKey::F8 => KeyCode::F8,
            EguiKey::F9 => KeyCode::F9,
            EguiKey::F10 => KeyCode::F10,
            EguiKey::F11 => KeyCode::F11,
            EguiKey::F12 => KeyCode::F12,
            EguiKey::F13 => KeyCode::F13,
            EguiKey::F14 => KeyCode::F14,
            EguiKey::F15 => KeyCode::F15,
            EguiKey::F16 => KeyCode::F16,
            EguiKey::F17 => KeyCode::F17,
            EguiKey::F18 => KeyCode::F18,
            EguiKey::F19 => KeyCode::F19,
            EguiKey::F20 => KeyCode::F20,
        }
    }

    /// The name under which the toolkit key is written into a hotkey text.
    pub fn into_name(self) -> (r: String)
        ensures
            r@ == egui_key_name(self.key()),
    {
        let name: &str = match self.key {
            EguiKey::ArrowDown => "ArrowDown",
            EguiKey::ArrowLeft => "ArrowLeft",
            EguiKey::ArrowRight => "ArrowRight",
            EguiKey::ArrowUp => "ArrowUp",
            EguiKey::Escape => "Escape",
            EguiKey::Tab => "Tab",
            EguiKey::Backspace => "Backspace",
            EguiKey::Enter => "Enter",
            EguiKey::Space => "Space",
            EguiKey::Insert => "Insert",
            EguiKey::Delete => "Delete",
            EguiKey::Home => "Home",
            EguiKey::End => "End",
            EguiKey::PageUp => "PageUp",
            EguiKey::PageDown => "PageDown",
            EguiKey::Minus => "Minus",
            EguiKey::PlusEquals => "PlusEquals",
            EguiKey::Num0 => "Num0",
            EguiKey::Num1 => "Num1",
            EguiKey::Num2 => "Num2",
            EguiKey::Num3 => "Num3",
            EguiKey::Num4 => "Num4",
            EguiKey::Num5 => "Num5",
            EguiKey::Num6 => "Num6",
            EguiKey::Num7 => "Num7",
            EguiKey::Num8 => "Num8",
            EguiKey::Num9 => "Num9",
            EguiKey::A => "KeyA",
            EguiKey::B => "KeyB",
            EguiKey::C => "KeyC",
            EguiKey::D => "KeyD",
            EguiKey::E => "KeyE",
            EguiKey::F => "KeyF",
            EguiKey::G => "KeyG",
            EguiKey::H => "KeyH",
            EguiKey::I => "KeyI",
            EguiKey::J => "KeyJ",
            EguiKey::K => "KeyK",
            EguiKey::L => "KeyL",
            EguiKey::M => "KeyM",
            EguiKey::N => "KeyN",
            EguiKey::O => "KeyO",
            EguiKey::P => "KeyP",
            EguiKey::Q => "KeyQ",
            EguiKey::R => "KeyR",
            EguiKey::S => "KeyS",
            EguiKey::T => "KeyT",
            EguiKey::U => "KeyU",
            EguiKey::V => "KeyV",
            EguiKey::W => "KeyW",
            EguiKey::X => "KeyX",
            EguiKey::Y => "KeyY",
            EguiKey::Z => "KeyZ",
            EguiKey::F1 => "F1",
            EguiKey::F2 => "F2",
            EguiKey::F3 => "F3",
            EguiKey::F4 => "F4",
            EguiKey::F5 => "F5",
            EguiKey::F6 => "F6",
            EguiKey::F7 => "F7",
            EguiKey::F8 => "F8",
            EguiKey::F9 => "F9",
            EguiKey::F10 => "F10",
            EguiKey::F11 => "F11",
            EguiKey::F12 => "F12",
            EguiKey::F13 => "F13",
            EguiKey::F14 => "F14",
            EguiKey::F15 => "F15",
            EguiKey::F16 => "F16",
            EguiKey::F17 => "F17",
            EguiKey::F18 => "F18",
            EguiKey::F19 => "F19",
            EguiKey::F20 => "F20",
        };
        name.to_owned()
    }
}

} // verus!
