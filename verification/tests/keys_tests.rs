use std::str::FromStr;

use drag_capture::hotkey_action::HotkeyAction;
use drag_capture::keys::{
    all_codes_vec, debug_name_text, modifier_bits_of, modifier_debug_text, table_name_text,
    EguiKey, EguiKeyWrap, KeyCode, Modifier, StringCodeWrap,
};
use global_hotkey::hotkey::{Code, Modifiers};

const MODIFIERS: [Modifier; 13] = [
    Modifier::Alt,
    Modifier::Control,
    Modifier::Shift,
    Modifier::AltGraph,
    Modifier::CapsLock,
    Modifier::Fn,
    Modifier::Symbol,
    Modifier::Hyper,
    Modifier::Meta,
    Modifier::NumLock,
    Modifier::ScrollLock,
    Modifier::Super,
    Modifier::SymbolLock,
];

#[test]
fn action_numbers_round_trip() {
    for v in -3..10 {
        match HotkeyAction::new_from_i32(v) {
            Some(a) => {
                assert!((0..=6).contains(&v));
                assert_eq!(HotkeyAction::i32_from_action(a), v);
            }
            None => assert!(!(0..=6).contains(&v)),
        }
    }
    assert_eq!(HotkeyAction::new_from_i32(0), Some(HotkeyAction::TakeScreenshot));
    assert_eq!(HotkeyAction::new_from_i32(6), Some(HotkeyAction::ResetImage));
    assert_eq!(HotkeyAction::i32_from_action(HotkeyAction::Undo), 5);
}

#[test]
fn string_to_code_reads_table_names() {
    assert_eq!(StringCodeWrap::string_to_code("KeyF".to_string()), KeyCode::KeyF);
    assert_eq!(StringCodeWrap::string_to_code("  Escape \n".to_string()), KeyCode::Escape);
    assert_eq!(StringCodeWrap::string_to_code("PlusEquals".to_string()), KeyCode::Equal);
    assert_eq!(StringCodeWrap::string_to_code("Num0".to_string()), KeyCode::Numpad0);
    assert_eq!(StringCodeWrap::string_to_code("Digit0".to_string()), KeyCode::Digit0);
    assert_eq!(StringCodeWrap::string_to_code("keyf".to_string()), KeyCode::Enter);
    assert_eq!(StringCodeWrap::string_to_code("".to_string()), KeyCode::Enter);
    for c in all_codes_vec() {
        assert_eq!(StringCodeWrap::string_to_code(table_name_text(c).to_string()), c);
    }
}

#[test]
fn string_to_modifiers_reads_exact_names() {
    assert_eq!(StringCodeWrap::string_to_modifiers("ALT".to_string()), Modifier::Alt);
    assert_eq!(StringCodeWrap::string_to_modifiers("SYMBOL_LOCK".to_string()), Modifier::SymbolLock);
    assert_eq!(StringCodeWrap::string_to_modifiers(" ALT".to_string()), Modifier::Empty);
    assert_eq!(StringCodeWrap::string_to_modifiers("COMMAND".to_string()), Modifier::Empty);
    for m in MODIFIERS {
        assert_eq!(StringCodeWrap::string_to_modifiers(modifier_debug_text(m).to_string()), m);
    }
}

#[test]
fn modifier_names_and_bits_match_global_hotkey() {
    for m in MODIFIERS {
        let flags = Modifiers::from_bits_truncate(modifier_bits_of(m));
        assert_eq!(format!("{:?}", flags), modifier_debug_text(m));
    }
    assert_eq!(format!("{:?}", Modifiers::empty()), modifier_debug_text(Modifier::Empty));
}

#[test]
fn debug_names_match_global_hotkey_codes() {
    for c in all_codes_vec() {
        let code = Code::from_str(debug_name_text(c)).expect("every key code parses");
        assert_eq!(format!("{:?}", code), debug_name_text(c));
        assert_eq!(code.to_string(), debug_name_text(c));
    }
    assert_eq!(all_codes_vec().len(), 106);
}

#[test]
fn debug_names_read_back_except_equal_and_keypad_digits() {
    for c in all_codes_vec() {
        let back = StringCodeWrap::string_to_code(debug_name_text(c).to_string());
        let renamed = matches!(
            c,
            KeyCode::Equal
                | KeyCode::Numpad0
                | KeyCode::Numpad1
                | KeyCode::Numpad2
                | KeyCode::Numpad3
                | KeyCode::Numpad4
                | KeyCode::Numpad5
                | KeyCode::Numpad6
                | KeyCode::Numpad7
                | KeyCode::Numpad8
                | KeyCode::Numpad9
        );
        assert_eq!(back == c, !renamed, "code {:?}", c);
        if renamed {
            assert_eq!(back, KeyCode::Enter);
        }
    }
}

#[test]
fn wrapped_codes_read_back_except_letters() {
    assert_eq!(StringCodeWrap::from_code(KeyCode::Escape).into_code(), KeyCode::Escape);
    assert_eq!(StringCodeWrap::from_code(KeyCode::Digit7).into_code(), KeyCode::Digit7);
    assert_eq!(StringCodeWrap::from_code(KeyCode::KeyA).into_code(), KeyCode::Enter);
    assert_eq!(StringCodeWrap::new("KeyA".to_string()).into_code(), KeyCode::KeyA);
}

#[test]
fn egui_keys_name_and_bind() {
    assert_eq!(EguiKeyWrap::new(EguiKey::A).into_code(), KeyCode::KeyA);
    assert_eq!(EguiKeyWrap::new(EguiKey::A).into_name(), "KeyA");
    assert_eq!(EguiKeyWrap::new(EguiKey::PlusEquals).into_code(), KeyCode::Equal);
    assert_eq!(EguiKeyWrap::new(EguiKey::PlusEquals).into_name(), "PlusEquals");
    assert_eq!(EguiKeyWrap::new(EguiKey::Delete).into_code(), KeyCode::Delete);
    assert_eq!(EguiKeyWrap::new(EguiKey::Delete).into_name(), "Delete");
    assert_eq!(EguiKeyWrap::new(EguiKey::Num3).into_code(), KeyCode::Digit3);
    assert_eq!(EguiKeyWrap::new(EguiKey::Num3).into_name(), "Num3");
    assert_eq!(EguiKeyWrap::new(EguiKey::Num7).into_name(), "Num7");
    assert_eq!(EguiKeyWrap::new(EguiKey::Escape).into_name(), "Escape");
    assert_eq!(EguiKeyWrap::new(EguiKey::F20).into_name(), "F20");
    assert_eq!(
        StringCodeWrap::string_to_code(EguiKeyWrap::new(EguiKey::Num3).into_name()),
        KeyCode::Numpad3
    );
    assert_eq!(
        StringCodeWrap::string_to_code(EguiKeyWrap::new(EguiKey::Delete).into_name()),
        KeyCode::Delete
    );
    assert_eq!(EguiKeyWrap::new(EguiKey::F20).into_code(), KeyCode::F20);
}

#[test]
fn padding_never_changes_the_code() {
    for s in ["KeyF", "Escape", "Foo", "", " KeyZ"] {
        let plain = StringCodeWrap::string_to_code(s.to_string());
        assert_eq!(StringCodeWrap::string_to_code(format!(" {}\t", s)), plain);
        assert_eq!(StringCodeWrap::string_to_code(format!("\u{3000}{}\n\n", s)), plain);
        assert_eq!(StringCodeWrap::string_to_code(s.trim().to_string()), plain);
    }
}
