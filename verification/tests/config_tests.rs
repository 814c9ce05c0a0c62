use global_hotkey::hotkey::{Code, HotKey, Modifiers};

use drag_capture::config::{
    binding_from_parts, hotkey_map_from_config, hotkey_text, parse_hotkey_config,
    parse_hotkey_line, rebind_hotkey, render_hotkey_config, HotkeyBinding, HotkeyError, HotkeyMap,
    HOTKEY_INITIAL,
};
use drag_capture::hotkey_action::HotkeyAction;
use drag_capture::keys::{KeyCode, Modifier};

fn parts(v: &[&str]) -> Vec<String> {
    v.iter().map(|s| s.to_string()).collect()
}

fn initial_map() -> HotkeyMap {
    hotkey_map_from_config(HOTKEY_INITIAL).expect("the initial configuration is read").1
}

#[test]
fn initial_configuration_is_read() {
    let lines = parse_hotkey_config(HOTKEY_INITIAL).expect("every line is read");
    assert_eq!(lines.len(), 7);
    let expected = [
        (HotkeyAction::TakeScreenshot, "ALT + KeyF", KeyCode::KeyF),
        (HotkeyAction::Quit, "ALT + Escape", KeyCode::Escape),
        (HotkeyAction::SwitchDelay, "ALT + KeyT", KeyCode::KeyT),
        (HotkeyAction::CopyClipboard, "ALT + KeyC", KeyCode::KeyC),
        (HotkeyAction::FastSave, "ALT + KeyS", KeyCode::KeyS),
        (HotkeyAction::Undo, "ALT + KeyZ", KeyCode::KeyZ),
        (HotkeyAction::ResetImage, "ALT + KeyR", KeyCode::KeyR),
    ];
    for (line, (action, text, code)) in lines.iter().zip(expected.iter()) {
        assert_eq!(line.action, *action);
        assert_eq!(line.hotkey, *text);
        assert_eq!(line.binding, (Some(Modifier::Alt), *code));
    }
}

#[test]
fn initial_table_is_keyed_by_global_hotkey_ids() {
    let (strings, map) = hotkey_map_from_config(HOTKEY_INITIAL).unwrap();
    assert_eq!(
        strings,
        parts(&["ALT + KeyF", "ALT + Escape", "ALT + KeyT", "ALT + KeyC", "ALT + KeyS", "ALT + KeyZ", "ALT + KeyR"])
    );
    assert_eq!(map.len(), 7);
    let id = HotKey::new(Some(Modifiers::ALT), Code::KeyF).id();
    assert_eq!(map.get(&id), Some(&((Some(Modifier::Alt), KeyCode::KeyF), HotkeyAction::TakeScreenshot)));
    let id = HotKey::new(Some(Modifiers::ALT), Code::Escape).id();
    assert_eq!(map.get(&id), Some(&((Some(Modifier::Alt), KeyCode::Escape), HotkeyAction::Quit)));
}

#[test]
fn lines_without_modifier_and_bad_lines() {
    let line = parse_hotkey_line("3;KeyC").unwrap();
    assert_eq!(line.action, HotkeyAction::CopyClipboard);
    assert_eq!(line.binding, (None, KeyCode::KeyC));
    assert!(parse_hotkey_line("3").is_none());
    assert!(parse_hotkey_line("x;KeyC").is_none());
    assert!(parse_hotkey_line("7;KeyC").is_none());
    assert!(parse_hotkey_line("1;ALT + SHIFT + KeyC").is_none());
    let odd = parse_hotkey_line("+2;COMMAND + Foo").unwrap();
    assert_eq!(odd.action, HotkeyAction::SwitchDelay);
    assert_eq!(odd.binding, (Some(Modifier::Empty), KeyCode::Enter));
    assert!(parse_hotkey_config("0;KeyF\n").is_none());
    assert!(parse_hotkey_config("").is_none());
}

#[test]
fn parts_to_binding() {
    assert_eq!(binding_from_parts(&parts(&["KeyF"])), Some((None, KeyCode::KeyF)));
    assert_eq!(
        binding_from_parts(&parts(&["SHIFT", " KeyF "])),
        Some((Some(Modifier::Shift), KeyCode::KeyF))
    );
    assert_eq!(binding_from_parts(&parts(&[])), None);
    assert_eq!(binding_from_parts(&parts(&["A", "B", "C"])), None);
}

#[test]
fn hotkey_texts_use_debug_names() {
    assert_eq!(hotkey_text(&(Some(Modifier::Alt), KeyCode::KeyF)), "ALT + KeyF");
    assert_eq!(hotkey_text(&(None, KeyCode::Equal)), "Equal");
    assert_eq!(hotkey_text(&(Some(Modifier::Empty), KeyCode::Numpad1)), "(empty) + Numpad1");
}

#[test]
fn initial_table_renders_back_to_initial_configuration() {
    let map = initial_map();
    assert_eq!(render_hotkey_config(&map), HOTKEY_INITIAL);
}

#[test]
fn rebinding_rewrites_the_configuration() {
    let mut map = initial_map();
    let rb = rebind_hotkey(&mut map, &parts(&["SHIFT", "KeyG"]), &parts(&["ALT", "KeyF"])).unwrap();
    assert_eq!(rb.old_hotkey, (Some(Modifier::Alt), KeyCode::KeyF));
    assert_eq!(rb.new_hotkey, (Some(Modifier::Shift), KeyCode::KeyG));
    assert_eq!(
        rb.config_text,
        "0;SHIFT + KeyG\n1;ALT + Escape\n2;ALT + KeyT\n3;ALT + KeyC\n4;ALT + KeyS\n5;ALT + KeyZ\n6;ALT + KeyR"
    );
    assert_eq!(map.len(), 7);
    assert!(!map.contains_key(&HotKey::new(Some(Modifiers::ALT), Code::KeyF).id()));
    let new_id = HotKey::new(Some(Modifiers::SHIFT), Code::KeyG).id();
    assert_eq!(map.get(&new_id), Some(&((Some(Modifier::Shift), KeyCode::KeyG), HotkeyAction::TakeScreenshot)));
}

#[test]
fn written_configuration_reads_back_as_the_table() {
    let mut map = initial_map();
    let rb = rebind_hotkey(&mut map, &parts(&["KeyQ"]), &parts(&["ALT", "KeyZ"])).unwrap();
    let (strings, back) = hotkey_map_from_config(&rb.config_text).unwrap();
    assert_eq!(back, map);
    assert_eq!(strings[5], "KeyQ");
}

#[test]
fn renamed_key_is_not_read_back() {
    let mut map = initial_map();
    let rb = rebind_hotkey(&mut map, &parts(&["ALT", "PlusEquals"]), &parts(&["ALT", "KeyR"])).unwrap();
    assert_eq!(rb.new_hotkey, (Some(Modifier::Alt), KeyCode::Equal));
    assert!(rb.config_text.ends_with("6;ALT + Equal"));
    let (_, back) = hotkey_map_from_config(&rb.config_text).unwrap();
    let read: Vec<HotkeyBinding> = back.values().map(|v| v.0).collect();
    assert!(read.contains(&(Some(Modifier::Alt), KeyCode::Enter)));
    assert!(!read.contains(&(Some(Modifier::Alt), KeyCode::Equal)));
}

#[test]
fn rebinding_errors_leave_the_table() {
    let mut map = initial_map();
    let before = map.clone();
    assert_eq!(rebind_hotkey(&mut map, &parts(&["KeyG"]), &parts(&[])).err(), Some(HotkeyError::EmptyHotkey));
    assert_eq!(
        rebind_hotkey(&mut map, &parts(&["KeyG"]), &parts(&["ALT", "SHIFT", "KeyF"])).err(),
        Some(HotkeyError::TooManyKeys)
    );
    assert_eq!(
        rebind_hotkey(&mut map, &parts(&["KeyG"]), &parts(&["SHIFT", "KeyF"])).err(),
        Some(HotkeyError::UnknownHotkey)
    );
    assert_eq!(
        rebind_hotkey(&mut map, &parts(&[]), &parts(&["ALT", "KeyF"])).err(),
        Some(HotkeyError::EmptyHotkey)
    );
    assert_eq!(
        rebind_hotkey(&mut map, &parts(&["A", "B", "C"]), &parts(&["ALT", "KeyF"])).err(),
        Some(HotkeyError::TooManyKeys)
    );
    assert_eq!(map, before);
}

#[test]
fn ids_ignore_modifiers_that_global_hotkey_leaves_out() {
    let (_, map) = hotkey_map_from_config("0;CAPS_LOCK + KeyF\n1;META + KeyG\n2;NUM_LOCK + KeyH").unwrap();
    assert_eq!(map.len(), 3);
    assert!(map.contains_key(&HotKey::new(None, Code::KeyF).id()));
    assert!(map.contains_key(&HotKey::new(Some(Modifiers::SUPER), Code::KeyG).id()));
    assert!(map.contains_key(&HotKey::new(Some(Modifiers::empty()), Code::KeyH).id()));
    let (_, clash) = hotkey_map_from_config("0;CAPS_LOCK + KeyF\n1;KeyF").unwrap();
    assert_eq!(clash.len(), 1);
    assert_eq!(clash.values().next().unwrap().1, HotkeyAction::Quit);
}

#[test]
fn every_line_but_the_last_ends_with_a_line_break() {
    let (_, map) = hotkey_map_from_config("1;ALT + Escape\n2;KeyT").unwrap();
    let text = render_hotkey_config(&map);
    assert_eq!(text, "1;ALT + Escape\n2;KeyT");
    let (_, back) = hotkey_map_from_config(&text).unwrap();
    assert_eq!(back, map);
    let (_, map) = hotkey_map_from_config("0;KeyA\n5;KeyB").unwrap();
    assert_eq!(render_hotkey_config(&map), "0;KeyA\n5;KeyB");
}
