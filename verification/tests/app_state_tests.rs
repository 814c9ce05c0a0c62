use global_hotkey::hotkey::{Code, HotKey, Modifiers};
use image::DynamicImage;

use drag_capture::app_state::{
    pressed_hotkey_text, save_file_name, type_key, DragApp, HotkeyCommand, PressedModifiers,
    ScreenButton, TypedKey, WindowMode,
};
use drag_capture::config::{binding_from_parts, HotkeyError, HOTKEY_INITIAL};
use drag_capture::text::split_text;
use drag_capture::geometry::{rect_outline, RectOutline};
use drag_capture::hotkey_action::HotkeyAction;
use drag_capture::keys::{EguiKey, KeyCode, Modifier};

fn img(w: u32) -> DynamicImage {
    DynamicImage::new_rgba8(w, 1)
}

fn app() -> DragApp {
    DragApp::new("2023_01_01_00_00_00".to_string(), "/home/me/Pictures".to_string())
}

fn no_modifiers() -> PressedModifiers {
    PressedModifiers { alt: false, ctrl: false, shift: false, mac_cmd: false, command: false }
}

#[test]
fn new_app_starts_on_first_screen() {
    let a = app();
    assert_eq!(a.delay_timer, 0);
    assert_eq!(a.mode, WindowMode::Initial);
    assert_eq!(a.current_format, ".png");
    assert_eq!(a.current_path, "/home/me/Pictures");
    assert_eq!(a.changing_hotkey, vec![false; 7]);
    assert!(a.image_history.is_empty());
    assert!(a.hotkeys_enabled);
    assert!(!a.hotkey_created);
}

#[test]
fn delay_timer_cycles() {
    let mut a = app();
    let mut seen = Vec::new();
    for _ in 0..5 {
        a.switch_delay_timer();
        seen.push(a.delay_timer);
    }
    assert_eq!(seen, vec![1, 3, 5, 0, 1]);
    a.delay_timer = 2;
    a.switch_delay_timer();
    assert_eq!(a.delay_timer, 2);
}

#[test]
fn screenshot_edit_undo_and_reset() {
    let mut a = app();
    a.store_screenshot(img(1));
    assert_eq!(a.mode, WindowMode::Taken);
    assert_eq!(a.image_history.len(), 1);
    // an edit: the copy is saved, then the new drawing becomes the copy
    a.save_image_history();
    a.image = img(2);
    a.image_back = img(2);
    assert_eq!(a.image_history.len(), 2);
    a.save_image_history();
    a.image = img(3);
    a.image_back = img(3);
    a.undo_image_modify();
    assert_eq!(a.image, img(2));
    assert_eq!(a.image_back, img(2));
    assert_eq!(a.image_history.len(), 2);
    a.reset_image_history();
    assert_eq!(a.image, img(1));
    assert_eq!(a.image_back, img(1));
    assert_eq!(a.image_history.len(), 1);
    // a single image is never undone
    a.undo_image_modify();
    assert_eq!(a.image, img(1));
    assert_eq!(a.image_history.len(), 1);
}

#[test]
fn undo_does_nothing_off_the_screenshot_screen() {
    let mut a = app();
    a.store_screenshot(img(1));
    a.save_image_history();
    a.mode = WindowMode::Saving;
    a.image = img(5);
    a.undo_image_modify();
    assert_eq!(a.image, img(5));
    assert_eq!(a.image_history.len(), 2);
}

#[test]
fn text_is_typed_and_placed() {
    let mut text = String::new();
    assert_eq!(type_key(&mut text, TypedKey::Symbol('H')), None);
    assert_eq!(type_key(&mut text, TypedKey::Symbol('I')), None);
    assert_eq!(type_key(&mut text, TypedKey::Space), None);
    assert_eq!(type_key(&mut text, TypedKey::Symbol('X')), None);
    assert_eq!(type_key(&mut text, TypedKey::Backspace), None);
    assert_eq!(text, "HI ");
    assert_eq!(type_key(&mut text, TypedKey::Enter), Some("HI ".to_string()));
    assert_eq!(text, "");
    assert_eq!(type_key(&mut text, TypedKey::Backspace), None);
    assert_eq!(text, "");

    let mut a = app();
    a.store_screenshot(img(1));
    a.place_text("HI", img(2));
    assert_eq!(a.image, img(2));
    assert_eq!(a.image_history.len(), 2);
    a.place_text("", img(3));
    assert_eq!(a.image_back, img(3));
    assert_eq!(a.image_history.len(), 2);
    assert!(a.edits_undoable(false, false, false));
    assert!(!a.edits_undoable(false, true, false));
}

#[test]
fn save_file_names() {
    assert_eq!(save_file_name(".png", "/tmp/", "shot"), Some("/tmp//shot.png".to_string()));
    assert_eq!(save_file_name(".jpg", "/tmp", "a"), Some("/tmp/a.jpg".to_string()));
    assert_eq!(save_file_name(".gif", "", "a"), Some("/a.gif".to_string()));
    assert_eq!(save_file_name(".bmp", "/tmp", "a"), None);
}

#[test]
fn save_form_steps() {
    let mut a = app();
    a.current_path = String::new();
    assert_eq!(a.prepare_save_path(), None);
    assert_eq!(a.save_errors, (true, false, false));
    a.current_path = "  /home/me \t".to_string();
    assert_eq!(a.prepare_save_path(), Some("/home/me".to_string()));
    assert_eq!(a.current_path, "/home/me/");
    assert_eq!(a.save_errors, (false, false, false));
    a.current_path = "/srv/".to_string();
    assert_eq!(a.prepare_save_path(), Some("/srv/".to_string()));
    assert_eq!(a.current_path, "/srv/");
    assert!(!a.check_save_target(false, false, false));
    assert_eq!(a.save_errors, (false, true, false));
    assert!(!a.check_save_target(true, false, true));
    assert_eq!(a.save_errors, (false, true, true));
    assert!(a.check_save_target(true, true, false));
    a.finish_save(true);
    assert_eq!(a.mode, WindowMode::Saved);
    a.finish_save(false);
    assert_eq!(a.mode, WindowMode::ErrorMode);
}

#[test]
fn pressed_hotkeys_are_written() {
    let mut m = no_modifiers();
    assert_eq!(pressed_hotkey_text(m, EguiKey::A), "KeyA");
    m.ctrl = true;
    m.command = true;
    assert_eq!(pressed_hotkey_text(m, EguiKey::F5), "CONTROL + F5");
    m.shift = true;
    m.alt = true;
    assert_eq!(pressed_hotkey_text(m, EguiKey::Delete), "ALT + Delete");
    let cmd = PressedModifiers { alt: false, ctrl: false, shift: false, mac_cmd: true, command: false };
    assert_eq!(pressed_hotkey_text(cmd, EguiKey::Num1), "COMMAND + Num1");
}

#[test]
fn hotkeys_load_and_command() {
    let mut a = app();
    let (strings, map) = a.load_hotkey_map(HOTKEY_INITIAL).unwrap();
    assert!(a.hotkey_created);
    assert_eq!(strings.len(), 7);
    a.hotkeys_strings = strings;
    a.hotkey_map = map;
    let screenshot = HotKey::new(Some(Modifiers::ALT), Code::KeyF).id();
    let copy = HotKey::new(Some(Modifiers::ALT), Code::KeyC).id();
    let quit = HotKey::new(Some(Modifiers::ALT), Code::Escape).id();
    assert_eq!(a.hotkey_command(screenshot), HotkeyCommand::ResetAndTakeScreenshot);
    assert_eq!(a.hotkey_command(copy), HotkeyCommand::Nothing);
    assert_eq!(a.hotkey_command(quit), HotkeyCommand::Quit);
    let delay = HotKey::new(Some(Modifiers::ALT), Code::KeyT).id();
    assert_eq!(a.hotkey_command(delay), HotkeyCommand::Nothing);
    a.mode = WindowMode::Taken;
    assert_eq!(a.hotkey_command(delay), HotkeyCommand::SwitchDelay);
    assert_eq!(a.hotkey_command(copy), HotkeyCommand::CopyClipboard);
    a.mode = WindowMode::Saving;
    assert_eq!(a.hotkey_command(screenshot), HotkeyCommand::Nothing);
    a.hotkeys_enabled = false;
    assert_eq!(a.hotkey_command(quit), HotkeyCommand::Nothing);
    let mut b = app();
    assert!(b.load_hotkey_map("9;KeyF").is_none());
    assert!(!b.hotkey_created);
}

#[test]
fn hotkey_change_is_confirmed() {
    let mut a = app();
    let (strings, map) = a.load_hotkey_map(HOTKEY_INITIAL).unwrap();
    a.hotkeys_strings = strings;
    a.hotkey_map = map;
    a.hotkey_ui_status = true;
    a.changing_hotkey[2] = true;
    let pressed = PressedModifiers { alt: false, ctrl: true, shift: false, mac_cmd: false, command: false };
    let rb = a.finish_hotkey_change(Some((pressed, EguiKey::D))).unwrap().unwrap();
    assert_eq!(rb.old_hotkey, (Some(Modifier::Alt), KeyCode::KeyT));
    assert_eq!(rb.new_hotkey, (Some(Modifier::Control), KeyCode::KeyD));
    assert_eq!(a.hotkeys_strings[2], "CONTROL + KeyD");
    assert!(rb.config_text.contains("2;CONTROL + KeyD\n"));
    assert!(!a.hotkey_ui_status);
    assert_eq!(a.changing_hotkey, vec![false; 7]);
    let id = HotKey::new(Some(Modifiers::CONTROL), Code::KeyD).id();
    assert_eq!(a.hotkey_map.get(&id).map(|e| e.1), Some(HotkeyAction::SwitchDelay));

    a.hotkey_ui_status = true;
    a.changing_hotkey[4] = true;
    assert!(a.finish_hotkey_change(None).unwrap().is_none());
    assert!(!a.hotkey_ui_status);
    assert_eq!(a.hotkeys_strings[4], "ALT + KeyS");
}

#[test]
fn hotkey_change_of_an_unknown_hotkey_fails() {
    let mut a = app();
    a.hotkeys_strings = vec!["ALT + KeyF".to_string()];
    a.changing_hotkey = vec![true];
    let err = a.finish_hotkey_change(Some((no_modifiers(), EguiKey::B))).unwrap_err();
    assert_eq!(err, HotkeyError::UnknownHotkey);
    assert_eq!(a.hotkeys_strings[0], "ALT + KeyF");
    assert_eq!(a.changing_hotkey, vec![true]);
}

#[test]
fn rectangle_outlines() {
    assert_eq!(rect_outline(10, 20, 4, 2), RectOutline::Frame { x: 4, y: 2, width: 6, height: 18 });
    assert_eq!(rect_outline(4, 2, 10, 20), rect_outline(10, 20, 4, 2));
    assert_eq!(rect_outline(-5, 3, 7, 3), RectOutline::Segment { x0: 0, y0: 3, x1: 7, y1: 3 });
    assert_eq!(rect_outline(-5, -8, -1, 9), RectOutline::Segment { x0: 0, y0: 0, x1: 0, y1: 9 });
    assert_eq!(rect_outline(-5, -8, 3, 9), RectOutline::Frame { x: 0, y: 0, width: 3, height: 9 });
}

#[test]
fn update_hotkey_map_rebinds_the_state_table() {
    let mut a = app();
    let (strings, map) = a.load_hotkey_map(HOTKEY_INITIAL).unwrap();
    a.hotkeys_strings = strings;
    a.hotkey_map = map;
    let rb = a
        .update_hotkey_map(vec!["KeyP".to_string()], vec!["ALT".to_string(), "KeyS".to_string()])
        .unwrap();
    assert_eq!(rb.new_hotkey, (None, KeyCode::KeyP));
    assert!(rb.config_text.contains("4;KeyP\n"));
    let id = HotKey::new(None, Code::KeyP).id();
    assert_eq!(a.hotkey_map.get(&id).map(|e| e.1), Some(HotkeyAction::FastSave));
    assert_eq!(a.hotkey_map.len(), 7);
    let err = a.update_hotkey_map(vec!["KeyP".to_string()], vec!["ALT".to_string(), "KeyS".to_string()]);
    assert_eq!(err.err(), Some(HotkeyError::UnknownHotkey));
}

#[test]
fn going_back_to_the_first_image_twice_is_going_back_once() {
    let mut a = app();
    a.store_screenshot(img(1));
    a.save_image_history();
    a.image_back = img(2);
    a.save_image_history();
    a.reset_image_history();
    let first = (a.image.clone(), a.image_back.clone(), a.image_history.clone());
    a.reset_image_history();
    assert_eq!((a.image.clone(), a.image_back.clone(), a.image_history.clone()), first);
    assert_eq!(a.image, img(1));
}

#[test]
fn confirmed_text_reads_back_as_the_pressed_hotkey() {
    let shift = PressedModifiers { alt: false, ctrl: true, shift: true, mac_cmd: false, command: false };
    let text = pressed_hotkey_text(shift, EguiKey::F7);
    assert_eq!(binding_from_parts(&split_text(&text, " + ")), Some((Some(Modifier::Shift), KeyCode::F7)));
    let cmd = PressedModifiers { alt: false, ctrl: false, shift: false, mac_cmd: false, command: true };
    let text = pressed_hotkey_text(cmd, EguiKey::A);
    assert_eq!(binding_from_parts(&split_text(&text, " + ")), Some((Some(Modifier::Empty), KeyCode::KeyA)));
    let text = pressed_hotkey_text(no_modifiers(), EguiKey::Num4);
    assert_eq!(binding_from_parts(&split_text(&text, " + ")), Some((None, KeyCode::Numpad4)));
}

#[test]
fn reset_goes_back_to_the_latest_screenshot() {
    let mut a = app();
    a.reset_image_history();
    assert!(a.image_history.is_empty());
    a.store_screenshot(img(1));
    a.save_image_history();
    a.image_back = img(2);
    a.mode = WindowMode::Initial;
    a.store_screenshot(img(7));
    assert_eq!(a.image_history.len(), 1);
    a.save_image_history();
    a.image = img(8);
    a.image_back = img(8);
    a.reset_image_history();
    assert_eq!(a.image, img(7));
    assert_eq!(a.image_back, img(7));
    assert_eq!(a.image_history.len(), 1);
}

#[test]
fn buttons_move_between_screens() {
    let mut a = app();
    a.press_button(ScreenButton::Save);
    assert_eq!(a.mode, WindowMode::Initial);
    a.press_button(ScreenButton::CustomizeHotkeys);
    assert_eq!(a.mode, WindowMode::ChangeHotkeys);
    a.hotkeys_enabled = false;
    a.press_button(ScreenButton::Back);
    assert_eq!(a.mode, WindowMode::Initial);
    assert!(a.hotkeys_enabled);
    a.mode = WindowMode::Taken;
    a.press_button(ScreenButton::Save);
    assert_eq!(a.mode, WindowMode::Saving);
    a.press_button(ScreenButton::Back);
    assert_eq!(a.mode, WindowMode::Taken);
    a.press_button(ScreenButton::Back);
    assert_eq!(a.mode, WindowMode::Initial);
    a.mode = WindowMode::ErrorMode;
    a.press_button(ScreenButton::Home);
    assert_eq!(a.mode, WindowMode::Initial);
}
