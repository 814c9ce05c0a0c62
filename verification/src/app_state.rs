//! The state of the screenshot window without its drawing: the screen it shows, the
//! screenshot and its edit history, the delay timer, the save form and the hotkeys.

use std::collections::{HashMap, VecDeque};

use image::DynamicImage;
use vstd::prelude::*;

use crate::config::{
    binding_of_parts, binding_of_text, hotkey_map_from_config, map_of_lines, parse_config,
    rebind_error, rebind_hotkey, rebound, writes_table, HotkeyBinding, HotkeyError, HotkeyMap,
    Rebinding,
};
use crate::config_laws::{lacks, lemma_plain_name_lacks};
use crate::hotkey_action::HotkeyAction;
use crate::keys::{
    egui_key_name, egui_name_code, lemma_egui_key_name_plain,
    lemma_egui_name_read_back, lemma_plain_name_trimmed, modifier_of_name, EguiKey, EguiKeyWrap,
    Modifier,
};
use crate::text::{lemma_split_first, lemma_split_whole, split, split_text, texts, trim, trimmed};

verus! {

/// `image::DynamicImage`, carried through the state as an opaque value.
#[verifier::external_type_specification]
#[verifier::external_body]
pub struct ExDynamicImage(DynamicImage);

/// `DynamicImage::clone` copies the image: the copy is equal to the image it was made from.
pub assume_specification[ <DynamicImage as Clone>::clone ](image: &DynamicImage) -> (r:
    DynamicImage)
    ensures
        r == *image,
;

/// `DynamicImage::default` gives an empty image; nothing is stated of it.
pub assume_specification[ <DynamicImage as Default>::default ]() -> DynamicImage;

/// The screen that the window shows.
#[derive(Clone, Copy, Debug, PartialEq, Eq, Structural)]
pub enum WindowMode {
    Initial,
    Taken,
    Saving,
    Saved,
    ErrorMode,
    ChangeHotkeys,
}

/// What a pressed global hotkey asks the window to do.
#[derive(Clone, Copy, Debug, PartialEq, Eq, Structural)]
pub enum HotkeyCommand {
    /// Nothing, in the current state.
    Nothing,
    /// Go back to the first screenshot, then take a new one.
    ResetAndTakeScreenshot,
    /// End the program.
    Quit,
    /// Move the delay timer on.
    SwitchDelay,
    /// Copy the screenshot to the clipboard.
    CopyClipboard,
    /// Go back to the first screenshot, then save it under the current name.
    ResetAndSave,
    /// Undo the last edit.
    Undo,
    /// Go back to the first screenshot.
    ResetImage,
}

/// The modifier keys held while a new hotkey is confirmed.
#[derive(Clone, Copy, Debug, PartialEq, Eq, Structural)]
pub struct PressedModifiers {
    pub alt: bool,
    pub ctrl: bool,
    pub shift: bool,
    pub mac_cmd: bool,
    pub command: bool,
}

/// The window's state.
pub struct DragApp {
    /// Seconds to wait before a screenshot is taken.
    pub delay_timer: u32,
    /// The monitor that is captured.
    pub selected_monitor: u32,
    /// The screen shown.
    pub mode: WindowMode,
    /// The image shown, with a drawing under way on it.
    pub image: DynamicImage,
    /// The image that drawings start from.
    pub image_back: DynamicImage,
    /// The images before each edit, the most recent first, the screenshot last.
    pub image_history: VecDeque<DynamicImage>,
    /// The file name to save under, without extension.
    pub current_name: String,
    /// The directory to save in.
    pub current_path: String,
    /// The extension to save with.
    pub current_format: String,
    /// The width at which the image is shown.
    pub current_width: i32,
    /// The height at which the image is shown.
    pub current_height: i32,
    /// The save form's errors: no path, a path that does not exist, a path that is no directory.
    pub save_errors: (bool, bool, bool),
    /// The hotkey texts, in the order of the configuration's lines.
    pub hotkeys_strings: Vec<String>,
    /// Whether a hotkey is being changed.
    pub hotkey_ui_status: bool,
    /// For each action, whether its hotkey is the one being changed.
    pub changing_hotkey: Vec<bool>,
    /// The hotkeys in force.
    pub hotkey_map: HotkeyMap,
    /// Whether the hotkeys have been read and registered.
    pub hotkey_created: bool,
    /// Whether pressed hotkeys are acted on.
    pub hotkeys_enabled: bool,
}

/// The delay, in seconds, that follows `d` in the cycle 0, 1, 3, 5; any other value stays.
pub open spec fn next_delay(d: u32) -> u32 {
    if d == 0 {
        1
    } else if d == 1 {
        3
    } else if d == 3 {
        5
    } else if d == 5 {
        0
    } else {
        d
    }
}

/// What a hotkey bound to `action` asks for, with hotkeys enabled or not, on screen `mode`.
pub open spec fn command_for(enabled: bool, mode: WindowMode, action: HotkeyAction) -> HotkeyCommand {
    if !enabled {
        HotkeyCommand::Nothing
    } else {
        match action {
            HotkeyAction::TakeScreenshot => if mode != WindowMode::Saving {
                HotkeyCommand::ResetAndTakeScreenshot
            } else {
                HotkeyCommand::Nothing
            },
            HotkeyAction::Quit => HotkeyCommand::Quit,
            HotkeyAction::SwitchDelay => if mode == WindowMode::Taken {
                HotkeyCommand::SwitchDelay
            } else {
                HotkeyCommand::Nothing
            },
            HotkeyAction::CopyClipboard => if mode == WindowMode::Taken {
                HotkeyCommand::CopyClipboard
            } else {
                HotkeyCommand::Nothing
            },
            HotkeyAction::FastSave => if mode == WindowMode::Taken {
                HotkeyCommand::ResetAndSave
            } else {
                HotkeyCommand::Nothing
            },
            HotkeyAction::Undo => if mode == WindowMode::Taken {
                HotkeyCommand::Undo
            } else {
                HotkeyCommand::Nothing
            },
            HotkeyAction::ResetImage => if mode == WindowMode::Taken {
                HotkeyCommand::ResetImage
            } else {
                HotkeyCommand::Nothing
            },
        }
    }
}

/// The text that a confirmed hotkey is written as: the modifier that wins (alt over shift
/// over control over command) and the key's name.
pub open spec fn pressed_text(m: PressedModifiers, key: EguiKey) -> Seq<char> {
    let prefix = if m.alt {
        "ALT + "@
    } else if m.shift {
        "SHIFT + "@
    } else if m.ctrl {
        "CONTROL + "@
    } else if m.command || m.mac_cmd {
        "COMMAND + "@
    } else {
        seq![]
    };
    prefix + egui_key_name(key)
}

/// The modifier that a confirmed hotkey text names: the one that wins among those held,
/// where `COMMAND`, which `global_hotkey` has no name for, is read as the empty set.
pub open spec fn pressed_modifier(m: PressedModifiers) -> Option<Modifier> {
    if m.alt {
        Some(Modifier::Alt)
    } else if m.shift {
        Some(Modifier::Shift)
    } else if m.ctrl {
        Some(Modifier::Control)
    } else if m.command || m.mac_cmd {
        Some(Modifier::Empty)
    } else {
        None
    }
}

/// A word free of spaces, `" + "` and a name free of spaces are cut back into the two.
proof fn lemma_prefixed_split(w: Seq<char>, name: Seq<char>)
    requires
        lacks(w, ' '),
        lacks(name, ' '),
    ensures
        split(w + " + "@ + name, " + "@) == seq![w, name],
{
    reveal_strlit(" + ");
    lemma_split_whole(name, " + "@);
    lemma_split_first(w, " + "@, name);
}

/// The text written for a confirmed hotkey is read back as the winning modifier and the
/// code of the pressed key; a digit is read back as the keypad's digit.
pub proof fn lemma_pressed_text_read_back(m: PressedModifiers, key: EguiKey)
    ensures
        binding_of_text(pressed_text(m, key)) == Some((pressed_modifier(m), egui_name_code(key))),
{
    reveal_strlit(" + ");
    reveal_strlit("ALT + ");
    reveal_strlit("SHIFT + ");
    reveal_strlit("CONTROL + ");
    reveal_strlit("COMMAND + ");
    reveal_strlit("ALT");
    reveal_strlit("SHIFT");
    reveal_strlit("CONTROL");
    reveal_strlit("COMMAND");
    let name = egui_key_name(key);
    lemma_egui_key_name_plain(key);
    lemma_plain_name_lacks(name);
    lemma_plain_name_trimmed(name);
    lemma_egui_name_read_back(key);
    let t = pressed_text(m, key);
    if m.alt {
        assert(t =~= "ALT"@ + " + "@ + name);
        lemma_prefixed_split("ALT"@, name);
    } else if m.shift {
        assert(t =~= "SHIFT"@ + " + "@ + name);
        lemma_prefixed_split("SHIFT"@, name);
    } else if m.ctrl {
        assert(t =~= "CONTROL"@ + " + "@ + name);
        lemma_prefixed_split("CONTROL"@, name);
    } else if m.command || m.mac_cmd {
        assert(t =~= "COMMAND"@ + " + "@ + name);
        lemma_prefixed_split("COMMAND"@, name);
        reveal_strlit("ALT_GRAPH");
        reveal_strlit("CAPS_LOCK");
        reveal_strlit("FN");
        reveal_strlit("SYMBOL");
        reveal_strlit("HYPER");
        reveal_strlit("META");
        reveal_strlit("NUM_LOCK");
        reveal_strlit("SCROLL_LOCK");
        reveal_strlit("SUPER");
        reveal_strlit("SYMBOL_LOCK");
        assert("COMMAND"@[2] != "CONTROL"@[2]);
        assert("COMMAND"@.len() == 7);
        assert(modifier_of_name("COMMAND"@) == Modifier::Empty);
    } else {
        assert(t =~= name);
        lemma_split_whole(name, " + "@);
    }
}

/// The first position of a `true`, if any.
pub open spec fn first_true(v: Seq<bool>) -> Option<int> {
    if exists|i: int| 0 <= i < v.len() && v[i] {
        Some(choose|i: int| 0 <= i < v.len() && v[i] && forall|j: int| 0 <= j < i ==> !v[j])
    } else {
        None
    }
}

/// Whether `a` and `b` agree on everything but the screenshot, its copies and history,
/// the screen and the delay.
pub open spec fn same_settings(a: &DragApp, b: &DragApp) -> bool {
    &&& same_form(a, b)
    &&& texts(a.hotkeys_strings@) == texts(b.hotkeys_strings@)
    &&& a.hotkey_ui_status == b.hotkey_ui_status
    &&& a.changing_hotkey@ == b.changing_hotkey@
    &&& a.hotkey_map@ == b.hotkey_map@
    &&& a.hotkey_created == b.hotkey_created
}

/// Whether `a` and `b` agree on the hotkeys: their texts, the change under way, the table
/// and whether they are registered and acted on.
pub open spec fn same_hotkeys(a: &DragApp, b: &DragApp) -> bool {
    &&& texts(a.hotkeys_strings@) == texts(b.hotkeys_strings@)
    &&& a.changing_hotkey@ == b.changing_hotkey@
    &&& a.hotkey_ui_status == b.hotkey_ui_status
    &&& a.hotkey_map@ == b.hotkey_map@
    &&& a.hotkey_created == b.hotkey_created
    &&& a.hotkeys_enabled == b.hotkeys_enabled
}

/// Whether `a` and `b` agree on the monitor, the save form, the shown size and whether
/// hotkeys are acted on.
pub open spec fn same_form(a: &DragApp, b: &DragApp) -> bool {
    &&& a.selected_monitor == b.selected_monitor
    &&& a.current_name@ == b.current_name@
    &&& a.current_path@ == b.current_path@
    &&& a.current_format@ == b.current_format@
    &&& a.current_width == b.current_width
    &&& a.current_height == b.current_height
    &&& a.save_errors == b.save_errors
    &&& a.hotkeys_enabled == b.hotkeys_enabled
}

/// Whether `a` and `b` agree on the screenshot, its copies and history, the screen and the delay.
pub open spec fn same_pictures(a: &DragApp, b: &DragApp) -> bool {
    a.pictures() == b.pictures()
}

/// The screenshot side of the window's state: the image shown, the copy that edits are
/// drawn from, the edit history (most recent first), the screen and the delay.
pub struct Pictures {
    pub image: DynamicImage,
    pub image_back: DynamicImage,
    pub history: Seq<DynamicImage>,
    pub mode: WindowMode,
    pub delay_timer: u32,
}

impl DragApp {
    /// The screenshot side of the state.
    pub open spec fn pictures(&self) -> Pictures {
        Pictures {
            image: self.image,
            image_back: self.image_back,
            history: self.image_history@,
            mode: self.mode,
            delay_timer: self.delay_timer,
        }
    }
}

/// A freshly taken screenshot shown: it is the image, its copy and the whole history, so
/// that going back to the first image goes back to it, and the screenshot screen is shown.
pub open spec fn stored(p: Pictures, img: DynamicImage) -> Pictures {
    Pictures {
        image: img,
        image_back: img,
        history: seq![img],
        mode: WindowMode::Taken,
        delay_timer: p.delay_timer,
    }
}

/// The copy that edits are drawn from pushed onto the front of the history.
pub open spec fn saved(p: Pictures) -> Pictures {
    Pictures {
        image: p.image,
        image_back: p.image_back,
        history: seq![p.image_back] + p.history,
        mode: p.mode,
        delay_timer: p.delay_timer,
    }
}

/// On the screenshot screen with more than one image in the history, the most recent one
/// taken off the front and shown; otherwise no change.
pub open spec fn undone(p: Pictures) -> Pictures {
    if p.mode == WindowMode::Taken && p.history.len() > 1 {
        Pictures {
            image: p.history[0],
            image_back: p.history[0],
            history: p.history.drop_first(),
            mode: p.mode,
            delay_timer: p.delay_timer,
        }
    } else {
        p
    }
}

/// Back to the oldest image of the history, the screenshot, which becomes the image, its
/// copy and the whole history; no change while there is no history.
pub open spec fn reset(p: Pictures) -> Pictures {
    if p.history.len() > 0 {
        Pictures {
            image: p.history.last(),
            image_back: p.history.last(),
            history: seq![p.history.last()],
            mode: p.mode,
            delay_timer: p.delay_timer,
        }
    } else {
        p
    }
}

/// The delay moved on in its cycle.
pub open spec fn switched(p: Pictures) -> Pictures {
    Pictures {
        image: p.image,
        image_back: p.image_back,
        history: p.history,
        mode: p.mode,
        delay_timer: next_delay(p.delay_timer),
    }
}

/// Whether `d` is one of the delays of the cycle: 0, 1, 3 or 5 seconds.
pub open spec fn in_delay_cycle(d: u32) -> bool {
    d == 0 || d == 1 || d == 3 || d == 5
}

/// The delay runs through the cycle 0, 1, 3, 5 seconds in increasing order: each of these is
/// followed by the next larger one, 5 by 0, four steps lead back to the start, and any other
/// value stays as it is.
pub proof fn lemma_delay_cycle(d: u32)
    ensures
        (d == 0 || d == 1 || d == 3 || d == 5) ==> {
            let e = next_delay(d);
            &&& e == 0 || e == 1 || e == 3 || e == 5
            &&& e != d
            &&& next_delay(next_delay(next_delay(e))) == d
        },
        !(d == 0 || d == 1 || d == 3 || d == 5) ==> next_delay(d) == d,
        (d == 0 || d == 1 || d == 3) ==> d < next_delay(d) && forall|e: u32|
            #[trigger] in_delay_cycle(e) && d < e ==> next_delay(d) <= e,
        d == 5 ==> next_delay(d) == 0,
{
}

/// Each hotkey action asks for its own command: with hotkeys enabled, Undo, Reset image,
/// Copy to clipboard, Quick save and Switch delay only on the screenshot screen, Quit on
/// every screen, and Take a screenshot on every screen but the save form; with hotkeys
/// disabled nothing is asked for.
pub proof fn lemma_hotkey_commands(enabled: bool, mode: WindowMode, action: HotkeyAction)
    ensures
        !enabled ==> command_for(enabled, mode, action) == HotkeyCommand::Nothing,
        (command_for(enabled, mode, action) == HotkeyCommand::Undo) <==> (enabled && mode
            == WindowMode::Taken && action == HotkeyAction::Undo),
        (command_for(enabled, mode, action) == HotkeyCommand::ResetImage) <==> (enabled && mode
            == WindowMode::Taken && action == HotkeyAction::ResetImage),
        (command_for(enabled, mode, action) == HotkeyCommand::CopyClipboard) <==> (enabled && mode
            == WindowMode::Taken && action == HotkeyAction::CopyClipboard),
        (command_for(enabled, mode, action) == HotkeyCommand::ResetAndSave) <==> (enabled && mode
            == WindowMode::Taken && action == HotkeyAction::FastSave),
        (command_for(enabled, mode, action) == HotkeyCommand::SwitchDelay) <==> (enabled && mode
            == WindowMode::Taken && action == HotkeyAction::SwitchDelay),
        (command_for(enabled, mode, action) == HotkeyCommand::Quit) <==> (enabled && action
            == HotkeyAction::Quit),
        (command_for(enabled, mode, action) == HotkeyCommand::ResetAndTakeScreenshot) <==> (enabled
            && mode != WindowMode::Saving && action == HotkeyAction::TakeScreenshot),
{
}

/// Placing a written text records the copy from before the text, so that undoing right
/// after shows the image as it was before the text and gives back the history as it was;
/// an empty text records nothing. Either way the drawn image is shown and drawn on.
pub proof fn lemma_place_text_undo(p: Pictures, drawn: DynamicImage, nonempty: bool)
    ensures
        placed(p, nonempty, drawn).image == drawn,
        placed(p, nonempty, drawn).image_back == drawn,
        placed(p, nonempty, drawn).mode == p.mode,
        placed(p, nonempty, drawn).delay_timer == p.delay_timer,
        nonempty ==> placed(p, nonempty, drawn).history.len() == p.history.len() + 1
            && placed(p, nonempty, drawn).history[0] == p.image_back
            && placed(p, nonempty, drawn).history.drop_first() == p.history,
        !nonempty ==> placed(p, nonempty, drawn).history == p.history,
        nonempty && p.mode == WindowMode::Taken && p.history.len() > 0 ==> {
            &&& undone(placed(p, nonempty, drawn)).image == p.image_back
            &&& undone(placed(p, nonempty, drawn)).image_back == p.image_back
            &&& undone(placed(p, nonempty, drawn)).history == p.history
        },
{
    if nonempty {
        assert(placed(p, nonempty, drawn).history.drop_first() =~= p.history);
    }
}

/// A known format saves into the chosen directory: the file is the path, a slash, the name
/// and the format as its extension; any other format saves nothing.
pub proof fn lemma_save_file_in_path(format: Seq<char>, path: Seq<char>, filename: Seq<char>)
    ensures
        (save_file(format, path, filename) is Some) <==> (format == ".png"@ || format == ".gif"@
            || format == ".jpg"@),
        save_file(format, path, filename) matches Some(f) ==> f == path + "/"@ + filename + format
            && f.subrange(0, path.len() as int) == path && f.len() == path.len() + 1
            + filename.len() + format.len(),
{
    reveal_strlit("/");
    if save_file(format, path, filename) is Some {
        let f = path + "/"@ + filename + format;
        assert(f.subrange(0, path.len() as int) =~= path);
    }
}

/// Writing the image ends on the saved screen exactly when it succeeded, on the error screen
/// otherwise.
pub proof fn lemma_save_outcome(written: bool)
    ensures
        (save_screen(written) == WindowMode::Saved) <==> written,
        (save_screen(written) == WindowMode::ErrorMode) <==> !written,
{
}

/// Checking the chosen path never touches the first error flag, never clears a flag, and
/// sets the second flag exactly for a path that does not exist and the third exactly for an
/// existing path that is no directory or is a file; nothing is set for a directory.
pub proof fn lemma_checked_errors(e: (bool, bool, bool), exists: bool, is_dir: bool, is_file: bool)
    ensures
        checked_errors(e, exists, is_dir, is_file).0 == e.0,
        checked_errors(e, exists, is_dir, is_file).1 == (e.1 || !exists),
        checked_errors(e, exists, is_dir, is_file).2 == (e.2 || (exists && (!is_dir || is_file))),
{
}

/// Typing adds a symbol or a space at the end, Backspace takes back what was added last,
/// and Enter empties the text.
pub proof fn lemma_typing(text: Seq<char>, c: char)
    ensures
        typed(text, TypedKey::Symbol(c)).len() == text.len() + 1,
        typed(text, TypedKey::Symbol(c)).last() == c,
        typed(typed(text, TypedKey::Symbol(c)), TypedKey::Backspace) == text,
        typed(typed(text, TypedKey::Space), TypedKey::Backspace) == text,
        typed(text, TypedKey::Space).last() == ' ',
        typed(text, TypedKey::Backspace).len() == if text.len() > 0 {
            text.len() - 1
        } else {
            0
        },
        typed(text, TypedKey::Backspace) == text.subrange(0, typed(text, TypedKey::Backspace).len() as int),
        typed(text, TypedKey::Enter).len() == 0,
{
    assert(typed(typed(text, TypedKey::Symbol(c)), TypedKey::Backspace) =~= text);
    assert(typed(typed(text, TypedKey::Space), TypedKey::Backspace) =~= text);
    assert(typed(text, TypedKey::Backspace) =~= text.subrange(0, typed(text, TypedKey::Backspace).len() as int));
}

/// A screenshot just taken is shown on the screenshot screen, is the copy that edits start
/// from, and is the only image of the history; the delay is kept.
pub proof fn lemma_screenshot_shown(p: Pictures, img: DynamicImage)
    ensures
        stored(p, img).image == img,
        stored(p, img).image_back == img,
        stored(p, img).history.len() == 1,
        stored(p, img).history[0] == img,
        stored(p, img).mode == WindowMode::Taken,
        stored(p, img).delay_timer == p.delay_timer,
        saved(p).history.len() == p.history.len() + 1 && saved(p).history[0] == p.image_back
            && saved(p).history.drop_first() == p.history,
        saved(p).image == p.image && saved(p).image_back == p.image_back,
{
    assert(saved(p).history.drop_first() =~= p.history);
}

/// Undo acts only on the screenshot screen with more than one image in the history: it
/// shows the most recent image of the history and takes it off; otherwise nothing changes.
pub proof fn lemma_undo(p: Pictures)
    ensures
        !(p.mode == WindowMode::Taken && p.history.len() > 1) ==> undone(p) == p,
        p.mode == WindowMode::Taken && p.history.len() > 1 ==> {
            &&& undone(p).image == p.history[0]
            &&& undone(p).image_back == p.history[0]
            &&& undone(p).history.len() == p.history.len() - 1
            &&& forall|i: int| 0 <= i < undone(p).history.len() ==> #[trigger] undone(p).history[i]
                == p.history[i + 1]
            &&& undone(p).mode == p.mode
            &&& undone(p).delay_timer == p.delay_timer
        },
{
}

/// A confirmed hotkey is written as the key's name after the winning modifier: Alt over
/// Shift over Control over Command, nothing where none is held.
pub proof fn lemma_pressed_text_modifier(m: PressedModifiers, key: EguiKey)
    ensures
        m.alt ==> pressed_text(m, key) == "ALT + "@ + egui_key_name(key),
        !m.alt && m.shift ==> pressed_text(m, key) == "SHIFT + "@ + egui_key_name(key),
        !m.alt && !m.shift && m.ctrl ==> pressed_text(m, key) == "CONTROL + "@ + egui_key_name(key),
        !m.alt && !m.shift && !m.ctrl && (m.command || m.mac_cmd) ==> pressed_text(m, key)
            == "COMMAND + "@ + egui_key_name(key),
        !m.alt && !m.shift && !m.ctrl && !m.command && !m.mac_cmd ==> pressed_text(m, key)
            == egui_key_name(key),
{
    assert(Seq::<char>::empty() + egui_key_name(key) =~= egui_key_name(key));
}

/// Every button leads away from the screen that shows it, to the screen it names: "Customize
/// Hotkeys" from the first screen to the hotkey screen, "Save" from the screenshot to the save
/// form, "Back" from the screenshot and the hotkey screen to the first screen and from the save
/// form to the screenshot, and "Home" from the saved and the error screen to the first screen;
/// a button that a screen does not show leaves it as it is.
pub proof fn lemma_buttons_lead(mode: WindowMode, b: ScreenButton)
    ensures
        (mode == WindowMode::Saved || mode == WindowMode::ErrorMode) ==> screen_after(
            mode,
            ScreenButton::Home,
        ) == WindowMode::Initial,
        screen_after(WindowMode::Initial, ScreenButton::CustomizeHotkeys) == WindowMode::ChangeHotkeys,
        screen_after(WindowMode::Taken, ScreenButton::Save) == WindowMode::Saving,
        (mode == WindowMode::Taken || mode == WindowMode::ChangeHotkeys) ==> screen_after(
            mode,
            ScreenButton::Back,
        ) == WindowMode::Initial,
        screen_after(WindowMode::Saving, ScreenButton::Back) == WindowMode::Taken,
        (screen_after(mode, b) != mode) <==> ({
            ||| mode == WindowMode::Initial && b == ScreenButton::CustomizeHotkeys
            ||| mode == WindowMode::Taken && (b == ScreenButton::Save || b == ScreenButton::Back)
            ||| (mode == WindowMode::Saving || mode == WindowMode::ChangeHotkeys) && b
                == ScreenButton::Back
            ||| (mode == WindowMode::Saved || mode == WindowMode::ErrorMode) && b
                == ScreenButton::Home
        }),
{
}

/// Undoing right after the history was saved gives back the history as it was and shows
/// the copy that was saved.
pub proof fn lemma_undo_reverts_save(p: Pictures)
    requires
        p.mode == WindowMode::Taken,
        p.history.len() > 0,
    ensures
        undone(saved(p)) == (Pictures {
            image: p.image_back,
            image_back: p.image_back,
            history: p.history,
            mode: p.mode,
            delay_timer: p.delay_timer,
        }),
{
    assert(saved(p).history.drop_first() =~= p.history);
}

/// A screenshot just taken is what going back to the first image gives, and no edit,
/// undo or delay switch changes that. Once a screenshot has been taken the history is never
/// empty again; going back twice is going back once.
pub proof fn lemma_history_keeps_first(p: Pictures, img: DynamicImage)
    ensures
        stored(p, img).history.len() > 0,
        reset(stored(p, img)) == stored(p, img),
        reset(reset(p)) == reset(p),
        p.history.len() > 0 ==> {
            &&& saved(p).history.len() > 0
            &&& undone(p).history.len() > 0
            &&& switched(p).history.len() > 0
            &&& reset(p).history.len() > 0
            &&& reset(saved(p)) == reset(p)
            &&& reset(undone(p)) == reset(p)
            &&& reset(reset(p)) == reset(p)
            &&& reset(p).image == p.history.last()
        },
{
    assert(stored(p, img).history.last() == img);
    assert(reset(stored(p, img)) == stored(p, img));
    if p.history.len() > 0 {
        assert(saved(p).history.last() == p.history.last());
        if p.mode == WindowMode::Taken && p.history.len() > 1 {
            assert(undone(p).history.last() == p.history.last());
        }
        assert(reset(saved(p)) == reset(p));
        assert(reset(undone(p)) == reset(p));
        assert(reset(reset(p)) == reset(p));
    }
}

/// The save form's error flags once the chosen path has been checked: the second is set for
/// a path that does not exist, the third for one that is not a directory or is a file.
pub open spec fn checked_errors(e: (bool, bool, bool), exists: bool, is_dir: bool, is_file: bool) -> (
    bool,
    bool,
    bool,
) {
    if !exists {
        (e.0, true, e.2)
    } else if !is_dir || is_file {
        (e.0, e.1, true)
    } else {
        e
    }
}

/// The screen shown once the image has been written, or has failed to be.
pub open spec fn save_screen(written: bool) -> WindowMode {
    if written {
        WindowMode::Saved
    } else {
        WindowMode::ErrorMode
    }
}

/// A button that moves the window to another screen.
#[derive(Clone, Copy, Debug, PartialEq, Eq, Structural)]
pub enum ScreenButton {
    /// "Customize Hotkeys" on the first screen.
    CustomizeHotkeys,
    /// "Save" on the screenshot screen.
    Save,
    /// "Back" on the screenshot, save or hotkey screen.
    Back,
    /// "Home" once the image is saved, "Take another screenshot" on the error screen.
    Home,
}

/// The screen that a button leads to from `mode`; a button that `mode` does not show
/// leaves the screen as it is.
pub open spec fn screen_after(mode: WindowMode, b: ScreenButton) -> WindowMode {
    match b {
        ScreenButton::CustomizeHotkeys => if mode == WindowMode::Initial {
            WindowMode::ChangeHotkeys
        } else {
            mode
        },
        ScreenButton::Save => if mode == WindowMode::Taken {
            WindowMode::Saving
        } else {
            mode
        },
        ScreenButton::Back => if mode == WindowMode::Taken || mode == WindowMode::ChangeHotkeys {
            WindowMode::Initial
        } else if mode == WindowMode::Saving {
            WindowMode::Taken
        } else {
            mode
        },
        ScreenButton::Home => if mode == WindowMode::Saved || mode == WindowMode::ErrorMode {
            WindowMode::Initial
        } else {
            mode
        },
    }
}

/// The screen changes that the window makes in one step: staying, a move that a button of
/// the screen makes, the outcome of a save, or a screenshot taken by hotkey from any screen
/// but the save form.
pub open spec fn screen_step(a: WindowMode, b: WindowMode) -> bool {
    ||| a == b
    ||| a == WindowMode::Initial && (b == WindowMode::Taken || b == WindowMode::ChangeHotkeys)
    ||| a == WindowMode::Taken && (b == WindowMode::Initial || b == WindowMode::Saving)
    ||| a == WindowMode::Saving && (b == WindowMode::Saved || b == WindowMode::ErrorMode || b
        == WindowMode::Taken)
    ||| (a == WindowMode::Saved || a == WindowMode::ErrorMode || a == WindowMode::ChangeHotkeys)
        && b == WindowMode::Initial
    ||| a != WindowMode::Saving && b == WindowMode::Taken
}

/// Every screen change that a button, a save or the screenshot hotkey asks for is a step of
/// the window: the buttons follow the screens' own moves, a save ends on the saved or the
/// error screen, and the screenshot hotkey is never followed from the save form.
pub proof fn lemma_screen_steps(
    mode: WindowMode,
    b: ScreenButton,
    written: bool,
    enabled: bool,
    action: HotkeyAction,
)
    ensures
        screen_step(mode, screen_after(mode, b)),
        mode == WindowMode::Saving ==> screen_step(mode, save_screen(written)),
        command_for(enabled, mode, action) == HotkeyCommand::ResetAndTakeScreenshot ==> screen_step(
            mode,
            WindowMode::Taken,
        ),
{
}

/// A key typed while a text is being placed on the screenshot.
#[derive(Clone, Copy, Debug, PartialEq, Eq, Structural)]
pub enum TypedKey {
    /// Removes the last character.
    Backspace,
    /// Adds a space.
    Space,
    /// Ends the text.
    Enter,
    /// Adds the key's symbol.
    Symbol(char),
}

/// The text after a key was typed into it.
pub open spec fn typed(text: Seq<char>, key: TypedKey) -> Seq<char> {
    match key {
        TypedKey::Backspace => if text.len() > 0 {
            text.drop_last()
        } else {
            text
        },
        TypedKey::Space => text.push(' '),
        TypedKey::Enter => Seq::empty(),
        TypedKey::Symbol(c) => text.push(c),
    }
}

/// Calls `String::push`, which appends the character to the string.
#[verifier::external_body]
fn push_char(s: &mut String, c: char)
    ensures
        final(s)@ == old(s)@.push(c),
{
    s.push(c);
}

/// Applies a typed key to the text being placed on the screenshot. Enter ends the text:
/// it gives back what was written and leaves the text empty.
pub fn type_key(text: &mut String, key: TypedKey) -> (finished: Option<String>)
    ensures
        final(text)@ == typed(old(text)@, key),
        match finished {
            Some(t) => key == TypedKey::Enter && t@ == old(text)@,
            None => key != TypedKey::Enter,
        },
{
    match key {
        TypedKey::Backspace => {
            let n = text.as_str().unicode_len();
            if n > 0 {
                let shorter = text.as_str().substring_char(0, n - 1).to_owned();
                *text = shorter;
            }
            None
        },
        TypedKey::Space => {
            push_char(text, ' ');
            None
        },
        TypedKey::Enter => {
            let written = text.clone();
            *text = String::new();
            Some(written)
        },
        TypedKey::Symbol(c) => {
            push_char(text, c);
            None
        },
    }
}

/// A finished text placed on the screenshot: the copy that edits are drawn from goes onto
/// the history where the text is not empty, and the drawn image becomes the image and its copy.
pub open spec fn placed(p: Pictures, nonempty: bool, drawn: DynamicImage) -> Pictures {
    Pictures {
        image: drawn,
        image_back: drawn,
        history: if nonempty {
            seq![p.image_back] + p.history
        } else {
            p.history
        },
        mode: p.mode,
        delay_timer: p.delay_timer,
    }
}

/// The file that an image is saved to: `path/filename` with the extension of a known format.
pub open spec fn save_file(format: Seq<char>, path: Seq<char>, filename: Seq<char>) -> Option<
    Seq<char>,
> {
    if format == ".png"@ {
        Some(path + "/"@ + filename + ".png"@)
    } else if format == ".gif"@ {
        Some(path + "/"@ + filename + ".gif"@)
    } else if format == ".jpg"@ {
        Some(path + "/"@ + filename + ".jpg"@)
    } else {
        None
    }
}

/// The file that an image in `format` is saved to; `None` for a format that is not saved.
pub fn save_file_name(format: &str, path: &str, filename: &str) -> (r: Option<String>)
    ensures
        match r {
            Some(f) => save_file(format@, path@, filename@) == Some(f@),
            None => save_file(format@, path@, filename@) is None,
        },
{
    let extension = if crate::text::text_is(format, ".png") {
        ".png"
    } else if crate::text::text_is(format, ".gif") {
        ".gif"
    } else if crate::text::text_is(format, ".jpg") {
        ".jpg"
    } else {
        return None;
    };
    let mut file = path.to_owned();
    file.append("/");
    file.append(filename);
    file.append(extension);
    Some(file)
}

/// The text that a confirmed hotkey is written as.
pub fn pressed_hotkey_text(pressed: PressedModifiers, key: EguiKey) -> (r: String)
    ensures
        r@ == pressed_text(pressed, key),
{
    let mut buf = String::new();
    if pressed.mac_cmd {
        buf = "COMMAND + ".to_owned();
    }
    if pressed.command {
        buf = "COMMAND + ".to_owned();
    }
    if pressed.ctrl {
        buf = "CONTROL + ".to_owned();
    }
    if pressed.shift {
        buf = "SHIFT + ".to_owned();
    }
    if pressed.alt {
        buf = "ALT + ".to_owned();
    }
    let name: String = EguiKeyWrap::new(key).into_name();
    buf.append(name.as_str());
    buf
}

impl DragApp {
    /// The state at start: the first screen, no screenshot, no delay, the hotkeys not loaded.
    pub fn new(current_name: String, current_path: String) -> (r: Self)
        ensures
            r.delay_timer == 0,
            r.selected_monitor == 0,
            r.mode == WindowMode::Initial,
            r.image_history@.len() == 0,
            r.current_name@ == current_name@,
            r.current_path@ == current_path@,
            r.current_format@ == ".png"@,
            r.current_width == 0,
            r.current_height == 0,
            r.save_errors == (false, false, false),
            r.hotkeys_strings@.len() == 0,
            !r.hotkey_ui_status,
            r.changing_hotkey@ == seq![false, false, false, false, false, false, false],
            r.hotkey_map@ == Map::<u32, (HotkeyBinding, HotkeyAction)>::empty(),
            !r.hotkey_created,
            r.hotkeys_enabled,
    {
        broadcast use vstd::std_specs::hash::group_hash_axioms;

        let changing_hotkey = vec![false, false, false, false, false, false, false];
        DragApp {
            delay_timer: 0,
            selected_monitor: 0,
            mode: WindowMode::Initial,
            image: DynamicImage::default(),
            image_back: DynamicImage::default(),
            image_history: VecDeque::new(),
            current_name,
            current_path,
            current_format: ".png".to_owned(),
            current_width: 0,
            current_height: 0,
            save_errors: (false, false, false),
            hotkeys_strings: Vec::new(),
            hotkey_ui_status: false,
            changing_hotkey,
            hotkey_map: HashMap::new(),
            hotkey_created: false,
            hotkeys_enabled: true,
        }
    }

    /// Reads the hotkey configuration into the hotkey texts and the table, and records
    /// that the hotkeys exist; `None`, and no change, where a line cannot be read.
    pub fn load_hotkey_map(&mut self, config_text: &str) -> (r: Option<(Vec<String>, HotkeyMap)>)
        ensures
            match r {
                Some((strings, map)) => {
                    &&& parse_config(config_text@) matches Some(lines)
                    &&& texts(strings@) == lines.map_values(
                        |l: (HotkeyAction, Seq<char>, HotkeyBinding)| l.1,
                    )
                    &&& map@ == map_of_lines(lines)
                    &&& final(self).hotkey_created
                },
                None => parse_config(config_text@) is None && final(self).hotkey_created == old(
                    self,
                ).hotkey_created,
            },
            same_pictures(final(self), old(self)),
            same_form(final(self), old(self)),
            final(self).hotkey_map@ == old(self).hotkey_map@,
            texts(final(self).hotkeys_strings@) == texts(old(self).hotkeys_strings@),
            final(self).changing_hotkey@ == old(self).changing_hotkey@,
            final(self).hotkey_ui_status == old(self).hotkey_ui_status,
    {
        let r = hotkey_map_from_config(config_text);
        if r.is_some() {
            self.hotkey_created = true;
        }
        r
    }

    /// Replaces the hotkey that `old_codes_string` names by the one that `new_codes_string`
    /// names, which takes over its action; see `rebind_hotkey`.
    pub fn update_hotkey_map(&mut self, new_codes_string: Vec<String>, old_codes_string: Vec<String>) -> (r:
        Result<Rebinding, HotkeyError>)
        ensures
            match r {
                Ok(rb) => {
                    &&& rebind_error(
                        old(self).hotkey_map@,
                        texts(new_codes_string@),
                        texts(old_codes_string@),
                    ) is None
                    &&& binding_of_parts(texts(old_codes_string@)) == Some(rb.old_hotkey)
                    &&& binding_of_parts(texts(new_codes_string@)) == Some(rb.new_hotkey)
                    &&& final(self).hotkey_map@ == rebound(
                        old(self).hotkey_map@,
                        rb.new_hotkey,
                        rb.old_hotkey,
                    )
                    &&& writes_table(rb.config_text@, final(self).hotkey_map@)
                },
                Err(e) => {
                    &&& rebind_error(
                        old(self).hotkey_map@,
                        texts(new_codes_string@),
                        texts(old_codes_string@),
                    ) == Some(e)
                    &&& final(self).hotkey_map@ == old(self).hotkey_map@
                },
            },
            same_pictures(final(self), old(self)),
            same_form(final(self), old(self)),
            texts(final(self).hotkeys_strings@) == texts(old(self).hotkeys_strings@),
            final(self).changing_hotkey@ == old(self).changing_hotkey@,
            final(self).hotkey_ui_status == old(self).hotkey_ui_status,
            final(self).hotkey_created == old(self).hotkey_created,
    {
        rebind_hotkey(&mut self.hotkey_map, &new_codes_string, &old_codes_string)
    }

    /// What the hotkey with id `event_id` asks for; nothing while hotkeys are disabled.
    pub fn hotkey_command(&self, event_id: u32) -> (r: HotkeyCommand)
        requires
            self.hotkeys_enabled ==> self.hotkey_map@.contains_key(event_id),
        ensures
            r == command_for(self.hotkeys_enabled, self.mode, self.hotkey_map@[event_id].1),
    {
        broadcast use vstd::std_specs::hash::group_hash_axioms;

        if !self.hotkeys_enabled {
            return HotkeyCommand::Nothing;
        }
        let action = match self.hotkey_map.get(&event_id) {
            Some(value) => value.1,
            None => return HotkeyCommand::Nothing,
        };
        match action {
            HotkeyAction::TakeScreenshot => {
                if self.mode != WindowMode::Saving {
                    HotkeyCommand::ResetAndTakeScreenshot
                } else {
                    HotkeyCommand::Nothing
                }
            },
            HotkeyAction::Quit => HotkeyCommand::Quit,
            HotkeyAction::SwitchDelay => {
                if self.mode == WindowMode::Taken {
                    HotkeyCommand::SwitchDelay
                } else {
                    HotkeyCommand::Nothing
                }
            },
            HotkeyAction::CopyClipboard => {
                if self.mode == WindowMode::Taken {
                    HotkeyCommand::CopyClipboard
                } else {
                    HotkeyCommand::Nothing
                }
            },
            HotkeyAction::FastSave => {
                if self.mode == WindowMode::Taken {
                    HotkeyCommand::ResetAndSave
                } else {
                    HotkeyCommand::Nothing
                }
            },
            HotkeyAction::Undo => {
                if self.mode == WindowMode::Taken {
                    HotkeyCommand::Undo
                } else {
                    HotkeyCommand::Nothing
                }
            },
            HotkeyAction::ResetImage => {
                if self.mode == WindowMode::Taken {
                    HotkeyCommand::ResetImage
                } else {
                    HotkeyCommand::Nothing
                }
            },
        }
    }

    /// Shows a freshly taken screenshot: it becomes the image and its copy, is pushed
    /// onto the front of the history, and the window shows the screenshot screen.
    pub fn store_screenshot(&mut self, img: DynamicImage)
        ensures
            final(self).pictures() == stored(old(self).pictures(), img),
            same_settings(final(self), old(self)),
    {
        self.image = img;
        self.image_back = self.image.clone();
        self.image_history.clear();
        self.save_image_history();
        self.mode = WindowMode::Taken;
    }

    /// On the screenshot screen with more than one image in the history, takes the most
    /// recent one off the front and shows it; otherwise changes nothing.
    pub fn undo_image_modify(&mut self)
        ensures
            final(self).pictures() == undone(old(self).pictures()),
            same_settings(final(self), old(self)),
    {
        if self.mode == WindowMode::Taken {
            if self.image_history.len() > 1 {
                let image = self.image_history.pop_front();
                match image {
                    Some(image) => {
                        self.image = image;
                    },
                    None => {},
                }
                self.image_back = self.image.clone();
            }
        }
    }

    /// Pushes a copy of the last drawn image onto the front of the history.
    pub fn save_image_history(&mut self)
        ensures
            final(self).pictures() == saved(old(self).pictures()),
            same_settings(final(self), old(self)),
    {
        let back = self.image_back.clone();
        self.image_history.push_front(back);
        assert(self.image_history@ =~= seq![old(self).image_back] + old(self).image_history@);
    }

    /// Goes back to the oldest image of the history, the screenshot: it becomes the image,
    /// its copy and the whole history. Without a history nothing changes.
    pub fn reset_image_history(&mut self)
        ensures
            final(self).pictures() == reset(old(self).pictures()),
            same_settings(final(self), old(self)),
    {
        let oldest = self.image_history.pop_back();
        match oldest {
            Some(image) => {
                self.image = image;
                self.image_back = self.image.clone();
                self.image_history.clear();
                let first = self.image.clone();
                self.image_history.push_front(first);
                assert(self.image_history@ =~= seq![old(self).image_history@.last()]);
            },
            None => {},
        }
    }

    /// Places a finished text: `drawn` is the image with the text written on it.
    pub fn place_text(&mut self, written: &str, drawn: DynamicImage)
        ensures
            final(self).pictures() == placed(old(self).pictures(), written@.len() > 0, drawn),
            same_settings(final(self), old(self)),
    {
        if written.unicode_len() > 0 {
            self.save_image_history();
        }
        self.image = drawn;
        self.image_back = self.image.clone();
        assert(self.image_history@ == placed(old(self).pictures(), written@.len() > 0, drawn).history);
    }

    /// Whether the edits can be undone or reset: more than one image in the history and
    /// no drawing, crop or text under way.
    pub fn edits_undoable(&self, drawing: bool, crop: bool, texting: bool) -> (r: bool)
        ensures
            r == (self.image_history@.len() > 1 && !drawing && !crop && !texting),
    {
        self.image_history.len() > 1 && !drawing && !crop && !texting
    }

    /// What the save form records once the file system has been asked about the chosen
    /// path: a path that does not exist sets the second error flag, one that is not a
    /// directory or is a file sets the third; otherwise the image is to be written, which
    /// the result says.
    pub fn check_save_target(&mut self, exists: bool, is_dir: bool, is_file: bool) -> (ready: bool)
        ensures
            ready == (exists && is_dir && !is_file),
            final(self).save_errors == checked_errors(old(self).save_errors, exists, is_dir, is_file),
            same_pictures(final(self), old(self)),
            final(self).current_path@ == old(self).current_path@,
            final(self).current_name@ == old(self).current_name@,
            final(self).current_format@ == old(self).current_format@,
            same_hotkeys(final(self), old(self)),
            final(self).selected_monitor == old(self).selected_monitor,
            final(self).current_width == old(self).current_width,
            final(self).current_height == old(self).current_height,
    {
        if !exists {
            self.save_errors.1 = true;
            false
        } else if !is_dir || is_file {
            self.save_errors.2 = true;
            false
        } else {
            true
        }
    }

    /// Shows the screen that follows writing the image: saved, or the error screen.
    pub fn finish_save(&mut self, written: bool)
        ensures
            final(self).mode == save_screen(written),
            final(self).image == old(self).image,
            final(self).image_back == old(self).image_back,
            final(self).image_history@ == old(self).image_history@,
            final(self).delay_timer == old(self).delay_timer,
            same_settings(final(self), old(self)),
    {
        self.mode = if written {
            WindowMode::Saved
        } else {
            WindowMode::ErrorMode
        };
    }

    /// Follows a button to its screen; leaving the hotkey screen acts on hotkeys again.
    pub fn press_button(&mut self, b: ScreenButton)
        ensures
            final(self).mode == screen_after(old(self).mode, b),
            final(self).hotkeys_enabled == (old(self).hotkeys_enabled || (b == ScreenButton::Back
                && old(self).mode == WindowMode::ChangeHotkeys)),
            final(self).image == old(self).image,
            final(self).image_back == old(self).image_back,
            final(self).image_history@ == old(self).image_history@,
            final(self).delay_timer == old(self).delay_timer,
            final(self).selected_monitor == old(self).selected_monitor,
            final(self).current_path@ == old(self).current_path@,
            final(self).current_name@ == old(self).current_name@,
            final(self).current_format@ == old(self).current_format@,
            final(self).save_errors == old(self).save_errors,
            final(self).hotkey_map@ == old(self).hotkey_map@,
            texts(final(self).hotkeys_strings@) == texts(old(self).hotkeys_strings@),
            final(self).changing_hotkey@ == old(self).changing_hotkey@,
            final(self).hotkey_ui_status == old(self).hotkey_ui_status,
            final(self).hotkey_created == old(self).hotkey_created,
            final(self).current_width == old(self).current_width,
            final(self).current_height == old(self).current_height,
    {
        match b {
            ScreenButton::CustomizeHotkeys => {
                if self.mode == WindowMode::Initial {
                    self.mode = WindowMode::ChangeHotkeys;
                }
            },
            ScreenButton::Save => {
                if self.mode == WindowMode::Taken {
                    self.mode = WindowMode::Saving;
                }
            },
            ScreenButton::Back => {
                if self.mode == WindowMode::ChangeHotkeys {
                    self.mode = WindowMode::Initial;
                    self.hotkeys_enabled = true;
                } else if self.mode == WindowMode::Taken {
                    self.mode = WindowMode::Initial;
                } else if self.mode == WindowMode::Saving {
                    self.mode = WindowMode::Taken;
                }
            },
            ScreenButton::Home => {
                if self.mode == WindowMode::Saved || self.mode == WindowMode::ErrorMode {
                    self.mode = WindowMode::Initial;
                }
            },
        }
    }

    /// Moves the delay timer on in the cycle 0, 1, 3, 5 seconds.
    pub fn switch_delay_timer(&mut self)
        ensures
            final(self).pictures() == switched(old(self).pictures()),
            same_settings(final(self), old(self)),
    {
        match self.delay_timer {
            0 => {
                self.delay_timer = 1;
            },
            1 => {
                self.delay_timer = 3;
            },
            3 => {
                self.delay_timer = 5;
            },
            5 => {
                self.delay_timer = 0;
            },
            _ => {},
        }
    }

    /// What a click on "Save" decides before the file system is asked. With an empty path
    /// it sets the first error flag and gives `None`; otherwise it clears the error flags,
    /// makes the current path the trimmed path ending in `/`, where the trimmed path does not
    /// already end so, and gives the trimmed path to check.
    pub fn prepare_save_path(&mut self) -> (r: Option<String>)
        ensures
            old(self).current_path@.len() == 0 ==> {
                &&& r is None
                &&& final(self).save_errors == (true, old(self).save_errors.1, old(self).save_errors.2)
                &&& final(self).current_path@ == old(self).current_path@
            },
            old(self).current_path@.len() > 0 ==> {
                let t = trimmed(old(self).current_path@);
                &&& r matches Some(p) && p@ == t
                &&& final(self).save_errors == (false, false, false)
                &&& final(self).current_path@ == if t.len() > 0 && t.last() == '/' {
                    old(self).current_path@
                } else {
                    t + "/"@
                }
            },
            same_pictures(final(self), old(self)),
            final(self).current_name@ == old(self).current_name@,
            final(self).current_format@ == old(self).current_format@,
            same_hotkeys(final(self), old(self)),
            final(self).selected_monitor == old(self).selected_monitor,
            final(self).current_width == old(self).current_width,
            final(self).current_height == old(self).current_height,
    {
        if self.current_path.as_str().unicode_len() == 0 {
            self.save_errors.0 = true;
            return None;
        }
        self.save_errors = (false, false, false);
        let trimmed_path = trim(self.current_path.as_str());
        let n = trimmed_path.as_str().unicode_len();
        let ends_with_slash = n > 0 && trimmed_path.as_str().get_char(n - 1) == '/';
        if !ends_with_slash {
            let mut p = trimmed_path.clone();
            p.append("/");
            self.current_path = p;
        }
        Some(trimmed_path)
    }

    /// Confirms the hotkey being changed. Without a pressed key it only leaves the change;
    /// with one it writes the new hotkey text in place of the old one and rebinds the
    /// old hotkey to the new, leaving everything as it is where that fails.
    pub fn finish_hotkey_change(&mut self, pressed: Option<(PressedModifiers, EguiKey)>) -> (r: Result<
        Option<Rebinding>,
        HotkeyError,
    >)
        requires
            first_true(old(self).changing_hotkey@) matches Some(i) && i < old(
                self,
            ).hotkeys_strings@.len(),
        ensures
            ({
                let i = first_true(old(self).changing_hotkey@)->0;
                let old_parts = split(old(self).hotkeys_strings@[i]@, " + "@);
                match pressed {
                    None => {
                        &&& r == Ok::<Option<Rebinding>, HotkeyError>(None)
                        &&& final(self).hotkey_map@ == old(self).hotkey_map@
                        &&& texts(final(self).hotkeys_strings@) == texts(old(self).hotkeys_strings@)
                    },
                    Some((m, key)) => {
                        let new_parts = split(pressed_text(m, key), " + "@);
                        match r {
                            Ok(Some(rb)) => {
                                &&& rebind_error(old(self).hotkey_map@, new_parts, old_parts) is None
                                &&& binding_of_parts(old_parts) == Some(rb.old_hotkey)
                                &&& binding_of_parts(new_parts) == Some(rb.new_hotkey)
                                &&& final(self).hotkey_map@ == rebound(
                                    old(self).hotkey_map@,
                                    rb.new_hotkey,
                                    rb.old_hotkey,
                                )
                                &&& writes_table(rb.config_text@, final(self).hotkey_map@)
                                &&& texts(final(self).hotkeys_strings@) == texts(
                                    old(self).hotkeys_strings@,
                                ).update(i, pressed_text(m, key))
                            },
                            Ok(None) => false,
                            Err(e) => {
                                &&& rebind_error(old(self).hotkey_map@, new_parts, old_parts)
                                    == Some(e)
                                &&& final(self).hotkey_map@ == old(self).hotkey_map@
                                &&& texts(final(self).hotkeys_strings@) == texts(
                                    old(self).hotkeys_strings@,
                                )
                            },
                        }
                    },
                }
            }),
            r is Err ==> final(self).changing_hotkey@ == old(self).changing_hotkey@
                && final(self).hotkey_ui_status == old(self).hotkey_ui_status,
            r is Ok ==> !final(self).hotkey_ui_status && final(self).changing_hotkey@
                == Seq::new(old(self).changing_hotkey@.len(), |j: int| false),
            same_pictures(final(self), old(self)),
            same_form(final(self), old(self)),
            final(self).hotkey_created == old(self).hotkey_created,
    {
        proof {
            reveal_strlit(" + ");
        }
        let mut index: usize = 0;
        while index < self.changing_hotkey.len() && !self.changing_hotkey[index]
            invariant
                index <= self.changing_hotkey@.len(),
                forall|j: int| 0 <= j < index ==> !self.changing_hotkey@[j],
                self.changing_hotkey@ == old(self).changing_hotkey@,
                first_true(old(self).changing_hotkey@) is Some,
            decreases self.changing_hotkey@.len() - index,
        {
            index += 1;
        }
        proof {
            let i = first_true(old(self).changing_hotkey@)->0;
            if index as int != i {
                assert(!self.changing_hotkey@[i]);
            }
        }
        let old_hotkey_strings = split_text(self.hotkeys_strings[index].as_str(), " + ");
        let result = match pressed {
            Some((modifiers, key)) => {
                let buf = pressed_hotkey_text(modifiers, key);
                let new_hotkey_strings = split_text(buf.as_str(), " + ");
                match rebind_hotkey(&mut self.hotkey_map, &new_hotkey_strings, &old_hotkey_strings) {
                    Ok(rb) => {
                        let ghost before = self.hotkeys_strings@;
                        self.hotkeys_strings.set(index, buf);
                        assert(texts(self.hotkeys_strings@) =~= texts(before).update(
                            index as int,
                            pressed_text(modifiers, key),
                        ));
                        Ok(Some(rb))
                    },
                    Err(e) => {
                        return Err(e);
                    },
                }
            },
            None => Ok(None),
        };
        self.hotkey_ui_status = false;
        let mut j: usize = 0;
        let n = self.changing_hotkey.len();
        let ghost before_loop = *self;
        while j < n
            invariant
                same_pictures(self, &before_loop),
                same_form(self, &before_loop),
                self.hotkey_created == before_loop.hotkey_created,
                self.hotkey_map@ == before_loop.hotkey_map@,
                self.hotkeys_strings@ == before_loop.hotkeys_strings@,
                !self.hotkey_ui_status,
                n == self.changing_hotkey@.len(),
                n == old(self).changing_hotkey@.len(),
                j <= n,
                forall|q: int| 0 <= q < j ==> !self.changing_hotkey@[q],
            decreases n - j,
        {
            self.changing_hotkey.set(j, false);
            j += 1;
        }
        assert(self.changing_hotkey@ =~= Seq::new(n as nat, |q: int| false));
        result
    }
}

} // verus!
