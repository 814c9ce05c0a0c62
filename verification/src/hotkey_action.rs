//! The actions that a global hotkey can trigger, and their numbers in the configuration file.

use vstd::prelude::*;

verus! {

/// What a global hotkey does.
#[derive(Clone, Copy, Debug, PartialEq, Eq, Structural)]
pub enum HotkeyAction {
    TakeScreenshot,
    Quit,
    SwitchDelay,
    CopyClipboard,
    FastSave,
    Undo,
    ResetImage,
}

/// The number under which the configuration file records an action.
pub open spec fn action_number(a: HotkeyAction) -> i32 {
    match a {
        HotkeyAction::TakeScreenshot => 0,
        HotkeyAction::Quit => 1,
        HotkeyAction::SwitchDelay => 2,
        HotkeyAction::CopyClipboard => 3,
        HotkeyAction::FastSave => 4,
        HotkeyAction::Undo => 5,
        HotkeyAction::ResetImage => 6,
    }
}

/// The action that a number stands for, if any.
pub open spec fn action_of_number(value: i32) -> Option<HotkeyAction> {
    if value == 0 {
        Some(HotkeyAction::TakeScreenshot)
    } else if value == 1 {
        Some(HotkeyAction::Quit)
    } else if value == 2 {
        Some(HotkeyAction::SwitchDelay)
    } else if value == 3 {
        Some(HotkeyAction::CopyClipboard)
    } else if value == 4 {
        Some(HotkeyAction::FastSave)
    } else if value == 5 {
        Some(HotkeyAction::Undo)
    } else if value == 6 {
        Some(HotkeyAction::ResetImage)
    } else {
        None
    }
}

impl HotkeyAction {
    /// The action numbered `value`; `None` outside `0..=6`.
    pub fn new_from_i32(value: i32) -> (r: Option<HotkeyAction>)
        ensures
            r == action_of_number(value),
            r is Some <==> 0 <= value <= 6,
    {
        match value {
            0 => Some(HotkeyAction::TakeScreenshot),
            1 => Some(HotkeyAction::Quit),
            2 => Some(HotkeyAction::SwitchDelay),
            3 => Some(HotkeyAction::CopyClipboard),
            4 => Some(HotkeyAction::FastSave),
            5 => Some(HotkeyAction::Undo),
            6 => Some(HotkeyAction::ResetImage),
            _ => None,
        }
    }

    /// The number of an action.
    pub fn i32_from_action(value: HotkeyAction) -> (r: i32)
        ensures
            r == action_number(value),
            0 <= r <= 6,
    {
        match value {
            HotkeyAction::TakeScreenshot => 0,
            HotkeyAction::Quit => 1,
            HotkeyAction::SwitchDelay => 2,
            HotkeyAction::CopyClipboard => 3,
            HotkeyAction::FastSave => 4,
            HotkeyAction::Undo => 5,
            HotkeyAction::ResetImage => 6,
        }
    }
}

/// Numbering an action and reading the number back gives the action again.
pub proof fn lemma_action_number_round_trip(a: HotkeyAction)
    ensures
        action_of_number(action_number(a)) == Some(a),
{
}

/// A number that stands for an action is that action's number.
pub proof fn lemma_number_action_round_trip(value: i32)
    ensures
        action_of_number(value) matches Some(a) ==> action_number(a) == value,
{
}

/// Different actions have different numbers.
pub proof fn lemma_action_number_injective(a: HotkeyAction, b: HotkeyAction)
    ensures
        action_number(a) == action_number(b) ==> a == b,
{
}

} // verus!
