//! The buttons of the window's toolbar.

use crate::text::str_eq;
use vstd::prelude::*;

verus! {

/// What a button of the toolbar asks of the window.
#[derive(Clone, Copy, Debug, PartialEq, Eq, Structural)]
pub enum ToolbarAction {
    /// Keep the window above all others, or stop doing so.
    TogglePin,
    /// Fill the screen with the window, or give it back its size.
    ToggleMaximize,
    /// Nothing: the user interface handles the button itself.
    Nothing,
}

/// What the button `action` asks of the window.
pub open spec fn toolbar_action_of(action: Seq<char>) -> ToolbarAction {
    if action == "toggle-pin"@ {
        ToolbarAction::TogglePin
    } else if action == "toggle-maximize"@ {
        ToolbarAction::ToggleMaximize
    } else {
        ToolbarAction::Nothing
    }
}

/// Decides what a button of the toolbar asks of the window.
pub fn toolbar_action(action: &str) -> (r: ToolbarAction)
    ensures
        r == toolbar_action_of(action@),
{
    if str_eq(action, "toggle-pin") {
        ToolbarAction::TogglePin
    } else if str_eq(action, "toggle-maximize") {
        ToolbarAction::ToggleMaximize
    } else {
        ToolbarAction::Nothing
    }
}

} // verus!
