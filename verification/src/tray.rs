//! The decisions of the tray icon: its label and what its menu entries and clicks do.
use crate::text;
use vstd::prelude::*;

verus! {

/// The label of the tray's toggle entry for the auto-accept setting.
pub open spec fn toggle_label_text(enabled: bool) -> Seq<char> {
    if enabled {
        "Auto-accept: ON"@
    } else {
        "Auto-accept: OFF"@
    }
}

/// The label of the tray's toggle entry.
pub fn toggle_label(enabled: bool) -> (r: &'static str)
    ensures
        r@ == toggle_label_text(enabled),
{
    if enabled {
        "Auto-accept: ON"
    } else {
        "Auto-accept: OFF"
    }
}

/// What a tray menu entry does.
#[derive(Debug, Clone, Copy, PartialEq, Eq, Structural)]
pub enum MenuAction {
    /// Flip the auto-accept setting.
    ToggleAutoAccept,
    /// Show the main window.
    Show,
    /// Hide the main window.
    Hide,
    /// Quit the application.
    Quit,
    /// An entry the tray does not know.
    Unhandled,
}

/// The action of the menu entry with id `id`.
pub open spec fn menu_action_of(id: Seq<char>) -> MenuAction {
    if id == "tray.toggle"@ {
        MenuAction::ToggleAutoAccept
    } else if id == "tray.show"@ {
        MenuAction::Show
    } else if id == "tray.hide"@ {
        MenuAction::Hide
    } else if id == "tray.quit"@ {
        MenuAction::Quit
    } else {
        MenuAction::Unhandled
    }
}

/// What the menu entry `id` does.
pub fn menu_action(id: &str) -> (r: MenuAction)
    ensures
        r == menu_action_of(id@),
{
    if text::str_eq(id, "tray.toggle") {
        MenuAction::ToggleAutoAccept
    } else if text::str_eq(id, "tray.show") {
        MenuAction::Show
    } else if text::str_eq(id, "tray.hide") {
        MenuAction::Hide
    } else if text::str_eq(id, "tray.quit") {
        MenuAction::Quit
    } else {
        MenuAction::Unhandled
    }
}

/// A left click on the tray icon hides the main window when it is visible, and shows it
/// otherwise, also when its visibility cannot be read (`None`).
pub fn toggle_window_shows(is_visible: Option<bool>) -> (show: bool)
    ensures
        show == !(is_visible == Some(true)),
{
    match is_visible {
        Some(true) => false,
        _ => true,
    }
}

/// Closing the main window hides it to the tray instead, unless a quit was requested or
/// minimizing to the tray is turned off.
pub fn close_hides_window(quit_requested: bool, minimize_to_tray: bool) -> (hide: bool)
    ensures
        hide == (!quit_requested && minimize_to_tray),
{
    !quit_requested && minimize_to_tray
}

} // verus!

verus! {

/// Each menu entry does what its id names, and an id that is none of the four does
/// nothing known.
pub proof fn lemma_menu_actions(id: Seq<char>)
    ensures
        menu_action_of(id) == MenuAction::ToggleAutoAccept <==> id == "tray.toggle"@,
        menu_action_of(id) == MenuAction::Show <==> id == "tray.show"@,
        menu_action_of(id) == MenuAction::Hide <==> id == "tray.hide"@,
        menu_action_of(id) == MenuAction::Quit <==> id == "tray.quit"@,
{
    reveal_strlit("tray.toggle");
    reveal_strlit("tray.show");
    reveal_strlit("tray.hide");
    reveal_strlit("tray.quit");
    assert("tray.toggle"@.len() == 11);
    assert("tray.show"@.len() == 9);
    assert("tray.hide"@.len() == 9);
    assert("tray.quit"@.len() == 9);
    assert("tray.show"@[5] != "tray.hide"@[5]);
    assert("tray.show"@[5] != "tray.quit"@[5]);
    assert("tray.hide"@[5] != "tray.quit"@[5]);
}

/// The toggle entry's label says whether auto-accept is on.
pub proof fn lemma_toggle_label(enabled: bool)
    ensures
        toggle_label_text(enabled) == if enabled {
            "Auto-accept: ON"@
        } else {
            "Auto-accept: OFF"@
        },
        toggle_label_text(true) != toggle_label_text(false),
{
    reveal_strlit("Auto-accept: ON");
    reveal_strlit("Auto-accept: OFF");
    assert("Auto-accept: ON"@.len() == 15);
    assert("Auto-accept: OFF"@.len() == 16);
}

} // verus!
