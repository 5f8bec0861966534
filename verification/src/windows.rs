//! Decisions about the persistent main (editor) window: the tray icon's
//! toggle policy and the editor command.

use vstd::prelude::*;

verus! {

/// What the UI shell is asked to do with the main window.
#[derive(Clone, Copy, PartialEq, Eq, Structural, Debug)]
pub enum MainWindowAction {
    /// Hide the window.
    Hide,
    /// Make the window visible and give it input focus.
    ShowAndFocus,
    /// Leave everything as it is.
    Ignore,
}

/// A tray icon event, reduced to what the click policy reads.
#[derive(Clone, Copy, PartialEq, Eq, Structural, Debug)]
pub enum TrayEvent {
    /// The left mouse button was released on the tray icon.
    LeftClickUp,
    /// Any other tray event.
    Other,
}

/// The tray policy: a left-button release toggles the main window — hide it
/// when visible, else show and focus it; every other event, and any event
/// while the window handle does not resolve, changes nothing.
pub open spec fn tray_action(
    event: TrayEvent,
    main_exists: bool,
    main_visible: bool,
) -> MainWindowAction {
    if !(event is LeftClickUp) {
        MainWindowAction::Ignore
    } else if !main_exists {
        MainWindowAction::Ignore
    } else if main_visible {
        MainWindowAction::Hide
    } else {
        MainWindowAction::ShowAndFocus
    }
}

/// Decides the response to a tray icon event. `main_visible` is the
/// toolkit's answer for the main window, taken as not visible when the
/// toolkit could not say.
pub fn handle_tray_click(event: TrayEvent, main_exists: bool, main_visible: bool) -> (a:
    MainWindowAction)
    ensures
        a == tray_action(event, main_exists, main_visible),
{
    match event {
        TrayEvent::LeftClickUp => {
            if !main_exists {
                MainWindowAction::Ignore
            } else if main_visible {
                MainWindowAction::Hide
            } else {
                MainWindowAction::ShowAndFocus
            }
        },
        TrayEvent::Other => MainWindowAction::Ignore,
    }
}

/// The editor command's decision: show and focus the main window when its
/// handle resolves; otherwise do nothing, which is best effort, not an
/// error.
pub fn show_editor_window(main_exists: bool) -> (a: MainWindowAction)
    ensures
        a == (if main_exists {
            MainWindowAction::ShowAndFocus
        } else {
            MainWindowAction::Ignore
        }),
{
    if main_exists {
        MainWindowAction::ShowAndFocus
    } else {
        MainWindowAction::Ignore
    }
}

/// The label that identifies the persistent main window to the toolkit.
pub fn main_window_label() -> (s: String)
    ensures
        s@ == "main"@,
{
    String::from_str("main")
}

/// The fixed global key combination that triggers a capture.
pub fn capture_shortcut() -> (s: String)
    ensures
        s@ == "ctrl+alt+s"@,
{
    String::from_str("ctrl+alt+s")
}

} // verus!
