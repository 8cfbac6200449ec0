//! Event routing: pure tables from tray, menu, shortcut and window events to
//! shell actions, and the static description of the tray menu.

use vstd::prelude::*;

verus! {

/// What the shell does in response to a routed event.
#[derive(Clone, Copy, Debug, PartialEq, Eq, Structural)]
pub enum ShellAction {
    /// Reveal the main surface and give it focus.
    ShowMain,
    /// Reveal and focus the main surface, then navigate it to the new-entry
    /// view.
    ShowNewEntry,
    /// Terminate the process.
    Quit,
    /// Do nothing.
    Ignore,
}

/// Mouse button of a tray-icon click.
#[derive(Clone, Copy, Debug, PartialEq, Eq, Structural)]
pub enum TrayButton {
    Left,
    Right,
    Middle,
}

/// Whether the button was released or pressed.
#[derive(Clone, Copy, Debug, PartialEq, Eq, Structural)]
pub enum TrayButtonState {
    Up,
    Down,
}

/// A tray-icon event, reduced to what the router inspects: a click with its
/// button and button state, or anything else (enter, move, leave, ...).
#[derive(Clone, Copy, Debug, PartialEq, Eq, Structural)]
pub enum TrayEvent {
    Click { button: TrayButton, state: TrayButtonState },
    Other,
}

/// State of the registered global shortcut.
#[derive(Clone, Copy, Debug, PartialEq, Eq, Structural)]
pub enum ShortcutState {
    Pressed,
    Released,
}

/// A window event, reduced to what the router inspects.
#[derive(Clone, Copy, Debug, PartialEq, Eq, Structural)]
pub enum WindowEventKind {
    CloseRequested,
    Other,
}

/// How the shell answers a window event.
#[derive(Clone, Copy, Debug, PartialEq, Eq, Structural)]
pub enum CloseResponse {
    /// Hide the surface and suppress the default close.
    HideAndPreventClose,
    /// Let the event take its default course.
    Proceed,
}

/// Dispatch table of the tray menu, by stable item identifier: `open` reveals
/// the main surface, `new_entry` also navigates it, `quit` terminates, and
/// every other identifier (the separator among them) does nothing.
pub open spec fn menu_action_spec(id: Seq<char>) -> ShellAction {
    if id == "open"@ {
        ShellAction::ShowMain
    } else if id == "new_entry"@ {
        ShellAction::ShowNewEntry
    } else if id == "quit"@ {
        ShellAction::Quit
    } else {
        ShellAction::Ignore
    }
}

/// Route a tray-menu click by its item identifier.
pub fn menu_action(id: &str) -> (action: ShellAction)
    ensures
        action == menu_action_spec(id@),
{
    let id_owned: String = id.to_owned();
    if id_owned == "open".to_owned() {
        ShellAction::ShowMain
    } else if id_owned == "new_entry".to_owned() {
        ShellAction::ShowNewEntry
    } else if id_owned == "quit".to_owned() {
        ShellAction::Quit
    } else {
        ShellAction::Ignore
    }
}

/// Only a left-button release over the tray icon reveals the main surface;
/// every other tray event is ignored.
pub open spec fn tray_action_spec(event: TrayEvent) -> ShellAction {
    match event {
        TrayEvent::Click { button: TrayButton::Left, state: TrayButtonState::Up } => ShellAction::ShowMain,
        _ => ShellAction::Ignore,
    }
}

/// Route a tray-icon event.
pub fn tray_action(event: &TrayEvent) -> (action: ShellAction)
    ensures
        action == tray_action_spec(*event),
{
    match event {
        TrayEvent::Click { button: TrayButton::Left, state: TrayButtonState::Up } => ShellAction::ShowMain,
        _ => ShellAction::Ignore,
    }
}

/// The global shortcut acts only on its press, and only when the event
/// carries the registered combination; it then opens the new-entry view.
pub open spec fn shortcut_action_spec(state: ShortcutState, is_registered: bool) -> ShellAction {
    if state is Pressed && is_registered {
        ShellAction::ShowNewEntry
    } else {
        ShellAction::Ignore
    }
}

/// Route a global-shortcut event. `is_registered` says whether the event's
/// combination equals the one combination this shell registers.
pub fn shortcut_action(state: &ShortcutState, is_registered: bool) -> (action: ShellAction)
    ensures
        action == shortcut_action_spec(*state, is_registered),
{
    match state {
        ShortcutState::Pressed => if is_registered {
            ShellAction::ShowNewEntry
        } else {
            ShellAction::Ignore
        },
        ShortcutState::Released => ShellAction::Ignore,
    }
}

/// A close request on the main surface never terminates the process: it is
/// answered by hiding the surface and suppressing the default close. All
/// other window events take their default course.
pub open spec fn close_response_spec(event: WindowEventKind) -> CloseResponse {
    match event {
        WindowEventKind::CloseRequested => CloseResponse::HideAndPreventClose,
        WindowEventKind::Other => CloseResponse::Proceed,
    }
}

/// Route a window event.
pub fn close_response(event: &WindowEventKind) -> (response: CloseResponse)
    ensures
        response == close_response_spec(*event),
{
    match event {
        WindowEventKind::CloseRequested => CloseResponse::HideAndPreventClose,
        WindowEventKind::Other => CloseResponse::Proceed,
    }
}

/// One entry of the tray menu: its stable identifier, its visible label, and
/// whether it can be clicked.
#[derive(Debug)]
pub struct MenuEntry {
    pub id: String,
    pub label: String,
    pub enabled: bool,
}

/// The static tray menu: open, new-entry, a disabled separator, quit.
pub fn tray_menu_entries() -> (entries: Vec<MenuEntry>)
    ensures
        entries@.len() == 4,
        entries@[0].id@ == "open"@ && entries@[0].label@ == "Open EchoVault"@ && entries@[0].enabled,
        entries@[1].id@ == "new_entry"@ && entries@[1].label@ == "New Entry"@ && entries@[1].enabled,
        entries@[2].id@ == "sep"@ && entries@[2].label@ == "---"@ && !entries@[2].enabled,
        entries@[3].id@ == "quit"@ && entries@[3].label@ == "Quit"@ && entries@[3].enabled,
{
    let mut entries: Vec<MenuEntry> = Vec::new();
    entries.push(
        (MenuEntry { id: "open".to_owned(), label: "Open EchoVault".to_owned(), enabled: true }),
    );
    entries.push(
        (MenuEntry { id: "new_entry".to_owned(), label: "New Entry".to_owned(), enabled: true }),
    );
    entries.push((MenuEntry { id: "sep".to_owned(), label: "---".to_owned(), enabled: false }));
    entries.push((MenuEntry { id: "quit".to_owned(), label: "Quit".to_owned(), enabled: true }));
    entries
}

/// Identifier of the main webview surface.
pub fn main_window_label() -> (label: &'static str)
    ensures
        label@ == "main"@,
{
    "main"
}

/// The one global shortcut this shell registers, bound to the new-entry
/// action.
pub fn new_entry_shortcut() -> (keys: &'static str)
    ensures
        keys@ == "CommandOrControl+Shift+E"@,
{
    "CommandOrControl+Shift+E"
}

/// Script that navigates the main surface to the new-entry view.
pub fn new_entry_navigation_script() -> (script: &'static str)
    ensures
        script@ == "window.location.href = '/new'"@,
{
    "window.location.href = '/new'"
}

} // verus!
