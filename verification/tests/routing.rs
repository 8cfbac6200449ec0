use echovault_shell::routing::{
    close_response, main_window_label, menu_action, new_entry_navigation_script,
    new_entry_shortcut, shortcut_action, tray_action, tray_menu_entries, CloseResponse,
    ShellAction, ShortcutState, TrayButton, TrayButtonState, TrayEvent, WindowEventKind,
};

#[test]
fn menu_ids_route_to_their_actions() {
    assert_eq!(menu_action("open"), ShellAction::ShowMain);
    assert_eq!(menu_action("new_entry"), ShellAction::ShowNewEntry);
    assert_eq!(menu_action("quit"), ShellAction::Quit);
}

#[test]
fn unknown_menu_ids_are_ignored() {
    assert_eq!(menu_action("sep"), ShellAction::Ignore);
    assert_eq!(menu_action(""), ShellAction::Ignore);
    assert_eq!(menu_action("OPEN"), ShellAction::Ignore);
    assert_eq!(menu_action("open "), ShellAction::Ignore);
}

#[test]
fn tray_left_release_shows_main() {
    let event = TrayEvent::Click { button: TrayButton::Left, state: TrayButtonState::Up };
    assert_eq!(tray_action(&event), ShellAction::ShowMain);
}

#[test]
fn other_tray_events_are_ignored() {
    let down = TrayEvent::Click { button: TrayButton::Left, state: TrayButtonState::Down };
    assert_eq!(tray_action(&down), ShellAction::Ignore);
    let right = TrayEvent::Click { button: TrayButton::Right, state: TrayButtonState::Up };
    assert_eq!(tray_action(&right), ShellAction::Ignore);
    let middle = TrayEvent::Click { button: TrayButton::Middle, state: TrayButtonState::Up };
    assert_eq!(tray_action(&middle), ShellAction::Ignore);
    assert_eq!(tray_action(&TrayEvent::Other), ShellAction::Ignore);
}

#[test]
fn shortcut_fires_only_on_registered_press() {
    assert_eq!(
        shortcut_action(&ShortcutState::Pressed, true),
        ShellAction::ShowNewEntry
    );
    assert_eq!(shortcut_action(&ShortcutState::Pressed, false), ShellAction::Ignore);
    assert_eq!(shortcut_action(&ShortcutState::Released, true), ShellAction::Ignore);
    assert_eq!(shortcut_action(&ShortcutState::Released, false), ShellAction::Ignore);
}

#[test]
fn close_request_hides_instead_of_closing() {
    assert_eq!(
        close_response(&WindowEventKind::CloseRequested),
        CloseResponse::HideAndPreventClose
    );
    assert_eq!(close_response(&WindowEventKind::Other), CloseResponse::Proceed);
}

#[test]
fn tray_menu_table() {
    let entries = tray_menu_entries();
    assert_eq!(entries.len(), 4);

    assert_eq!(entries[0].id, "open");
    assert_eq!(entries[0].label, "Open EchoVault");
    assert!(entries[0].enabled);

    assert_eq!(entries[1].id, "new_entry");
    assert_eq!(entries[1].label, "New Entry");
    assert!(entries[1].enabled);

    assert_eq!(entries[2].id, "sep");
    assert_eq!(entries[2].label, "---");
    assert!(!entries[2].enabled);

    assert_eq!(entries[3].id, "quit");
    assert_eq!(entries[3].label, "Quit");
    assert!(entries[3].enabled);
}

#[test]
fn every_enabled_menu_entry_routes_somewhere() {
    for entry in tray_menu_entries() {
        let action = menu_action(&entry.id);
        if entry.enabled {
            assert_ne!(action, ShellAction::Ignore);
        } else {
            assert_eq!(action, ShellAction::Ignore);
        }
    }
}

#[test]
fn shell_constants() {
    assert_eq!(main_window_label(), "main");
    assert_eq!(new_entry_shortcut(), "CommandOrControl+Shift+E");
    assert_eq!(new_entry_navigation_script(), "window.location.href = '/new'");
}
