use tray_bridge::bridge::{BridgeState, CloseResponse, WindowCommand};
use tray_bridge::events::UiAction;

#[test]
fn window_starts_visible() {
    assert!(BridgeState::new(true).flag.visible);
    assert!(BridgeState::new(false).flag.visible);
}

#[test]
fn tray_click_toggles_visibility() {
    let mut b = BridgeState::new(true);
    assert_eq!(b.handle_action(UiAction::TrayClick), WindowCommand::HideWindow);
    assert!(!b.flag.visible);
    assert_eq!(b.handle_action(UiAction::TrayClick), WindowCommand::ShowWindow);
    assert!(b.flag.visible);
}

#[test]
fn toggle_parity_over_many_actors() {
    // Five toggles from an interleaving of the actors that all flip the
    // flag: visible -> hidden -> visible -> hidden -> visible -> hidden.
    let mut b = BridgeState::new(true);
    let actions = vec![
        UiAction::TrayClick,
        UiAction::RestoreFromTray,
        UiAction::MinimizeToTray,
        UiAction::TrayClick,
        UiAction::CloseRequested,
    ];
    let cmds = b.apply_actions(&actions);
    assert_eq!(cmds.len(), actions.len());
    assert_eq!(
        cmds,
        vec![
            WindowCommand::HideWindow,
            WindowCommand::ShowWindow,
            WindowCommand::HideWindow,
            WindowCommand::ShowWindow,
            WindowCommand::HideWindow,
        ]
    );
    // initial XOR (5 mod 2 == 1)
    assert!(!b.flag.visible);

    // An even number of toggles comes back to the initial value.
    let mut b2 = BridgeState::new(true);
    b2.apply_actions(&vec![UiAction::TrayClick; 4]);
    assert!(b2.flag.visible);
}

#[test]
fn tray_only_actions_are_noops_without_tray() {
    let mut b = BridgeState::new(false);
    assert_eq!(b.handle_action(UiAction::MinimizeToTray), WindowCommand::NoChange);
    assert!(b.flag.visible);
    assert_eq!(b.handle_action(UiAction::RestoreFromTray), WindowCommand::NoChange);
    assert!(b.flag.visible);
    assert_eq!(b.handle_action(UiAction::TrayClick), WindowCommand::NoChange);
    assert!(b.flag.visible);
    let (cmd, resp) = b.close_requested();
    assert_eq!(cmd, WindowCommand::NoChange);
    assert_eq!(resp, CloseResponse::CloseWindow);
    assert!(b.flag.visible);
}

#[test]
fn close_with_tray_hides_and_keeps_running() {
    let mut b = BridgeState::new(true);
    let (cmd, resp) = b.close_requested();
    assert_eq!(cmd, WindowCommand::HideWindow);
    assert_eq!(resp, CloseResponse::KeepWindowShown);
    assert!(!b.flag.visible);
}

#[test]
fn close_without_tray_allows_normal_termination() {
    let mut b = BridgeState::new(false);
    let (cmd, resp) = b.close_requested();
    assert_eq!(cmd, WindowCommand::NoChange);
    assert_eq!(resp, CloseResponse::CloseWindow);
    assert!(b.flag.visible);
}

#[test]
fn minimize_and_restore_move_flag_and_window_together() {
    let mut b = BridgeState::new(true);
    assert_eq!(b.handle_action(UiAction::MinimizeToTray), WindowCommand::HideWindow);
    assert!(!b.flag.visible);
    // already hidden: nothing to do
    assert_eq!(b.handle_action(UiAction::MinimizeToTray), WindowCommand::NoChange);
    assert!(!b.flag.visible);
    assert_eq!(b.handle_action(UiAction::RestoreFromTray), WindowCommand::ShowWindow);
    assert!(b.flag.visible);
    assert_eq!(b.handle_action(UiAction::RestoreFromTray), WindowCommand::NoChange);
    assert!(b.flag.visible);
}
