use std::sync::Arc;

use tray_bridge::bridge::{CloseResponse, WindowCommand};
use tray_bridge::events::UiAction;
use tray_bridge::shared::SharedBridge;

#[test]
fn shared_bridge_serializes_each_actor() {
    let b = SharedBridge::new(true);
    assert!(b.is_visible());
    assert_eq!(b.dispatch(UiAction::TrayClick), WindowCommand::HideWindow);
    assert!(!b.is_visible());
    assert_eq!(b.dispatch(UiAction::RestoreFromTray), WindowCommand::ShowWindow);
    assert_eq!(b.dispatch(UiAction::MinimizeToTray), WindowCommand::HideWindow);
    assert_eq!(b.dispatch(UiAction::TrayClick), WindowCommand::ShowWindow);
    let (cmd, resp) = b.close_requested();
    assert_eq!(cmd, WindowCommand::HideWindow);
    assert_eq!(resp, CloseResponse::KeepWindowShown);
    assert!(!b.is_visible());
}

#[test]
fn shared_bridge_without_tray_stays_default() {
    let b = SharedBridge::new(false);
    assert_eq!(b.dispatch(UiAction::MinimizeToTray), WindowCommand::NoChange);
    assert_eq!(b.dispatch(UiAction::RestoreFromTray), WindowCommand::NoChange);
    let (cmd, resp) = b.close_requested();
    assert_eq!(cmd, WindowCommand::NoChange);
    assert_eq!(resp, CloseResponse::CloseWindow);
    assert!(b.is_visible());
}

#[test]
fn shared_bridge_batch_matches_single_steps() {
    let batch = SharedBridge::new(true);
    let single = SharedBridge::new(true);
    let actions = vec![
        UiAction::TrayClick,
        UiAction::TrayClick,
        UiAction::MinimizeToTray,
        UiAction::RestoreFromTray,
    ];
    let cmds = batch.dispatch_all(&actions);
    let one_by_one: Vec<_> = actions.iter().map(|a| single.dispatch(*a)).collect();
    assert_eq!(cmds, one_by_one);
    assert_eq!(batch.is_visible(), single.is_visible());
}

#[test]
fn toggles_lose_no_update() {
    // Four actors sharing one bridge handle: every toggle is observed,
    // so an even total always returns to the initial visibility.
    let b = Arc::new(SharedBridge::new(true));
    let actors: Vec<Arc<SharedBridge>> = (0..4).map(|_| Arc::clone(&b)).collect();
    for round in 0..25 {
        for actor in &actors {
            let before = actor.is_visible();
            let cmd = actor.dispatch(UiAction::TrayClick);
            let expected = if before { WindowCommand::HideWindow } else { WindowCommand::ShowWindow };
            assert_eq!(cmd, expected, "round {}", round);
        }
    }
    // 100 toggles in all: back where it started.
    assert!(b.is_visible());
}
