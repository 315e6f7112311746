use tray_bridge::bridge::{BridgeState, WindowCommand};
use tray_bridge::events::{collect_actions, translate_event, RawTrayEvent, UiAction};
use tray_bridge::queue::ActionQueue;

#[test]
fn only_primary_click_translates() {
    assert_eq!(translate_event(&RawTrayEvent::Click), Some(UiAction::TrayClick));
    assert_eq!(translate_event(&RawTrayEvent::DoubleClick), None);
    assert_eq!(translate_event(&RawTrayEvent::Enter), None);
    assert_eq!(translate_event(&RawTrayEvent::Move), None);
    assert_eq!(translate_event(&RawTrayEvent::Leave), None);
}

#[test]
fn batch_translation_keeps_order_and_drops_noise() {
    let events = vec![
        RawTrayEvent::Enter,
        RawTrayEvent::Click,
        RawTrayEvent::Move,
        RawTrayEvent::Leave,
        RawTrayEvent::Click,
        RawTrayEvent::DoubleClick,
    ];
    assert_eq!(collect_actions(&events), vec![UiAction::TrayClick, UiAction::TrayClick]);
}

#[test]
fn queue_is_fifo() {
    let mut q = ActionQueue::new();
    assert_eq!(q.len(), 0);
    assert_eq!(q.dequeue(), None);
    q.enqueue(UiAction::TrayClick);
    q.enqueue(UiAction::MinimizeToTray);
    q.enqueue(UiAction::RestoreFromTray);
    assert_eq!(q.len(), 3);
    assert_eq!(q.dequeue(), Some(UiAction::TrayClick));
    assert_eq!(q.dequeue(), Some(UiAction::MinimizeToTray));
    assert_eq!(q.dequeue(), Some(UiAction::RestoreFromTray));
    assert_eq!(q.dequeue(), None);
}

#[test]
fn drain_returns_everything_in_submission_order() {
    let mut q = ActionQueue::new();
    q.enqueue(UiAction::CloseRequested);
    q.enqueue(UiAction::TrayClick);
    assert_eq!(q.drain(), vec![UiAction::CloseRequested, UiAction::TrayClick]);
    assert_eq!(q.len(), 0);
    assert_eq!(q.drain(), Vec::new());
}

#[test]
fn two_rapid_clicks_toggle_twice_back_to_start() {
    // Two clicks drained from the native source within one polling
    // interval become exactly two queued toggles, processed one after
    // another; the window ends where it started.
    let drained = vec![RawTrayEvent::Click, RawTrayEvent::Click];
    let actions = collect_actions(&drained);
    assert_eq!(actions.len(), 2);

    let mut q = ActionQueue::new();
    for a in &actions {
        q.enqueue(*a);
    }
    let queued = q.drain();
    assert_eq!(queued, actions);

    let mut b = BridgeState::new(true);
    let initial = b.flag.visible;
    let cmds = b.apply_actions(&queued);
    assert_eq!(cmds, vec![WindowCommand::HideWindow, WindowCommand::ShowWindow]);
    assert_eq!(b.flag.visible, initial);
}
