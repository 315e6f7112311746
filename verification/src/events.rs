//! Raw tray events and their translation into the bridge's action
//! vocabulary.
//!
//! The native event source delivers one of a handful of event kinds; the
//! bridge acts only on the primary activation (a click on the tray icon)
//! and discards the rest. The poller that drains the native source runs
//! outside the library; it hands the drained events here as plain values.

use vstd::prelude::*;

verus! {

/// How long the poller sleeps between two attempts to receive a raw
/// event, in milliseconds. A tunable bound on polling CPU usage.
pub const DEFAULT_POLL_INTERVAL_MS: u64 = 50;

/// One raw event from the native tray event source. Payloads (cursor
/// position, button identity) are not retained: the bridge never reads
/// them.
#[derive(Clone, Copy, Debug, PartialEq, Eq, Structural)]
pub enum RawTrayEvent {
    /// Primary activation: a click on the tray icon.
    Click,
    DoubleClick,
    Enter,
    Move,
    Leave,
}

/// An action to be executed on the UI thread.
#[derive(Clone, Copy, Debug, PartialEq, Eq, Structural)]
pub enum UiAction {
    /// Toggle window visibility (sent by the tray poller).
    TrayClick,
    /// Hide the window to the tray (sent by the minimize button).
    MinimizeToTray,
    /// Show the window again (sent by the restore button).
    RestoreFromTray,
    /// The user asked to close the window.
    CloseRequested,
}

/// Which action, if any, a raw tray event maps to: only the primary
/// click produces one.
pub open spec fn action_for_event(e: RawTrayEvent) -> Option<UiAction> {
    match e {
        RawTrayEvent::Click => Some(UiAction::TrayClick),
        _ => None,
    }
}

/// Translates one raw event; every kind but the primary click is
/// discarded.
pub fn translate_event(e: &RawTrayEvent) -> (r: Option<UiAction>)
    ensures
        r == action_for_event(*e),
{
    match e {
        RawTrayEvent::Click => Some(UiAction::TrayClick),
        _ => None,
    }
}

/// The actions produced by a batch of raw events, in arrival order.
pub open spec fn actions_for_events(es: Seq<RawTrayEvent>) -> Seq<UiAction>
    decreases es.len(),
{
    if es.len() == 0 {
        Seq::empty()
    } else {
        match action_for_event(es[0]) {
            Some(a) => seq![a] + actions_for_events(es.drop_first()),
            None => actions_for_events(es.drop_first()),
        }
    }
}

/// Translates a drained batch of raw events, keeping arrival order, one
/// action per primary click and nothing for the other kinds.
pub fn collect_actions(events: &Vec<RawTrayEvent>) -> (r: Vec<UiAction>)
    ensures
        r@ == actions_for_events(events@),
{
    let mut out: Vec<UiAction> = Vec::new();
    let mut i: usize = 0;
    proof {
        assert(events@.skip(0) =~= events@);
        assert(out@ + actions_for_events(events@) =~= actions_for_events(events@));
    }
    while i < events.len()
        invariant
            i <= events@.len(),
            actions_for_events(events@) == out@ + actions_for_events(events@.skip(i as int)),
        decreases events@.len() - i,
    {
        proof {
            assert(events@.skip(i as int)[0] == events@[i as int]);
            assert(events@.skip(i as int).drop_first() =~= events@.skip(i as int + 1));
        }
        match translate_event(&events[i]) {
            Some(a) => {
                out.push(a);
                proof {
                    assert(out@ + actions_for_events(events@.skip(i as int + 1)) =~= actions_for_events(
                        events@,
                    ));
                }
            },
            None => {},
        }
        i = i + 1;
    }
    proof {
        assert(events@.skip(events@.len() as int) =~= Seq::<RawTrayEvent>::empty());
        assert(out@ + Seq::<UiAction>::empty() =~= out@);
    }
    out
}

} // verus!
