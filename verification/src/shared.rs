//! The cross-thread form of the bridge state.
//!
//! The visibility flag is the only state both threads touch, and its
//! invariant demands read-modify-write atomicity: two concurrent toggles
//! must never both observe the pre-toggle value. Here the bridge state
//! sits behind a verified lock, so every action — from the poller's
//! dispatched tray click or from the UI thread's own handlers — runs as
//! one exclusive critical section that updates the flag and computes the
//! matching window command together.

use vstd::prelude::*;
use vstd::rwlock::RwLock;
use vstd::rwlock::RwLockPredicate;

use crate::bridge::BridgeState;
use crate::bridge::CloseResponse;
use crate::bridge::WindowCommand;
use crate::bridge::command_for;
use crate::bridge::run_commands;
use crate::events::UiAction;

verus! {

/// What may sit in the lock: whether a tray exists is decided once, at
/// construction, and no action changes it.
pub struct BridgeInv {
    pub tray_present: bool,
}

impl RwLockPredicate<BridgeState> for BridgeInv {
    open spec fn inv(self, v: BridgeState) -> bool {
        v.tray_present == self.tray_present
    }
}

/// A bridge state that both the poller-fed dispatch and the UI thread's
/// own handlers can drive, one serialized critical section per action.
pub struct SharedBridge {
    lock: RwLock<BridgeState, BridgeInv>,
}

impl SharedBridge {
    /// Whether a native tray existed when the bridge was built.
    pub closed spec fn tray_present(&self) -> bool {
        self.lock.pred().tray_present
    }

    /// A fresh shared bridge; the window starts visible.
    pub fn new(tray_present: bool) -> (r: SharedBridge)
        ensures
            r.tray_present() == tray_present,
    {
        let st = BridgeState::new(tray_present);
        SharedBridge { lock: RwLock::new(st, Ghost(BridgeInv { tray_present })) }
    }

    /// Applies one action as one critical section. The returned command
    /// is the exact one for the flag value the section observed: no other
    /// actor can read or write the flag between that read and the write.
    pub fn dispatch(&self, action: UiAction) -> (cmd: WindowCommand)
        ensures
            exists|was_visible: bool|
                cmd == command_for(self.tray_present(), was_visible, action),
    {
        let (mut st, handle) = self.lock.acquire_write();
        let ghost was_visible = st.flag.visible;
        let cmd = st.handle_action(action);
        handle.release_write(st);
        proof {
            assert(cmd == command_for(self.tray_present(), was_visible, action));
        }
        cmd
    }

    /// Intercepts a close request under the same serialization. With a
    /// tray the close becomes a hide and the process keeps running;
    /// without one the window is untouched and the default close stands.
    pub fn close_requested(&self) -> (r: (WindowCommand, CloseResponse))
        ensures
            self.tray_present() ==> r.1 == CloseResponse::KeepWindowShown,
            !self.tray_present() ==> r.1 == CloseResponse::CloseWindow && r.0
                == WindowCommand::NoChange,
            exists|was_visible: bool|
                r.0 == command_for(self.tray_present(), was_visible, UiAction::CloseRequested),
    {
        let (mut st, handle) = self.lock.acquire_write();
        let ghost was_visible = st.flag.visible;
        let out = st.close_requested();
        handle.release_write(st);
        proof {
            assert(out.0 == command_for(self.tray_present(), was_visible, UiAction::CloseRequested));
        }
        out
    }

    /// Drains one batch through the bridge inside a single critical
    /// section: the actions run in order, one command each, with no
    /// other actor interleaved.
    pub fn dispatch_all(&self, actions: &Vec<UiAction>) -> (cmds: Vec<WindowCommand>)
        ensures
            cmds@.len() == actions@.len(),
            exists|was_visible: bool|
                cmds@ == run_commands(self.tray_present(), was_visible, actions@),
    {
        let (mut st, handle) = self.lock.acquire_write();
        let ghost was_visible = st.flag.visible;
        let cmds = st.apply_actions(actions);
        handle.release_write(st);
        proof {
            assert(cmds@ == run_commands(self.tray_present(), was_visible, actions@));
        }
        cmds
    }

    /// Reads the flag under the lock.
    pub fn is_visible(&self) -> bool {
        let read_handle = self.lock.acquire_read();
        let visible = read_handle.borrow().flag.visible;
        read_handle.release_read();
        visible
    }
}

} // verus!
