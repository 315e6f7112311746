//! The visibility state machine shared by every actor that changes
//! window visibility.
//!
//! Four actors drive the same flag: the tray-click action dispatched by
//! the poller, the minimize and restore buttons, and the interception of
//! the window-close request. Each actor resolves to at most one toggle of
//! the flag, computed and applied as one step; the shell is expected to
//! serialize calls into this state (one mutex around it) and to apply the
//! returned window command together with the flag update, never one
//! without the other.

use vstd::prelude::*;

use crate::events::UiAction;

verus! {

/// The shared "main window is currently visible" flag.
pub struct VisibilityFlag {
    pub visible: bool,
}

/// The value of a visibility flag after `n` toggles.
pub open spec fn after_toggles(init: bool, n: nat) -> bool
    decreases n,
{
    if n == 0 {
        init
    } else {
        !after_toggles(init, (n - 1) as nat)
    }
}

impl VisibilityFlag {
    /// A window starts out shown.
    pub fn new() -> (r: VisibilityFlag)
        ensures
            r.visible,
    {
        VisibilityFlag { visible: true }
    }

    /// One atomic toggle: the flag always flips, so no caller can observe
    /// the pre-toggle value without its own toggle being counted.
    pub fn toggle(&mut self) -> (now: bool)
        ensures
            final(self).visible == !old(self).visible,
            now == final(self).visible,
    {
        self.visible = !self.visible;
        self.visible
    }
}

/// Toggling a visibility flag `n` times from any initial value leaves it
/// equal to the initial value exactly when `n` is even: no sequence of
/// serialized toggles can lose an update.
pub proof fn lemma_toggle_parity(init: bool, n: nat)
    ensures
        after_toggles(init, n) == (init != (n % 2 == 1)),
    decreases n,
{
    if n > 0 {
        lemma_toggle_parity(init, (n - 1) as nat);
    }
}

/// What the shell must do to the native window after an action.
#[derive(Clone, Copy, Debug, PartialEq, Eq, Structural)]
pub enum WindowCommand {
    ShowWindow,
    HideWindow,
    NoChange,
}

/// The answer to an intercepted close request.
#[derive(Clone, Copy, Debug, PartialEq, Eq, Structural)]
pub enum CloseResponse {
    /// Treat the close as a hide: the process keeps running.
    KeepWindowShown,
    /// Let the default close behavior destroy the window.
    CloseWindow,
}

/// The flag value after one action. Without a tray every action leaves
/// visibility alone: the tray-only actions are no-ops and a close request
/// falls through to the default behavior. With a tray, a tray click
/// toggles, minimize and close interception leave the window hidden, and
/// restore leaves it shown.
pub open spec fn visibility_after(tray_present: bool, visible: bool, action: UiAction) -> bool {
    if !tray_present {
        visible
    } else {
        match action {
            UiAction::TrayClick => !visible,
            UiAction::MinimizeToTray => false,
            UiAction::RestoreFromTray => true,
            UiAction::CloseRequested => false,
        }
    }
}

/// The window command that accompanies one action: exactly the show or
/// hide that moves the window to the new flag value, and no command when
/// the flag does not move.
pub open spec fn command_for(tray_present: bool, visible: bool, action: UiAction) -> WindowCommand {
    if visibility_after(tray_present, visible, action) == visible {
        WindowCommand::NoChange
    } else if visibility_after(tray_present, visible, action) {
        WindowCommand::ShowWindow
    } else {
        WindowCommand::HideWindow
    }
}

/// The flag value after a whole sequence of actions, applied in order.
pub open spec fn run_visibility(tray_present: bool, visible: bool, actions: Seq<UiAction>) -> bool
    decreases actions.len(),
{
    if actions.len() == 0 {
        visible
    } else {
        run_visibility(
            tray_present,
            visibility_after(tray_present, visible, actions[0]),
            actions.drop_first(),
        )
    }
}

/// The window commands issued along a sequence of actions, one per
/// action, in order.
pub open spec fn run_commands(tray_present: bool, visible: bool, actions: Seq<UiAction>) -> Seq<
    WindowCommand,
>
    decreases actions.len(),
{
    if actions.len() == 0 {
        Seq::empty()
    } else {
        seq![command_for(tray_present, visible, actions[0])] + run_commands(
            tray_present,
            visibility_after(tray_present, visible, actions[0]),
            actions.drop_first(),
        )
    }
}

/// How many of the actions in the sequence actually flip the flag.
pub open spec fn toggles_performed(tray_present: bool, visible: bool, actions: Seq<UiAction>) -> nat
    decreases actions.len(),
{
    if actions.len() == 0 {
        0
    } else {
        (if visibility_after(tray_present, visible, actions[0]) != visible {
            1nat
        } else {
            0nat
        }) + toggles_performed(
            tray_present,
            visibility_after(tray_present, visible, actions[0]),
            actions.drop_first(),
        )
    }
}

/// Any interleaving of the four actors is a sequence of serialized
/// toggles: the flag after the whole run equals the initial value toggled
/// once per action that flipped it, so with `lemma_toggle_parity` the
/// final value is the initial one exactly when an even number of toggles
/// was performed. Because every actor runs its action as one exclusive
/// critical section of the shared lock, a concurrent execution's actions
/// form exactly one such sequence — none is lost, none observes a stale
/// flag — and this law gives its final flag value.
pub proof fn lemma_run_is_toggles(tray_present: bool, visible: bool, actions: Seq<UiAction>)
    ensures
        run_visibility(tray_present, visible, actions) == after_toggles(
            visible,
            toggles_performed(tray_present, visible, actions),
        ),
    decreases actions.len(),
{
    if actions.len() > 0 {
        let v1 = visibility_after(tray_present, visible, actions[0]);
        lemma_run_is_toggles(tray_present, v1, actions.drop_first());
        lemma_after_toggles_shift(visible, v1, toggles_performed(tray_present, v1, actions.drop_first()));
    }
}

/// Helper: toggling from `v1` is the same as toggling once more from
/// `visible` when `v1` is `visible` flipped, and the same count when it
/// is `visible` itself.
proof fn lemma_after_toggles_shift(visible: bool, v1: bool, n: nat)
    ensures
        v1 == visible ==> after_toggles(v1, n) == after_toggles(visible, n),
        v1 == !visible ==> after_toggles(v1, n) == after_toggles(visible, n + 1),
    decreases n,
{
    if n == 0 {
        assert(after_toggles(visible, 1) == !after_toggles(visible, 0));
    } else {
        lemma_after_toggles_shift(visible, v1, (n - 1) as nat);
        assert(after_toggles(v1, n) == !after_toggles(v1, (n - 1) as nat));
        assert(after_toggles(visible, n + 1) == !after_toggles(visible, n));
        assert(after_toggles(visible, n) == !after_toggles(visible, (n - 1) as nat));
    }
}

/// A run of `n` tray clicks with a tray present performs exactly `n`
/// toggles, so it returns to the initial visibility exactly when `n` is
/// even.
pub proof fn lemma_click_run_parity(visible: bool, actions: Seq<UiAction>)
    requires
        forall|i: int| 0 <= i < actions.len() ==> actions[i] == UiAction::TrayClick,
    ensures
        run_visibility(true, visible, actions) == (visible != (actions.len() % 2 == 1)),
    decreases actions.len(),
{
    if actions.len() == 0 {
    } else {
        assert(actions[0] == UiAction::TrayClick);
        assert(forall|i: int|
            0 <= i < actions.drop_first().len() ==> actions.drop_first()[i] == actions[i + 1]);
        lemma_click_run_parity(!visible, actions.drop_first());
    }
}

/// The bridge's whole state: whether a native tray exists, and the shared
/// visibility flag. The shell constructs it once, after the tray
/// registration attempt, and serializes all access to it.
pub struct BridgeState {
    pub tray_present: bool,
    pub flag: VisibilityFlag,
}

impl BridgeState {
    /// A fresh bridge: the window starts visible whether or not the tray
    /// registration succeeded.
    pub fn new(tray_present: bool) -> (r: BridgeState)
        ensures
            r.tray_present == tray_present,
            r.flag.visible,
    {
        BridgeState { tray_present, flag: VisibilityFlag::new() }
    }

    /// Applies one action as a single step: the flag and the returned
    /// window command move together. Without a tray the tray-only actions
    /// change nothing and command nothing.
    pub fn handle_action(&mut self, action: UiAction) -> (cmd: WindowCommand)
        ensures
            final(self).tray_present == old(self).tray_present,
            final(self).flag.visible == visibility_after(
                old(self).tray_present,
                old(self).flag.visible,
                action,
            ),
            cmd == command_for(old(self).tray_present, old(self).flag.visible, action),
    {
        if !self.tray_present {
            return WindowCommand::NoChange;
        }
        match action {
            UiAction::TrayClick => {
                let now = self.flag.toggle();
                if now {
                    WindowCommand::ShowWindow
                } else {
                    WindowCommand::HideWindow
                }
            },
            UiAction::MinimizeToTray | UiAction::CloseRequested => {
                if self.flag.visible {
                    self.flag.visible = false;
                    WindowCommand::HideWindow
                } else {
                    WindowCommand::NoChange
                }
            },
            UiAction::RestoreFromTray => {
                if self.flag.visible {
                    WindowCommand::NoChange
                } else {
                    self.flag.visible = true;
                    WindowCommand::ShowWindow
                }
            },
        }
    }

    /// Intercepts a close request. With a tray the close is downgraded to
    /// a hide and the process keeps running; without one the window state
    /// is untouched and the default close behavior is allowed.
    pub fn close_requested(&mut self) -> (r: (WindowCommand, CloseResponse))
        ensures
            final(self).tray_present == old(self).tray_present,
            final(self).flag.visible == visibility_after(
                old(self).tray_present,
                old(self).flag.visible,
                UiAction::CloseRequested,
            ),
            r.0 == command_for(old(self).tray_present, old(self).flag.visible, UiAction::CloseRequested),
            old(self).tray_present ==> !final(self).flag.visible && r.1
                == CloseResponse::KeepWindowShown,
            !old(self).tray_present ==> final(self).flag.visible == old(self).flag.visible && r.1
                == CloseResponse::CloseWindow,
    {
        let cmd = self.handle_action(UiAction::CloseRequested);
        if self.tray_present {
            (cmd, CloseResponse::KeepWindowShown)
        } else {
            (cmd, CloseResponse::CloseWindow)
        }
    }

    /// Drains a batch of actions in arrival order, one atomic step each,
    /// and returns the window command of every action: one command per
    /// action, never two at once, never one dropped.
    pub fn apply_actions(&mut self, actions: &Vec<UiAction>) -> (cmds: Vec<WindowCommand>)
        ensures
            final(self).tray_present == old(self).tray_present,
            final(self).flag.visible == run_visibility(
                old(self).tray_present,
                old(self).flag.visible,
                actions@,
            ),
            cmds@ == run_commands(old(self).tray_present, old(self).flag.visible, actions@),
            cmds@.len() == actions@.len(),
    {
        let mut cmds: Vec<WindowCommand> = Vec::new();
        let mut i: usize = 0;
        proof {
            assert(actions@.skip(0) =~= actions@);
            assert(cmds@ + run_commands(self.tray_present, self.flag.visible, actions@)
                =~= run_commands(self.tray_present, self.flag.visible, actions@));
            lemma_run_commands_len(self.tray_present, self.flag.visible, actions@);
        }
        while i < actions.len()
            invariant
                i <= actions@.len(),
                self.tray_present == old(self).tray_present,
                run_visibility(old(self).tray_present, old(self).flag.visible, actions@)
                    == run_visibility(self.tray_present, self.flag.visible, actions@.skip(i as int)),
                run_commands(old(self).tray_present, old(self).flag.visible, actions@) == cmds@
                    + run_commands(self.tray_present, self.flag.visible, actions@.skip(i as int)),
                cmds@.len() == i,
            decreases actions@.len() - i,
        {
            proof {
                assert(actions@.skip(i as int)[0] == actions@[i as int]);
                assert(actions@.skip(i as int).drop_first() =~= actions@.skip(i as int + 1));
            }
            let ghost pre = *self;
            let cmd = self.handle_action(actions[i]);
            cmds.push(cmd);
            proof {
                assert(cmds@ + run_commands(self.tray_present, self.flag.visible, actions@.skip(i as int + 1))
                    =~= cmds@.drop_last() + (seq![cmd] + run_commands(
                    self.tray_present,
                    self.flag.visible,
                    actions@.skip(i as int + 1),
                )));
            }
            i = i + 1;
        }
        proof {
            assert(actions@.skip(actions@.len() as int) =~= Seq::<UiAction>::empty());
            assert(cmds@ + Seq::<WindowCommand>::empty() =~= cmds@);
        }
        cmds
    }
}

/// Helper: one command is issued per action.
proof fn lemma_run_commands_len(tray_present: bool, visible: bool, actions: Seq<UiAction>)
    ensures
        run_commands(tray_present, visible, actions).len() == actions.len(),
    decreases actions.len(),
{
    if actions.len() > 0 {
        lemma_run_commands_len(
            tray_present,
            visibility_after(tray_present, visible, actions[0]),
            actions.drop_first(),
        );
    }
}

} // verus!
