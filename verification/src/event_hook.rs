//! Event dispatch for window-system notifications.
//!
//! The platform delivers a stream of (event-kind, window-handle)
//! notifications, possibly from a thread other than the UI thread. The
//! decisions those notifications trigger are pure: this module maps an event
//! and the border's observed state to the side effect the caller must
//! perform and the border's next state. The caller performs the effect
//! (reposition, show, hide, destroy) on the UI thread and keeps the returned
//! state.

use vstd::prelude::*;

use crate::AnimationError;

verus! {

/// The notification kinds the dispatcher distinguishes.
#[derive(Clone, Copy, Debug, PartialEq, Eq, Structural)]
pub enum WinEvent {
    /// The tracked window moved or resized.
    LocationChange,
    /// The tracked window gained the foreground.
    Foreground,
    /// The tracked window was hidden.
    ObjectHide,
    /// The tracked window was shown.
    ObjectShow,
    /// The tracked window was destroyed.
    ObjectDestroy,
    /// A new top-level window was created (drives the watcher, not the
    /// per-border dispatcher).
    ObjectCreate,
    /// Anything else the platform delivers.
    Other,
}

/// A border's externally observable state. `Destroyed` is terminal.
#[derive(Clone, Copy, Debug, PartialEq, Eq, Structural)]
pub enum BorderState {
    Tracking,
    Hidden,
    Destroyed,
}

/// The side effect the caller must perform for one notification. All of
/// these are non-blocking requests, deferred to the UI thread if the
/// notification arrived elsewhere.
#[derive(Clone, Copy, Debug, PartialEq, Eq, Structural)]
pub enum BorderAction {
    /// Repaint and reposition the border.
    UpdateRedraw,
    /// Reposition the border immediately.
    Reposition,
    /// Hide the border window without destroying its state.
    HideWindow,
    /// Show the border window again.
    ShowWindow,
    /// Tear down the border window and release its state.
    DestroyWindow,
    /// Do nothing.
    Ignore,
}

/// What one notification amounts to: the effect to perform, the border's
/// next state, and whether a fade toward the new focus state should start.
#[derive(Clone, Copy, Debug, PartialEq, Eq, Structural)]
pub struct DispatchOutcome {
    pub action: BorderAction,
    pub next_state: BorderState,
    pub trigger_fade: bool,
}

/// The dispatch table: cursor-object notifications are ignored
/// unconditionally, a destroyed border ignores everything, and otherwise the
/// event selects the effect and the next state. Gaining the foreground asks
/// for an immediate reposition and starts a fade toward the focused
/// appearance.
pub open spec fn dispatch_spec(event: WinEvent, is_cursor_object: bool, state: BorderState)
    -> DispatchOutcome {
    if is_cursor_object {
        DispatchOutcome { action: BorderAction::Ignore, next_state: state, trigger_fade: false }
    } else if state is Destroyed {
        DispatchOutcome { action: BorderAction::Ignore, next_state: state, trigger_fade: false }
    } else {
        match event {
            WinEvent::LocationChange => DispatchOutcome {
                action: BorderAction::UpdateRedraw,
                next_state: state,
                trigger_fade: false,
            },
            WinEvent::Foreground => DispatchOutcome {
                action: BorderAction::Reposition,
                next_state: state,
                trigger_fade: true,
            },
            WinEvent::ObjectHide => DispatchOutcome {
                action: BorderAction::HideWindow,
                next_state: BorderState::Hidden,
                trigger_fade: false,
            },
            WinEvent::ObjectShow => DispatchOutcome {
                action: BorderAction::ShowWindow,
                next_state: BorderState::Tracking,
                trigger_fade: false,
            },
            WinEvent::ObjectDestroy => DispatchOutcome {
                action: BorderAction::DestroyWindow,
                next_state: BorderState::Destroyed,
                trigger_fade: false,
            },
            WinEvent::ObjectCreate => DispatchOutcome {
                action: BorderAction::Ignore,
                next_state: state,
                trigger_fade: false,
            },
            WinEvent::Other => DispatchOutcome {
                action: BorderAction::Ignore,
                next_state: state,
                trigger_fade: false,
            },
        }
    }
}

/// Maps one notification to its outcome. A notification that references a
/// border that is no longer tracked is reported as a missing-border error so
/// the caller can log and ignore it; it never aborts.
pub fn handle_win_event(
    event: WinEvent,
    is_cursor_object: bool,
    border_exists: bool,
    state: BorderState,
) -> (r: Result<DispatchOutcome, AnimationError>)
    ensures
        is_cursor_object ==> r == Ok::<DispatchOutcome, AnimationError>(dispatch_spec(event,
            is_cursor_object, state)),
        !is_cursor_object && !border_exists ==> r == Err::<DispatchOutcome, AnimationError>(
            AnimationError::MissingBorder),
        !is_cursor_object && border_exists ==> r == Ok::<DispatchOutcome, AnimationError>(
            dispatch_spec(event, is_cursor_object, state)),
{
    if is_cursor_object {
        return Ok(DispatchOutcome {
            action: BorderAction::Ignore,
            next_state: state,
            trigger_fade: false,
        });
    }
    if !border_exists {
        return Err(AnimationError::MissingBorder);
    }
    if matches!(state, BorderState::Destroyed) {
        return Ok(DispatchOutcome {
            action: BorderAction::Ignore,
            next_state: state,
            trigger_fade: false,
        });
    }
    let outcome = match event {
        WinEvent::LocationChange => DispatchOutcome {
            action: BorderAction::UpdateRedraw,
            next_state: state,
            trigger_fade: false,
        },
        WinEvent::Foreground => DispatchOutcome {
            action: BorderAction::Reposition,
            next_state: state,
            trigger_fade: true,
        },
        WinEvent::ObjectHide => DispatchOutcome {
            action: BorderAction::HideWindow,
            next_state: BorderState::Hidden,
            trigger_fade: false,
        },
        WinEvent::ObjectShow => DispatchOutcome {
            action: BorderAction::ShowWindow,
            next_state: BorderState::Tracking,
            trigger_fade: false,
        },
        WinEvent::ObjectDestroy => DispatchOutcome {
            action: BorderAction::DestroyWindow,
            next_state: BorderState::Destroyed,
            trigger_fade: false,
        },
        WinEvent::ObjectCreate => DispatchOutcome {
            action: BorderAction::Ignore,
            next_state: state,
            trigger_fade: false,
        },
        WinEvent::Other => DispatchOutcome {
            action: BorderAction::Ignore,
            next_state: state,
            trigger_fade: false,
        },
    };
    Ok(outcome)
}

/// Law: once a border is destroyed, every further notification is ignored
/// and the border stays destroyed.
pub proof fn lemma_destroyed_is_terminal(event: WinEvent, is_cursor_object: bool)
    ensures
        dispatch_spec(event, is_cursor_object, BorderState::Destroyed).next_state
            is Destroyed,
        dispatch_spec(event, is_cursor_object, BorderState::Destroyed).action is Ignore,
{
}

/// The system-wide window-creation watcher: armed while its hook is
/// registered, disarmed between unhooking and re-arming.
#[derive(Clone, Copy, Debug, PartialEq, Eq, Structural)]
pub enum WatcherState {
    Armed,
    Disarmed,
}

/// The side effect one watcher step asks of the caller.
#[derive(Clone, Copy, Debug, PartialEq, Eq, Structural)]
pub enum WatcherAction {
    /// Unregister the creation hook; a fresh one must be armed next.
    Unhook,
    /// Do nothing.
    Ignore,
}

/// The watcher's step rule: an armed watcher that sees a newly created,
/// already visible top-level window unhooks itself and goes disarmed; every
/// other notification leaves it as it is.
pub open spec fn watcher_spec(state: WatcherState, event: WinEvent, window_visible: bool) -> (
    WatcherAction, WatcherState) {
    if state is Armed && event is ObjectCreate && window_visible {
        (WatcherAction::Unhook, WatcherState::Disarmed)
    } else {
        (WatcherAction::Ignore, state)
    }
}

/// One step of the self-renewing one-shot creation watcher. The caller
/// performs the unhook, registers a fresh hook, and then re-arms through
/// [`rearm_watcher`]; the bounded gap between unhook and re-arm is an
/// accepted race, not something to hide.
pub fn handle_win_event_main(state: WatcherState, event: WinEvent, window_visible: bool) -> (r: (
    WatcherAction, WatcherState))
    ensures
        r == watcher_spec(state, event, window_visible),
{
    if matches!(state, WatcherState::Armed) && matches!(event, WinEvent::ObjectCreate)
        && window_visible {
        (WatcherAction::Unhook, WatcherState::Disarmed)
    } else {
        (WatcherAction::Ignore, state)
    }
}

/// Re-arms the watcher once its fresh hook is registered: the atomic
/// transition back to `Armed`.
pub fn rearm_watcher(state: WatcherState) -> (r: WatcherState)
    ensures
        r is Armed,
{
    let _ = state;
    WatcherState::Armed
}

} // verus!
