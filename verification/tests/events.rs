use border_anim::event_hook::handle_win_event;
use border_anim::event_hook::handle_win_event_main;
use border_anim::event_hook::rearm_watcher;
use border_anim::event_hook::BorderAction;
use border_anim::event_hook::BorderState;
use border_anim::event_hook::WatcherAction;
use border_anim::event_hook::WatcherState;
use border_anim::event_hook::WinEvent;
use border_anim::AnimationError;

#[test]
fn location_change_requests_redraw() {
    let r = handle_win_event(WinEvent::LocationChange, false, true, BorderState::Tracking)
        .unwrap();
    assert_eq!(r.action, BorderAction::UpdateRedraw);
    assert_eq!(r.next_state, BorderState::Tracking);
    assert!(!r.trigger_fade);
}

#[test]
fn foreground_repositions_and_triggers_fade() {
    let r = handle_win_event(WinEvent::Foreground, false, true, BorderState::Tracking).unwrap();
    assert_eq!(r.action, BorderAction::Reposition);
    assert_eq!(r.next_state, BorderState::Tracking);
    assert!(r.trigger_fade);
}

#[test]
fn hide_and_show_toggle_visibility() {
    let hide = handle_win_event(WinEvent::ObjectHide, false, true, BorderState::Tracking).unwrap();
    assert_eq!(hide.action, BorderAction::HideWindow);
    assert_eq!(hide.next_state, BorderState::Hidden);

    let show = handle_win_event(WinEvent::ObjectShow, false, true, BorderState::Hidden).unwrap();
    assert_eq!(show.action, BorderAction::ShowWindow);
    assert_eq!(show.next_state, BorderState::Tracking);
}

#[test]
fn destroy_tears_down() {
    let r = handle_win_event(WinEvent::ObjectDestroy, false, true, BorderState::Tracking)
        .unwrap();
    assert_eq!(r.action, BorderAction::DestroyWindow);
    assert_eq!(r.next_state, BorderState::Destroyed);
}

#[test]
fn destroyed_is_terminal() {
    for ev in [
        WinEvent::LocationChange,
        WinEvent::Foreground,
        WinEvent::ObjectHide,
        WinEvent::ObjectShow,
        WinEvent::ObjectDestroy,
        WinEvent::ObjectCreate,
        WinEvent::Other,
    ] {
        let r = handle_win_event(ev, false, true, BorderState::Destroyed).unwrap();
        assert_eq!(r.action, BorderAction::Ignore);
        assert_eq!(r.next_state, BorderState::Destroyed);
    }
}

#[test]
fn cursor_object_events_are_ignored_unconditionally() {
    // Even with no border tracked, a cursor-object notification is a no-op,
    // not an error.
    let r = handle_win_event(WinEvent::LocationChange, true, false, BorderState::Tracking)
        .unwrap();
    assert_eq!(r.action, BorderAction::Ignore);
}

#[test]
fn missing_border_is_reported_not_fatal() {
    let r = handle_win_event(WinEvent::LocationChange, false, false, BorderState::Tracking);
    assert_eq!(r, Err(AnimationError::MissingBorder));
}

#[test]
fn unknown_events_are_ignored() {
    let r = handle_win_event(WinEvent::Other, false, true, BorderState::Tracking).unwrap();
    assert_eq!(r.action, BorderAction::Ignore);
    assert_eq!(r.next_state, BorderState::Tracking);
}

#[test]
fn armed_watcher_unhooks_on_visible_creation() {
    let (action, next) =
        handle_win_event_main(WatcherState::Armed, WinEvent::ObjectCreate, true);
    assert_eq!(action, WatcherAction::Unhook);
    assert_eq!(next, WatcherState::Disarmed);
    assert_eq!(rearm_watcher(next), WatcherState::Armed);
}

#[test]
fn watcher_ignores_invisible_or_foreign_events() {
    let (action, next) =
        handle_win_event_main(WatcherState::Armed, WinEvent::ObjectCreate, false);
    assert_eq!(action, WatcherAction::Ignore);
    assert_eq!(next, WatcherState::Armed);

    let (action, next) = handle_win_event_main(WatcherState::Armed, WinEvent::Other, true);
    assert_eq!(action, WatcherAction::Ignore);
    assert_eq!(next, WatcherState::Armed);

    let (action, next) =
        handle_win_event_main(WatcherState::Disarmed, WinEvent::ObjectCreate, true);
    assert_eq!(action, WatcherAction::Ignore);
    assert_eq!(next, WatcherState::Disarmed);
}
