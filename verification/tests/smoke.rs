use persona_system::{
    FocusObservation, FocusTracker, HarnessTarget, InputBufferState, NiriEvent, NiriTimestamp,
    NiriWindowId, NiriWindowSnapshot, NiriWindows, SystemTarget,
};

fn window(
    id: u64,
    title: &str,
    focused: bool,
    seconds: u64,
    nanos: u32,
) -> NiriWindowSnapshot {
    NiriWindowSnapshot {
        id: NiriWindowId::new(id),
        title: Some(title.to_string()),
        app_id: Some("org.wezfurlong.wezterm".to_string()),
        pid: Some(100),
        workspace_id: Some(1),
        is_focused: focused,
        is_floating: false,
        is_urgent: false,
        focus_timestamp: Some(NiriTimestamp { secs: seconds, nanos }),
    }
}

#[test]
fn focus_observation_protects_owned_window() {
    let target = SystemTarget::niri_window(42);
    let harness = HarnessTarget::new("responder", target);
    let observation = FocusObservation::new(target, true, 7);

    assert!(observation.protects(&harness));
}

#[test]
fn empty_input_buffer_accepts_injection() {
    assert!(InputBufferState::Empty.accepts_injection());
    assert!(!InputBufferState::Unknown.accepts_injection());
}

#[test]
fn niri_windows_observe_target_focus_state() {
    let windows = NiriWindows::new(vec![
        window(10, "Responder", false, 1, 5),
        window(11, "Initiator", true, 2, 9),
    ]);

    let observation = windows
        .observe(SystemTarget::niri_window(11), NiriWindowId::new(11))
        .expect("target observed");

    assert!(observation.focused);
    assert_eq!(observation.generation, 2_000_000_009);
}

#[test]
fn focus_tracker_filters_title_chatter_without_focus_change() {
    let target = SystemTarget::niri_window(10);
    let mut tracker = FocusTracker::new(target, NiriWindowId::new(10));
    tracker.accept(FocusObservation::new(target, false, 1_000_000_005));
    let event = NiriEvent::WindowOpenedOrChanged {
        window: window(10, "Responder ⠙", false, 1, 5),
    };

    assert!(tracker.apply_event(&event).is_empty());
}

#[test]
fn focus_tracker_emits_when_target_focus_changes() {
    let target = SystemTarget::niri_window(10);
    let mut tracker = FocusTracker::new(target, NiriWindowId::new(10));
    tracker.accept(FocusObservation::new(target, false, 1_000_000_005));
    let event = NiriEvent::WindowOpenedOrChanged {
        window: window(10, "Responder", true, 2, 7),
    };

    let observations = tracker.apply_event(&event);

    assert_eq!(observations.len(), 1);
    assert!(observations[0].focused);
    assert_eq!(observations[0].generation, 2_000_000_007);
}

#[test]
fn focus_tracker_uses_workspace_active_window_events() {
    let target = SystemTarget::niri_window(10);
    let windows = NiriWindows::new(vec![window(10, "Responder", false, 1, 5)]);
    let mut tracker = FocusTracker::new(target, NiriWindowId::new(10));
    tracker.accept_window(
        windows
            .window(NiriWindowId::new(10))
            .expect("window exists"),
    );
    let event = NiriEvent::WorkspaceActiveWindowChanged {
        workspace_id: 1,
        active_window_id: Some(NiriWindowId::new(10)),
    };

    let observations = tracker.apply_event(&event);

    assert_eq!(observations.len(), 1);
    assert!(observations[0].focused);
}
