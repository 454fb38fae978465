use persona_system::niri_focus_actor::ApplyNiriEvent;
use persona_system::{
    FocusObservation, FocusTracker, NiriEvent, NiriFocusActor, NiriTimestamp, NiriWindowId,
    NiriWindowSnapshot, SystemTarget,
};

fn window_event(focused: bool, seconds: u64, nanos: u32, title: &str) -> NiriEvent {
    NiriEvent::WindowOpenedOrChanged {
        window: NiriWindowSnapshot {
            id: NiriWindowId::new(10),
            title: Some(title.to_string()),
            app_id: Some("org.wezfurlong.wezterm".to_string()),
            pid: Some(100),
            workspace_id: Some(1),
            is_focused: focused,
            is_floating: false,
            is_urgent: false,
            focus_timestamp: Some(NiriTimestamp { secs: seconds, nanos }),
        },
    }
}

#[test]
fn niri_focus_cannot_emit_target_chatter_without_focus_change() {
    let target = SystemTarget::niri_window(10);
    let mut tracker = FocusTracker::new(target, NiriWindowId::new(10));
    tracker.accept(FocusObservation::new(target, false, 1_000_000_005));
    let mut focus = NiriFocusActor::from_tracker(tracker);

    let observations = focus.handle_apply(ApplyNiriEvent {
        event: window_event(false, 1, 5, "Responder spinner"),
    });

    assert!(observations.is_empty());
    assert_eq!(focus.applied_event_count(), 1);
    assert_eq!(focus.emitted_observation_count(), 0);
}

#[test]
fn niri_focus_cannot_forget_previous_window_observation_between_messages() {
    let target = SystemTarget::niri_window(10);
    let mut focus = NiriFocusActor::new(target, NiriWindowId::new(10));

    let first = focus.handle_apply(ApplyNiriEvent {
        event: window_event(false, 1, 5, "Responder"),
    });
    let repeated = focus.handle_apply(ApplyNiriEvent {
        event: window_event(false, 1, 5, "Responder renamed"),
    });

    assert_eq!(
        first,
        vec![FocusObservation::new(target, false, 1_000_000_005)]
    );
    assert!(repeated.is_empty());
    assert_eq!(focus.applied_event_count(), 2);
    assert_eq!(focus.emitted_observation_count(), 1);
}
