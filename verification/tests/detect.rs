use hyprnote::detect::{
    mute_state_from_menu_titles, reconcile_zoom_mute_state, is_zoom_using_mic_from, DetectError,
    DetectEvent, DetectorState, InstalledApp, MicDetector, WatcherState,
};

fn app(id: &str) -> InstalledApp {
    InstalledApp { id: id.to_string(), name: id.to_string() }
}

fn test_detector() -> MicDetector {
    // The last change lies one second before the events below.
    MicDetector::new_at(0)
}

#[test]
fn test_reconcile_zoom_mute_state_keeps_state_on_mic_usage_error() {
    let mut state = WatcherState::new();
    state.last_mute_state = Some(true);

    let event = reconcile_zoom_mute_state(
        &mut state,
        Err(DetectError::AudioProcessState("snapshot failed".to_string())),
        None,
    );

    assert!(event.is_none());
    assert_eq!(state.last_mute_state, Some(true));
}

#[test]
fn test_reconcile_zoom_mute_state_does_not_duplicate_after_error() {
    let mut state = WatcherState::new();
    state.last_mute_state = Some(true);

    let event = reconcile_zoom_mute_state(&mut state, Ok(true), Some(true));

    assert!(event.is_none());
    assert_eq!(state.last_mute_state, Some(true));
}

#[test]
fn test_reconcile_zoom_mute_state_clears_state_when_zoom_stops_using_mic() {
    let mut state = WatcherState::new();
    state.last_mute_state = Some(false);

    let event = reconcile_zoom_mute_state(&mut state, Ok(false), None);

    assert!(event.is_none());
    assert_eq!(state.last_mute_state, None);
}

#[test]
fn test_seed_running_state_error_keeps_previous_apps_and_enables_polling() {
    let mut ctx = test_detector();
    ctx.state.active_apps = vec![app("existing")];

    ctx.seed_running_state_with_snapshot(
        true,
        Err(DetectError::AudioProcessState("snapshot failed".to_string())),
    );

    assert!(ctx.polling_active);
    assert_eq!(ctx.state.last_state, true);
    assert_eq!(ctx.state.active_apps.len(), 1);
}

#[test]
fn test_handle_mic_change_error_does_not_emit_or_replace_active_apps() {
    let mut ctx = test_detector();
    ctx.state.active_apps = vec![app("existing")];

    let event = ctx.handle_mic_change_with_snapshot(
        true,
        Err(DetectError::AudioProcessState("snapshot failed".to_string())),
        1000,
    );

    assert!(ctx.polling_active);
    assert_eq!(ctx.state.last_state, true);
    assert_eq!(ctx.state.active_apps.len(), 1);
    assert!(event.is_none());
}

#[test]
fn test_handle_mic_change_empty_snapshot_does_not_emit() {
    let mut ctx = test_detector();

    let event = ctx.handle_mic_change_with_snapshot(true, Ok(Vec::new()), 1000);

    assert!(ctx.polling_active);
    assert_eq!(ctx.state.last_state, true);
    assert!(ctx.state.active_apps.is_empty());
    assert!(event.is_none());
}

#[test]
fn zoom_mute_change_is_reported_once() {
    let mut state = WatcherState::new();
    let first = reconcile_zoom_mute_state(&mut state, Ok(true), Some(false));
    match first {
        Some(DetectEvent::ZoomMuteStateChanged { value }) => assert!(!value),
        _ => panic!("expected a mute state change"),
    }
    assert_eq!(state.last_mute_state, Some(false));
    let again = reconcile_zoom_mute_state(&mut state, Ok(true), Some(false));
    assert!(again.is_none());
    let flipped = reconcile_zoom_mute_state(&mut state, Ok(true), Some(true));
    assert!(matches!(flipped, Some(DetectEvent::ZoomMuteStateChanged { value: true })));
}

#[test]
fn mic_start_then_stop_reports_the_apps() {
    let mut ctx = test_detector();
    let started = ctx.handle_mic_change_with_snapshot(true, Ok(vec![app("us.zoom.xos")]), 1000);
    match started {
        Some(DetectEvent::MicStarted(apps)) => {
            assert_eq!(apps.len(), 1);
            assert_eq!(apps[0].id, "us.zoom.xos");
        }
        _ => panic!("expected MicStarted"),
    }
    // Within the debounce window nothing is taken.
    let early = ctx.handle_mic_change_with_snapshot(false, Ok(Vec::new()), 1200);
    assert!(early.is_none());
    assert_eq!(ctx.state.last_state, true);
    let stopped = ctx.handle_mic_change_with_snapshot(false, Ok(Vec::new()), 2000);
    match stopped {
        Some(DetectEvent::MicStopped(apps)) => assert_eq!(apps.len(), 1),
        _ => panic!("expected MicStopped"),
    }
    assert!(!ctx.polling_active);
    assert!(ctx.state.active_apps.is_empty());
}

#[test]
fn debounce_ignores_quick_or_repeated_changes() {
    let mut state = DetectorState::new_at(1000);
    assert!(!state.should_trigger(true, 1200));
    assert!(state.should_trigger(true, 1500));
    assert_eq!(state.last_change_ms, 1500);
    assert!(!state.should_trigger(true, 5000));
    assert!(!state.should_trigger(false, 1999));
    assert!(state.should_trigger(false, 2000));
}

#[test]
fn zoom_is_found_among_mic_users() {
    let found = is_zoom_using_mic_from(Ok(vec![app("com.apple.Safari"), app("us.zoom.xos")]));
    assert!(matches!(found, Ok(true)));
    let absent = is_zoom_using_mic_from(Ok(vec![app("com.apple.Safari")]));
    assert!(matches!(absent, Ok(false)));
    let failed = is_zoom_using_mic_from(Err(DetectError::AudioProcessState("x".to_string())));
    assert!(failed.is_err());
}

#[test]
fn menu_titles_give_the_mute_state() {
    let titles = vec![None, Some("Start Video".to_string()), Some("Unmute audio".to_string())];
    assert_eq!(mute_state_from_menu_titles(&titles), Some(true));
    let titles = vec![Some("Mute Audio".to_string()), Some("Unmute Audio".to_string())];
    assert_eq!(mute_state_from_menu_titles(&titles), Some(false));
    let titles = vec![Some("Leave".to_string())];
    assert_eq!(mute_state_from_menu_titles(&titles), None);
}
