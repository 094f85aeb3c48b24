use gallerica::message_api::Request;
use gallerica::message_api::Response;
use gallerica::state::ApplicationState;
use gallerica::state::Configuration;
use gallerica::state::LoopDecision;
use gallerica::state::MainEvent;
use gallerica::state::Gallery;
use gallerica::state::Snapshot;
use gallerica::state::StateError;
use gallerica::state::UpdateOutcome;

fn strings(v: Vec<&str>) -> Vec<String> {
    v.into_iter().map(|s| s.to_string()).collect()
}

fn gallery(name: &str, folders: Vec<&str>) -> Gallery {
    Gallery { name: name.to_string(), sources: strings(folders) }
}

fn test_config(default: &str, galleries: Vec<Gallery>, buffer_size: usize) -> Configuration {
    Configuration {
        command_line: "echo {image}".to_string(),
        update_interval_ms: 1000,
        default_gallery: default.to_string(),
        galleries,
        update_immediately: true,
        listeners: Vec::new(),
        recent_image_buffer_size: buffer_size,
        number_retries: 2,
        storage_file: Some("gallerica.json".to_string()),
    }
}

fn fresh_state(buffer_size: usize) -> ApplicationState {
    let mut state =
        ApplicationState::new(&strings(vec!["echo", "{image}"]), 1000, 0).unwrap();
    let cfg = test_config(
        "pets",
        vec![gallery("pets", vec!["/pics/cats"]), gallery("art", vec!["/pics/art"])],
        buffer_size,
    );
    state.update_configuration(cfg, 0).unwrap();
    state
}

#[test]
fn test_new_requires_a_command() {
    let r = ApplicationState::new(&Vec::new(), 1000, 0);
    assert_eq!(r.err(), Some(StateError::MissingCommand));
}

#[test]
fn test_configuration_rejects_unknown_default_gallery() {
    let mut state =
        ApplicationState::new(&strings(vec!["echo", "{image}"]), 1000, 0).unwrap();
    let cfg = test_config("ghosts", vec![gallery("pets", vec!["/pics/cats"])], 3);
    let r = state.update_configuration(cfg, 0);
    assert_eq!(r.err(), Some(StateError::UnknownGallery));
    // Nothing was applied.
    assert!(state.current_sources().is_none());
}

#[test]
fn test_duplicate_gallery_names_last_wins() {
    let mut state =
        ApplicationState::new(&strings(vec!["echo", "{image}"]), 1000, 0).unwrap();
    let cfg = test_config(
        "pets",
        vec![gallery("pets", vec!["/old"]), gallery("pets", vec!["/new"])],
        3,
    );
    state.update_configuration(cfg, 0).unwrap();
    assert_eq!(state.current_sources(), Some(strings(vec!["/new"])));
}

#[test]
fn test_reconfiguration_replaces_registry() {
    let mut state = fresh_state(3);
    let cfg = test_config("other", vec![gallery("other", vec!["/elsewhere"])], 3);
    state.update_configuration(cfg, 5).unwrap();
    assert_eq!(state.current_sources(), Some(strings(vec!["/elsewhere"])));
    // The old registry is gone wholesale: its names are unknown now.
    let msg = Ok(Request::SelectGallery { name: "pets".to_string(), refresh: false });
    let r = state.handle_message(&msg, 10);
    assert!(matches!(r.response, Response::InvalidGallery));
}

#[test]
fn test_reconfiguration_buffer_capacity() {
    let mut state = fresh_state(3);
    state.update(&strings(vec!["a"]));

    // An unchanged capacity keeps the remembered paths.
    let cfg = test_config("pets", vec![gallery("pets", vec!["/pics/cats"])], 3);
    state.update_configuration(cfg, 5).unwrap();
    assert_eq!(state.snapshot().recently_selected, strings(vec!["a"]));

    // A changed capacity starts the buffer over.
    let cfg = test_config("pets", vec![gallery("pets", vec!["/pics/cats"])], 2);
    state.update_configuration(cfg, 6).unwrap();
    assert_eq!(state.snapshot().recently_selected, Vec::<String>::new());
}

#[test]
fn test_gallery_switch_validation() {
    let mut state = fresh_state(3);

    let msg = Ok(Request::SelectGallery { name: "unknown".to_string(), refresh: true });
    let r = state.handle_message(&msg, 10);
    assert!(matches!(r.response, Response::InvalidGallery));
    assert!(!r.needs_update);
    assert!(!r.needs_persist);
    // The previously selected gallery still stands.
    assert_eq!(state.current_sources(), Some(strings(vec!["/pics/cats"])));

    // A subsequent NextImage operates on that gallery.
    let r = state.handle_message(&Ok(Request::NextImage), 20);
    assert!(matches!(r.response, Response::NewImage));
    assert!(r.needs_update);
    assert_eq!(state.current_sources(), Some(strings(vec!["/pics/cats"])));
}

#[test]
fn test_gallery_switch_known_name() {
    let mut state = fresh_state(3);
    let msg = Ok(Request::SelectGallery { name: "art".to_string(), refresh: false });
    let r = state.handle_message(&msg, 10);
    assert!(matches!(r.response, Response::NewImage));
    assert!(!r.needs_update);
    assert!(r.needs_persist);
    assert_eq!(state.current_sources(), Some(strings(vec!["/pics/art"])));
}

#[test]
fn test_coalescing_keeps_latest_pending() {
    let mut state = fresh_state(3);

    match state.update(&strings(vec!["a"])) {
        UpdateOutcome::Launched { path } => assert_eq!(path, "a".to_string()),
        other => panic!("expected a launch, got {:?}", other),
    }
    match state.update(&strings(vec!["b"])) {
        UpdateOutcome::Queued { path, discarded } => {
            assert_eq!(path, "b".to_string());
            assert!(!discarded);
        },
        other => panic!("expected queueing, got {:?}", other),
    }
    // A third request while the first still runs discards the second.
    match state.update(&strings(vec!["c"])) {
        UpdateOutcome::Queued { path, discarded } => {
            assert_eq!(path, "c".to_string());
            assert!(discarded);
        },
        other => panic!("expected queueing, got {:?}", other),
    }

    // The running process exits: the latest command, built for "c", runs.
    assert!(state.update_slots.on_process_exit());
    let cmd = state.update_slots.running_command().unwrap();
    assert_eq!(cmd.program, "echo".to_string());
    assert_eq!(cmd.args, strings(vec!["c"]));

    // Nothing else is pending.
    assert!(!state.update_slots.on_process_exit());
    assert!(state.update_slots.running_command().is_none());
}

#[test]
fn test_update_with_no_candidates_is_a_no_op() {
    let mut state = fresh_state(3);
    let r = state.update(&Vec::new());
    assert!(matches!(r, UpdateOutcome::NoCandidates));
    assert!(state.update_slots.running_command().is_none());
    assert_eq!(state.snapshot().recently_selected, Vec::<String>::new());
}

#[test]
fn test_snapshot_roundtrip_same_capacity() {
    let mut state = fresh_state(3);
    state.update(&strings(vec!["a"]));
    state.update(&strings(vec!["b"]));
    let snap = state.snapshot();
    assert_eq!(snap.recently_selected, strings(vec!["a", "b"]));

    let mut other = fresh_state(3);
    other.update_persistent_state(snap, 0).unwrap();
    let replayed = other.snapshot();
    assert_eq!(replayed.recently_selected, strings(vec!["a", "b"]));
    assert_eq!(replayed.current_gallery, Some("pets".to_string()));
    assert!(!replayed.is_paused);
}

#[test]
fn test_snapshot_capacity_change_keeps_newest() {
    let mut state = fresh_state(3);
    state.update(&strings(vec!["a"]));
    state.update(&strings(vec!["b"]));
    state.update(&strings(vec!["c"]));
    let snap = state.snapshot();
    assert_eq!(snap.recently_selected, strings(vec!["a", "b", "c"]));

    let mut narrow = fresh_state(1);
    narrow.update_persistent_state(snap, 0).unwrap();
    // Only the most recent entry fits; the oldest were discarded first.
    assert_eq!(narrow.snapshot().recently_selected, strings(vec!["c"]));
}

#[test]
fn test_unknown_gallery_snapshot_rejected() {
    let mut state = fresh_state(3);
    let before = state.snapshot();

    let snap = Snapshot {
        current_gallery: Some("ghost".to_string()),
        recently_selected: strings(vec!["a"]),
        is_paused: true,
    };
    let r = state.update_persistent_state(snap, 0);
    assert_eq!(r.err(), Some(StateError::UnknownGallery));

    // The state is as freshly started: nothing of the snapshot was taken.
    let after = state.snapshot();
    assert_eq!(after.current_gallery, before.current_gallery);
    assert_eq!(after.recently_selected, before.recently_selected);
    assert_eq!(after.is_paused, before.is_paused);
    assert!(!state.update_interval.is_paused());
}

#[test]
fn test_snapshot_restores_pause() {
    let mut state = fresh_state(3);
    let snap = Snapshot {
        current_gallery: Some("art".to_string()),
        recently_selected: Vec::new(),
        is_paused: true,
    };
    state.update_persistent_state(snap, 0).unwrap();
    assert!(state.update_interval.is_paused());
    assert_eq!(state.current_sources(), Some(strings(vec!["/pics/art"])));
}

#[test]
fn test_bad_request_reports_message() {
    let mut state = fresh_state(3);
    let before = state.snapshot();
    let msg: Result<Request, String> = Err("expected value at line 1".to_string());
    let r = state.handle_message(&msg, 10);
    match r.response {
        Response::BadRequest { message } => {
            assert_eq!(message, "expected value at line 1".to_string())
        },
        other => panic!("expected a bad-request response, got {:?}", other),
    }
    assert!(!r.needs_update);
    assert!(!r.needs_persist);
    assert_eq!(state.snapshot().recently_selected, before.recently_selected);
}

#[test]
fn test_pause_and_resume() {
    let mut state = fresh_state(3);

    let r = state.handle_message(&Ok(Request::Pause), 10);
    assert!(matches!(r.response, Response::Success));
    assert!(r.needs_persist);
    assert!(!r.needs_update);
    assert!(state.update_interval.is_paused());
    assert!(state.snapshot().is_paused);

    let r = state.handle_message(&Ok(Request::Resume), 20);
    assert!(matches!(r.response, Response::Success));
    assert!(r.needs_persist);
    assert!(!state.update_interval.is_paused());
    assert!(!state.snapshot().is_paused);
}

#[test]
fn test_update_interval_replaces_timer_and_keeps_pause() {
    let mut state = fresh_state(3);
    state.handle_message(&Ok(Request::Pause), 10);

    let r = state.handle_message(&Ok(Request::UpdateInterval { millis: 250 }), 20);
    assert!(matches!(r.response, Response::NewImage));
    assert!(!r.needs_update);
    assert_eq!(state.update_interval.interval, 250);
    // The pause state survives the new interval.
    assert!(state.update_interval.is_paused());
}

#[test]
fn test_event_loop_exit_policy() {
    let mut state = fresh_state(3);

    let r = state.handle_event(MainEvent::TimerCompleted, 5);
    assert_eq!(r.decision, LoopDecision::Continue);
    assert!(r.needs_update);
    assert!(r.response.is_none());

    let r = state.handle_event(MainEvent::ShutdownRequested, 6);
    assert_eq!(r.decision, LoopDecision::ExitShutdown);
    assert!(!r.needs_update && !r.needs_persist && !r.launch);

    let r = state.handle_event(MainEvent::SourcesClosed, 7);
    assert_eq!(r.decision, LoopDecision::ExitNoMessages);
}

#[test]
fn test_process_exit_event_launches_pending() {
    let mut state = fresh_state(3);
    state.update(&strings(vec!["a"]));
    state.update(&strings(vec!["b"]));

    let r = state.handle_event(MainEvent::ProcessExited, 5);
    assert_eq!(r.decision, LoopDecision::Continue);
    assert!(r.launch);
    let cmd = state.update_slots.running_command().unwrap();
    assert_eq!(cmd.args, strings(vec!["b"]));

    let r = state.handle_event(MainEvent::ProcessExited, 6);
    assert!(!r.launch);
    assert!(state.update_slots.running_command().is_none());
}

#[test]
fn test_message_event_dispatches() {
    let mut state = fresh_state(3);
    let r = state.handle_event(MainEvent::Message(Ok(Request::Pause)), 10);
    assert_eq!(r.decision, LoopDecision::Continue);
    assert!(matches!(r.response, Some(Response::Success)));
    assert!(r.needs_persist);
    assert!(state.update_interval.is_paused());
}

#[test]
fn test_next_image_resets_timer() {
    let mut state = fresh_state(3);
    let r = state.handle_message(&Ok(Request::NextImage), 400);
    assert!(matches!(r.response, Response::NewImage));
    assert!(r.needs_update);
    // The full interval starts over from now.
    let (_, wait) = state.update_interval.tick(400);
    assert_eq!(wait, 1000);
}
