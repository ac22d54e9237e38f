use script_supervisor::lifecycle::{
    get_close_behavior, get_startup_status, load_close_behavior, on_close_requested,
    set_close_behavior, settings_text, startup_no_runtime, startup_ready, startup_spawn_failed,
    startup_timed_out, teardown, CloseAction, StartupError,
};

#[test]
fn no_runtime_is_terminal_without_spawn() {
    let s = startup_no_runtime(true);
    assert!(!s.python_ok);
    assert_eq!(s.api_port, None);
    assert!(!s.worker_live);
    assert_eq!(s.startup_error, Some(StartupError::NoRuntime));
}

#[test]
fn spawn_failure_keeps_the_host_message() {
    let s = startup_spawn_failed(String::from("permission denied"), true);
    assert!(s.python_ok);
    assert_eq!(s.api_port, None);
    assert!(!s.worker_live);
    assert_eq!(
        s.startup_error,
        Some(StartupError::SpawnFailed { message: String::from("permission denied") })
    );
}

#[test]
fn ready_keeps_port_and_live_worker() {
    let s = startup_ready(8766, true);
    assert!(s.python_ok);
    assert_eq!(s.api_port, Some(8766));
    assert!(s.worker_live);
    assert_eq!(s.startup_error, None);
}

#[test]
fn timeout_reports_runtime_ok_without_port() {
    let s = startup_timed_out(b"Traceback: boom\n", true);
    let status = get_startup_status(&s);
    assert!(status.runtime_ok);
    assert_eq!(status.port, None);
    match status.error {
        Some(StartupError::DiscoveryTimeout { diagnostic_tail }) => {
            assert_eq!(diagnostic_tail, b"Traceback: boom".to_vec());
        }
        other => panic!("expected a discovery timeout, got {:?}", other),
    }
    assert!(!s.worker_live);
}

#[test]
fn timeout_tail_is_bounded_and_marked() {
    let mut noise = vec![b'x'; 700];
    noise.extend_from_slice(b"the real error\r\n");
    let s = startup_timed_out(&noise, true);
    match s.startup_error {
        Some(StartupError::DiscoveryTimeout { diagnostic_tail }) => {
            assert!(diagnostic_tail.starts_with(b"..."));
            assert!(diagnostic_tail.len() <= 603);
            assert!(!diagnostic_tail.contains(&b'\r'));
            assert!(diagnostic_tail.ends_with(b"the real error"));
        }
        other => panic!("expected a discovery timeout, got {:?}", other),
    }
}

#[test]
fn settings_document_round_trips_the_preference() {
    assert_eq!(settings_text(true), "{\"closeToTray\":true}");
    assert_eq!(settings_text(false), "{\"closeToTray\":false}");
    assert!(load_close_behavior(Some(settings_text(true))));
    assert!(!load_close_behavior(Some(settings_text(false))));
}

#[test]
fn close_behavior_defaults_to_true() {
    assert!(load_close_behavior(None));
    assert!(load_close_behavior(Some("")));
    assert!(load_close_behavior(Some("not json at all")));
    assert!(load_close_behavior(Some("{}")));
    assert!(load_close_behavior(Some("{\"closeToTray\": 1}")));
}

#[test]
fn close_behavior_reads_the_stored_field() {
    assert!(!load_close_behavior(Some("{\"closeToTray\": false}")));
    assert!(load_close_behavior(Some("{\"closeToTray\": true}")));
}

#[test]
fn set_close_behavior_updates_state_and_persists() {
    let mut s = startup_ready(8765, true);
    let persist = set_close_behavior(&mut s, false);
    assert_eq!(persist, "{\"closeToTray\":false}");
    assert!(!get_close_behavior(&s));
    assert_eq!(s.api_port, Some(8765));
    assert!(s.worker_live);
}

#[test]
fn close_request_hides_to_tray_when_preferred() {
    let s = startup_ready(8765, true);
    assert_eq!(on_close_requested(&s), CloseAction::HideToTray);
}

#[test]
fn close_request_proceeds_when_tray_is_off() {
    let mut s = startup_ready(8765, true);
    let _ = set_close_behavior(&mut s, false);
    assert_eq!(on_close_requested(&s), CloseAction::Proceed);
    // Close proceeds into exactly one effective teardown.
    let plan = teardown(&mut s);
    assert!(plan.kill_worker);
    assert!(plan.remove_marker);
    let again = teardown(&mut s);
    assert!(!again.kill_worker);
}

#[test]
fn teardown_twice_with_no_live_handle_is_harmless() {
    let mut s = startup_no_runtime(true);
    let first = teardown(&mut s);
    assert!(!first.kill_worker);
    assert!(first.remove_marker);
    let second = teardown(&mut s);
    assert!(!second.kill_worker);
    assert!(second.remove_marker);
    assert!(!s.worker_live);
}

#[test]
fn startup_status_mirrors_the_state() {
    let s = startup_no_runtime(false);
    let st = get_startup_status(&s);
    assert!(!st.runtime_ok);
    assert_eq!(st.port, None);
    assert_eq!(st.error, Some(StartupError::NoRuntime));
}
