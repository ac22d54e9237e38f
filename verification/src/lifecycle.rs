//! The lifecycle coordinator: the process-wide state record, the startup
//! outcomes, the close-to-tray preference, and idempotent teardown. The
//! caller holds this record behind its lock, feeds events in, and carries
//! out the returned plans.

use vstd::prelude::*;
use crate::json::{close_to_tray_field, json_close_to_tray_field};
use crate::ports::port_in_range;
use crate::supervisor::{diagnostic_tail, diagnostic_tail_spec};

verus! {

/// Why startup ended without a ready backend.
#[derive(Clone, Debug, PartialEq, Eq)]
pub enum StartupError {
    /// No runtime was found on the host; no spawn was attempted.
    NoRuntime,
    /// The host refused to start the worker; carries the host's message.
    SpawnFailed { message: String },
    /// No candidate port answered before the deadline; carries the tail
    /// of the worker's captured diagnostic stream, possibly empty.
    DiscoveryTimeout { diagnostic_tail: Vec<u8> },
}

/// The application lifecycle state: runtime availability, the discovered
/// endpoint, whether a live worker handle is held, the startup
/// diagnostic, and the close-to-tray preference.
pub struct AppState {
    pub python_ok: bool,
    pub api_port: Option<u16>,
    pub worker_live: bool,
    pub startup_error: Option<StartupError>,
    pub close_to_tray: bool,
}

/// Startup ended before any spawn: no runtime was found. Terminal.
pub fn startup_no_runtime(close_to_tray: bool) -> (s: AppState)
    ensures
        !s.python_ok,
        s.api_port is None,
        !s.worker_live,
        s.startup_error == Some(StartupError::NoRuntime),
        s.close_to_tray == close_to_tray,
{
    AppState {
        python_ok: false,
        api_port: None,
        worker_live: false,
        startup_error: Some(StartupError::NoRuntime),
        close_to_tray,
    }
}

/// Startup ended at the spawn: the host refused to start the worker.
/// Terminal for this run; the host's message is kept.
pub fn startup_spawn_failed(message: String, close_to_tray: bool) -> (s: AppState)
    ensures
        s.python_ok,
        s.api_port is None,
        !s.worker_live,
        s.startup_error matches Some(StartupError::SpawnFailed { message: m }) && m@ == message@,
        s.close_to_tray == close_to_tray,
{
    AppState {
        python_ok: true,
        api_port: None,
        worker_live: false,
        startup_error: Some(StartupError::SpawnFailed { message }),
        close_to_tray,
    }
}

/// Discovery succeeded: the backend is ready on `port` and the worker
/// handle is kept live.
pub fn startup_ready(port: u16, close_to_tray: bool) -> (s: AppState)
    requires
        port_in_range(port),
    ensures
        s.python_ok,
        s.api_port == Some(port),
        s.worker_live,
        s.startup_error is None,
        s.close_to_tray == close_to_tray,
{
    AppState {
        python_ok: true,
        api_port: Some(port),
        worker_live: true,
        startup_error: None,
        close_to_tray,
    }
}

/// Discovery timed out: the never-ready worker is not kept — the caller
/// force-kills it — and the failure report carries the tail of its
/// captured error stream.
pub fn startup_timed_out(stderr: &[u8], close_to_tray: bool) -> (s: AppState)
    ensures
        s.python_ok,
        s.api_port is None,
        !s.worker_live,
        s.startup_error matches Some(StartupError::DiscoveryTimeout { diagnostic_tail: t })
            && t@ == diagnostic_tail_spec(stderr@),
        s.close_to_tray == close_to_tray,
{
    AppState {
        python_ok: true,
        api_port: None,
        worker_live: false,
        startup_error: Some(StartupError::DiscoveryTimeout { diagnostic_tail: diagnostic_tail(stderr) }),
        close_to_tray,
    }
}

/// The startup report handed to the interface layer.
pub struct StartupStatus {
    pub runtime_ok: bool,
    pub port: Option<u16>,
    pub error: Option<StartupError>,
}

/// Reports the startup outcome: runtime availability, the discovered
/// port, and the startup error, copied field for field.
pub fn get_startup_status(state: &AppState) -> (r: StartupStatus)
    ensures
        r.runtime_ok == state.python_ok,
        r.port == state.api_port,
        (r.error is None) == (state.startup_error is None),
        state.startup_error matches Some(StartupError::NoRuntime) ==> r.error == Some(
            StartupError::NoRuntime,
        ),
        state.startup_error matches Some(StartupError::SpawnFailed { message: m }) ==> (
        r.error matches Some(StartupError::SpawnFailed { message: m2 }) && m2@ == m@),
        state.startup_error matches Some(StartupError::DiscoveryTimeout { diagnostic_tail: t })
            ==> (r.error matches Some(StartupError::DiscoveryTimeout { diagnostic_tail: t2 })
            && t2@ == t@),
{
    let error = match &state.startup_error {
        None => None,
        Some(StartupError::NoRuntime) => Some(StartupError::NoRuntime),
        Some(StartupError::SpawnFailed { message }) => Some(
            StartupError::SpawnFailed { message: message.clone() },
        ),
        Some(StartupError::DiscoveryTimeout { diagnostic_tail }) => Some(
            StartupError::DiscoveryTimeout { diagnostic_tail: diagnostic_tail.clone() },
        ),
    };
    StartupStatus { runtime_ok: state.python_ok, port: state.api_port, error }
}

/// The persisted settings document for a close-to-tray preference.
pub open spec fn settings_text_spec(value: bool) -> Seq<char> {
    if value {
        "{\"closeToTray\":true}"@
    } else {
        "{\"closeToTray\":false}"@
    }
}

/// Serialises the close-to-tray preference as the settings document.
pub fn settings_text(value: bool) -> (r: &'static str)
    ensures
        r@ == settings_text_spec(value),
{
    if value {
        "{\"closeToTray\":true}"
    } else {
        "{\"closeToTray\":false}"
    }
}

/// The preference a settings text yields: its `closeToTray` field, and
/// `true` — the default — when the text is absent, unreadable as JSON,
/// or carries no such boolean.
pub open spec fn close_behavior_of(text: Option<Seq<char>>) -> bool {
    match text {
        None => true,
        Some(s) => match json_close_to_tray_field(s) {
            Some(b) => b,
            None => true,
        },
    }
}

/// Loads the close-to-tray preference out of the settings text, `true`
/// when absent or unreadable.
pub fn load_close_behavior(text: Option<&str>) -> (r: bool)
    ensures
        r == close_behavior_of(
            match text {
                Some(t) => Some(t@),
                None => None,
            },
        ),
{
    match text {
        None => true,
        Some(t) => match close_to_tray_field(t) {
            Some(b) => b,
            None => true,
        },
    }
}

/// Reads the close-to-tray preference.
pub fn get_close_behavior(state: &AppState) -> (r: bool)
    ensures
        r == state.close_to_tray,
{
    state.close_to_tray
}

/// Sets the close-to-tray preference and hands back the settings document
/// the caller persists immediately.
pub fn set_close_behavior(state: &mut AppState, value: bool) -> (persist: &'static str)
    ensures
        final(state).close_to_tray == value,
        final(state).python_ok == old(state).python_ok,
        final(state).api_port == old(state).api_port,
        final(state).worker_live == old(state).worker_live,
        final(state).startup_error == old(state).startup_error,
        persist@ == settings_text_spec(value),
{
    state.close_to_tray = value;
    settings_text(value)
}

/// What a window-close request leads to.
#[derive(Clone, Copy, PartialEq, Eq, Structural, Debug)]
pub enum CloseAction {
    /// Hide the window and suppress the close; the process keeps running.
    HideToTray,
    /// Let the close proceed; the window's destruction triggers teardown.
    Proceed,
}

/// Decides a window-close request: hide to the tray exactly when the
/// preference says so, else let the close — and with it teardown —
/// proceed.
pub fn on_close_requested(state: &AppState) -> (a: CloseAction)
    ensures
        (a is HideToTray) == state.close_to_tray,
        (a is Proceed) == !state.close_to_tray,
{
    if state.close_to_tray {
        CloseAction::HideToTray
    } else {
        CloseAction::Proceed
    }
}

/// The best-effort cleanup a teardown asks of the caller.
#[derive(Clone, Copy, PartialEq, Eq, Structural, Debug)]
pub struct TeardownPlan {
    /// Kill the worker's whole process tree, then reap it.
    pub kill_worker: bool,
    /// Remove the instance marker file.
    pub remove_marker: bool,
}

/// The state after a teardown: no worker handle is held any more.
pub open spec fn teardown_state_spec(s: AppState) -> AppState {
    AppState { worker_live: false, ..s }
}

/// The plan of a teardown: kill exactly when a live handle is held, and
/// always remove the marker (removal is harmless when it is gone).
pub open spec fn teardown_plan_spec(s: AppState) -> TeardownPlan {
    TeardownPlan { kill_worker: s.worker_live, remove_marker: true }
}

/// Tears the state down: gives up the worker handle and plans the
/// best-effort cleanup. Reachable from any state; safe to invoke again.
pub fn teardown(state: &mut AppState) -> (plan: TeardownPlan)
    ensures
        *final(state) == teardown_state_spec(*old(state)),
        plan == teardown_plan_spec(*old(state)),
{
    let kill = state.worker_live;
    state.worker_live = false;
    TeardownPlan { kill_worker: kill, remove_marker: true }
}

/// Teardown is idempotent: a second teardown leaves the state as it was
/// and asks for no kill, so invoking it twice in a row is harmless.
pub proof fn lemma_teardown_idempotent(s: AppState)
    ensures
        teardown_state_spec(teardown_state_spec(s)) == teardown_state_spec(s),
        !teardown_plan_spec(teardown_state_spec(s)).kill_worker,
{
}

} // verus!
