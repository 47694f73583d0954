use backend_supervisor::errors::StartupError;
use backend_supervisor::process::ProcessHandle;
use backend_supervisor::state::SharedState;
use backend_supervisor::supervisor::{apply_launch, StartupDecision, StartupMode};

#[test]
fn teardown_runs_exactly_once_after_launch() {
    let mut state = SharedState::new();
    state.store(ProcessHandle { pid: 4321 });

    let first = state.take();
    assert_eq!(first, Some(ProcessHandle { pid: 4321 }));

    // Every later teardown event is a no-op: the handle comes out once.
    assert_eq!(state.take(), None);
    assert_eq!(state.take(), None);
    assert_eq!(state.take(), None);
}

#[test]
fn teardown_before_launch_is_a_noop() {
    let mut state = SharedState::new();
    assert!(!state.is_running());
    assert_eq!(state.take(), None);
    assert!(!state.is_running());
    assert!(!state.has_stopped());
    assert_eq!(state.take(), None);
}

#[test]
fn failed_launch_leaves_slot_empty() {
    let mut state = SharedState::new();
    let decision = apply_launch(
        &mut state,
        Err(StartupError::ResourceNotFound),
        StartupMode::Development,
    );
    assert_eq!(decision, StartupDecision::Proceed);
    assert!(!state.is_running());
    assert!(!state.has_stopped());
    // A subsequent teardown is a no-op.
    assert_eq!(state.take(), None);
}

#[test]
fn taken_slot_is_empty_to_every_reader() {
    let mut state = SharedState::new();
    state.store(ProcessHandle { pid: 99 });

    let taken = state.take();
    assert!(taken.is_some());

    // No second reader can observe a present handle.
    assert!(!state.is_running());
    assert!(state.has_stopped());
    assert_eq!(state.take(), None);
    assert!(!state.is_running());
}

#[test]
fn successful_launch_stores_the_handle() {
    let mut state = SharedState::new();
    let decision = apply_launch(
        &mut state,
        Ok(ProcessHandle { pid: 4321 }),
        StartupMode::Production,
    );
    assert_eq!(decision, StartupDecision::Proceed);
    assert!(state.is_running());
    assert_eq!(state.take(), Some(ProcessHandle { pid: 4321 }));
    assert!(state.has_stopped());
}

#[test]
fn spawn_failure_is_fatal_in_production() {
    let mut state = SharedState::new();
    let decision = apply_launch(
        &mut state,
        Err(StartupError::Launch(String::from("executable not found"))),
        StartupMode::Production,
    );
    assert_eq!(decision, StartupDecision::Abort);
    assert!(!state.is_running());
}

#[test]
fn spawn_failure_is_tolerated_in_development() {
    let mut state = SharedState::new();
    let decision = apply_launch(
        &mut state,
        Err(StartupError::Launch(String::from("executable not found"))),
        StartupMode::Development,
    );
    assert_eq!(decision, StartupDecision::Proceed);
    assert!(!state.is_running());
    assert!(!state.has_stopped());
    assert_eq!(state.take(), None);
}
