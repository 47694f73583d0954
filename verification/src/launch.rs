use vstd::prelude::*;

use crate::errors::StartupError;
use crate::process::ProcessHandle;

verus! {

/// A path handed back by one of the host's resolution capabilities, as the
/// supervisor sees it: absent, present but not valid text, or plain text.
#[derive(PartialEq, Eq, Debug)]
pub enum HostPath {
    /// The host had no path to offer.
    Missing,
    /// The host offered a path that valid text cannot represent.
    NotText,
    /// The path, as text.
    Text(String),
}

/// Where a launch stands. The launch advances one step per host or OS
/// answer and ends in `Launched` or `Aborted`.
#[derive(PartialEq, Eq, Debug)]
pub enum LaunchState {
    /// Waiting for the host's per-user data root.
    NeedDataRoot,
    /// Waiting for the data directory to be created on disk.
    NeedDirCreation,
    /// Waiting for the host to resolve the bundled backend binary.
    NeedBackendPath,
    /// Waiting for the OS to spawn the backend.
    NeedSpawn,
    /// The backend is up; its handle is ready to be stored.
    Launched(ProcessHandle),
    /// The launch stopped early; no backend was spawned after the failing
    /// step.
    Aborted(StartupError),
}

/// The answer one launch step waits for, as a plain value.
#[derive(PartialEq, Eq, Debug)]
pub enum LaunchEvent {
    /// The host's per-user data root.
    DataRoot(HostPath),
    /// Whether creating the data directory (with its parents) succeeded;
    /// carries the OS error text when it did not.
    DirCreation(Result<(), String>),
    /// The host's path to the bundled backend binary.
    BackendPath(HostPath),
    /// The OS-assigned process identifier of the spawned backend, or the
    /// OS error text.
    SpawnResult(Result<u32, String>),
}

/// What the embedding shell is to do next. Every blocking host or OS call
/// of the launch is one of these; the shell performs it and feeds the
/// answer back as a [`LaunchEvent`].
#[derive(PartialEq, Eq, Debug)]
pub enum LaunchAction {
    /// Ask the host for the per-user data root.
    QueryDataRoot,
    /// Create this directory, and its parents, if missing.
    CreateDir(String),
    /// Ask the host to resolve the bundled backend binary.
    QueryBackendPath,
    /// Spawn this executable, with no arguments.
    Spawn(String),
    /// The launch is over; read the terminal state.
    Finish,
}

/// The fixed logical name under which the backend binary stands in the
/// host's bundling manifest; the [`LaunchAction::QueryBackendPath`] step
/// asks the host to resolve exactly this entry.
pub fn backend_resource_name() -> (name: &'static str)
    ensures
        name@ == "binaries/newsgap-backend"@,
{
    "binaries/newsgap-backend"
}

/// Which event a launch state waits for.
pub open spec fn accepts(state: LaunchState, event: LaunchEvent) -> bool {
    match (state, event) {
        (LaunchState::NeedDataRoot, LaunchEvent::DataRoot(_)) => true,
        (LaunchState::NeedDirCreation, LaunchEvent::DirCreation(_)) => true,
        (LaunchState::NeedBackendPath, LaunchEvent::BackendPath(_)) => true,
        (LaunchState::NeedSpawn, LaunchEvent::SpawnResult(_)) => true,
        _ => false,
    }
}

/// Opens a launch: the first thing to learn is the data root.
pub fn launch_begin() -> (step: (LaunchState, LaunchAction))
    ensures
        step == (LaunchState::NeedDataRoot, LaunchAction::QueryDataRoot),
{
    (LaunchState::NeedDataRoot, LaunchAction::QueryDataRoot)
}

/// Advances the launch by one host or OS answer.
///
/// A missing data root, a data directory path that is not text, a failed
/// directory creation, a missing or non-text backend entry, and a failed
/// spawn each abort the launch with their error; the spawn is only ever
/// requested with the exact backend path the host resolved, and only
/// after the data directory steps went through.
pub fn launch_step(state: LaunchState, event: LaunchEvent) -> (step: (LaunchState, LaunchAction))
    requires
        accepts(state, event),
    ensures
        event matches LaunchEvent::DataRoot(root) ==> (match root {
            HostPath::Missing => step == (
                LaunchState::Aborted(StartupError::PathResolution),
                LaunchAction::Finish,
            ),
            HostPath::NotText => step == (
                LaunchState::Aborted(StartupError::Encoding),
                LaunchAction::Finish,
            ),
            HostPath::Text(dir) => step.0 == LaunchState::NeedDirCreation && (
            step.1 matches LaunchAction::CreateDir(d) && d@ == dir@),
        }),
        event matches LaunchEvent::DirCreation(created) ==> (match created {
            Ok(_) => step == (LaunchState::NeedBackendPath, LaunchAction::QueryBackendPath),
            Err(message) => (step.0 matches LaunchState::Aborted(e) && (
            e matches StartupError::Io(m) && m@ == message@)) && step.1 == LaunchAction::Finish,
        }),
        event matches LaunchEvent::BackendPath(path) ==> (match path {
            HostPath::Missing => step == (
                LaunchState::Aborted(StartupError::ResourceNotFound),
                LaunchAction::Finish,
            ),
            HostPath::NotText => step == (
                LaunchState::Aborted(StartupError::ResourceNotFound),
                LaunchAction::Finish,
            ),
            HostPath::Text(backend) => step.0 == LaunchState::NeedSpawn && (
            step.1 matches LaunchAction::Spawn(b) && b@ == backend@),
        }),
        event matches LaunchEvent::SpawnResult(spawned) ==> (match spawned {
            Ok(pid) => step == (
                LaunchState::Launched(ProcessHandle { pid }),
                LaunchAction::Finish,
            ),
            Err(message) => (step.0 matches LaunchState::Aborted(e) && (
            e matches StartupError::Launch(m) && m@ == message@)) && step.1 == LaunchAction::Finish,
        }),
{
    match (state, event) {
        (LaunchState::NeedDataRoot, LaunchEvent::DataRoot(root)) => match root {
            HostPath::Missing => (
                LaunchState::Aborted(StartupError::PathResolution),
                LaunchAction::Finish,
            ),
            HostPath::NotText => (LaunchState::Aborted(StartupError::Encoding), LaunchAction::Finish),
            HostPath::Text(dir) => (LaunchState::NeedDirCreation, LaunchAction::CreateDir(dir)),
        },
        (LaunchState::NeedDirCreation, LaunchEvent::DirCreation(created)) => match created {
            Ok(_) => (LaunchState::NeedBackendPath, LaunchAction::QueryBackendPath),
            Err(message) => (LaunchState::Aborted(StartupError::Io(message)), LaunchAction::Finish),
        },
        (LaunchState::NeedBackendPath, LaunchEvent::BackendPath(path)) => match path {
            HostPath::Missing => (
                LaunchState::Aborted(StartupError::ResourceNotFound),
                LaunchAction::Finish,
            ),
            HostPath::NotText => (
                LaunchState::Aborted(StartupError::ResourceNotFound),
                LaunchAction::Finish,
            ),
            HostPath::Text(backend) => (LaunchState::NeedSpawn, LaunchAction::Spawn(backend)),
        },
        (LaunchState::NeedSpawn, LaunchEvent::SpawnResult(spawned)) => match spawned {
            Ok(pid) => (LaunchState::Launched(ProcessHandle { pid }), LaunchAction::Finish),
            Err(message) => (
                LaunchState::Aborted(StartupError::Launch(message)),
                LaunchAction::Finish,
            ),
        },
        _ => unreached(),
    }
}

/// Whether this launch state waits for the given event; lets an unverified
/// driver test the condition of [`launch_step`] before calling it.
pub fn accepts_event(state: &LaunchState, event: &LaunchEvent) -> (r: bool)
    ensures
        r == accepts(*state, *event),
{
    match state {
        LaunchState::NeedDataRoot => matches!(event, LaunchEvent::DataRoot(_)),
        LaunchState::NeedDirCreation => matches!(event, LaunchEvent::DirCreation(_)),
        LaunchState::NeedBackendPath => matches!(event, LaunchEvent::BackendPath(_)),
        LaunchState::NeedSpawn => matches!(event, LaunchEvent::SpawnResult(_)),
        _ => false,
    }
}

/// Whether the launch is over, one way or the other.
pub fn is_terminal(state: &LaunchState) -> (r: bool)
    ensures
        r == (*state is Launched || *state is Aborted),
{
    matches!(state, LaunchState::Launched(_) | LaunchState::Aborted(_))
}

/// Reads a finished launch as the one result the setup callback handles:
/// the handle of the spawned backend, or the error of the step that
/// aborted the launch.
pub fn launch_outcome(state: LaunchState) -> (outcome: Result<ProcessHandle, StartupError>)
    requires
        state is Launched || state is Aborted,
    ensures
        state matches LaunchState::Launched(handle) ==> outcome == Ok::<
            ProcessHandle,
            StartupError,
        >(handle),
        state matches LaunchState::Aborted(error) ==> (outcome matches Err(e) && e == error),
{
    match state {
        LaunchState::Launched(handle) => Ok(handle),
        LaunchState::Aborted(error) => Err(error),
        _ => unreached(),
    }
}

} // verus!
