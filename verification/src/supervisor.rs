use vstd::prelude::*;

use crate::errors::StartupError;
use crate::process::ProcessHandle;
use crate::state::{BackendPhase, SharedState};

verus! {

/// How the application was built to run. The startup policy is the one
/// place where the two differ.
#[derive(Clone, Copy, PartialEq, Eq, Structural, Debug)]
pub enum StartupMode {
    /// A developer's run: the backend may be started by other means, so
    /// the shell can live without its own.
    Development,
    /// An end user's run: the shell has no value without its backend.
    Production,
}

/// What the setup callback does after the launch attempt.
#[derive(Clone, Copy, PartialEq, Eq, Structural, Debug)]
pub enum StartupDecision {
    /// Keep starting the application.
    Proceed,
    /// Abort startup: the application must not run without a backend.
    Abort,
}

/// The startup policy: a failed launch is fatal in production and
/// non-fatal in development; a successful launch always proceeds.
pub open spec fn decision_for(mode: StartupMode, launched: bool) -> StartupDecision {
    if !launched && mode is Production {
        StartupDecision::Abort
    } else {
        StartupDecision::Proceed
    }
}

/// Settles the launch attempt against the shared slot: a spawned backend's
/// handle goes into the slot, a failed launch leaves the slot untouched in
/// its initial phase, and the startup policy says whether the application
/// goes on. The setup callback runs once, before any teardown, so the slot
/// is still in its initial phase.
pub fn apply_launch(
    state: &mut SharedState,
    outcome: Result<ProcessHandle, StartupError>,
    mode: StartupMode,
) -> (decision: StartupDecision)
    requires
        old(state).lifecycle() is NotStarted,
    ensures
        outcome matches Ok(handle) ==> final(state).lifecycle() == BackendPhase::Running(handle),
        outcome is Err ==> final(state).lifecycle() is NotStarted,
        decision == decision_for(mode, outcome is Ok),
{
    match outcome {
        Ok(handle) => {
            state.store(handle);
            StartupDecision::Proceed
        },
        Err(_) => match mode {
            StartupMode::Development => StartupDecision::Proceed,
            StartupMode::Production => StartupDecision::Abort,
        },
    }
}

} // verus!
