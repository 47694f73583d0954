use vstd::prelude::*;

use crate::process::ProcessHandle;

verus! {

/// Lifecycle of the backend over one application run.
///
/// There is no way back to `Running`: the design launches once and reaps
/// once, with no restart.
#[derive(Clone, Copy, PartialEq, Eq, Structural, Debug)]
pub enum BackendPhase {
    /// No backend was spawned yet; also kept after a failed launch.
    NotStarted,
    /// A backend is alive and the slot owns its handle.
    Running(ProcessHandle),
    /// The handle was taken for teardown; the slot stays empty for good.
    Stopped,
}

/// The one mutable slot shared between the setup callback and the
/// window-event callback: an optional handle to the spawned backend.
///
/// The embedding shell keeps a `SharedState` behind a mutual-exclusion
/// lock and holds that lock only for the duration of a call below, never
/// across a blocking OS call. Exclusive access during each call is what
/// the `&mut` receivers stand for; the exactly-once guarantee of teardown
/// comes from [`Self::take`] clearing the slot in the same step that
/// reads it.
pub struct SharedState {
    phase: BackendPhase,
}

/// The phase after one teardown event: a running backend stops, an empty
/// slot is left as it was.
pub open spec fn take_phase(phase: BackendPhase) -> BackendPhase {
    match phase {
        BackendPhase::NotStarted => BackendPhase::NotStarted,
        BackendPhase::Running(_) => BackendPhase::Stopped,
        BackendPhase::Stopped => BackendPhase::Stopped,
    }
}

/// The handle one teardown event yields: present exactly when a backend
/// was running.
pub open spec fn take_result(phase: BackendPhase) -> Option<ProcessHandle> {
    match phase {
        BackendPhase::Running(handle) => Some(handle),
        _ => None,
    }
}

/// The phase after `n` teardown events in a row.
pub open spec fn run_teardowns(phase: BackendPhase, n: nat) -> BackendPhase
    decreases n,
{
    if n == 0 {
        phase
    } else {
        take_phase(run_teardowns(phase, (n - 1) as nat))
    }
}

/// How many of `n` teardown events in a row yield a handle (and so
/// terminate and reap the process).
pub open spec fn handles_taken(phase: BackendPhase, n: nat) -> nat
    decreases n,
{
    if n == 0 {
        0
    } else {
        handles_taken(phase, (n - 1) as nat) + (if take_result(
            run_teardowns(phase, (n - 1) as nat),
        ) is Some {
            1nat
        } else {
            0nat
        })
    }
}

impl SharedState {
    /// Where the slot stands in the backend lifecycle.
    pub closed spec fn lifecycle(self) -> BackendPhase {
        self.phase
    }

    /// A fresh slot, created empty at application bootstrap.
    pub fn new() -> (state: SharedState)
        ensures
            state.lifecycle() == BackendPhase::NotStarted,
    {
        SharedState { phase: BackendPhase::NotStarted }
    }

    /// Stores the handle of a freshly spawned backend. Only the one
    /// successful launch stores a handle, so the slot must still be in its
    /// initial phase.
    pub fn store(&mut self, handle: ProcessHandle)
        requires
            old(self).lifecycle() is NotStarted,
        ensures
            final(self).lifecycle() == BackendPhase::Running(handle),
    {
        self.phase = BackendPhase::Running(handle);
    }

    /// One teardown event: reads the slot and clears it in the same step.
    /// Yields the handle exactly when a backend was running; the caller
    /// then terminates and reaps that process outside the lock. An empty
    /// slot makes this a no-op.
    pub fn take(&mut self) -> (taken: Option<ProcessHandle>)
        ensures
            final(self).lifecycle() == take_phase(old(self).lifecycle()),
            taken == take_result(old(self).lifecycle()),
    {
        match self.phase {
            BackendPhase::Running(handle) => {
                self.phase = BackendPhase::Stopped;
                Some(handle)
            },
            _ => None,
        }
    }

    /// Whether the slot currently owns a live backend handle.
    pub fn is_running(&self) -> (r: bool)
        ensures
            r == (self.lifecycle() is Running),
    {
        matches!(self.phase, BackendPhase::Running(_))
    }

    /// Whether a teardown already took the handle out.
    pub fn has_stopped(&self) -> (r: bool)
        ensures
            r == (self.lifecycle() is Stopped),
    {
        matches!(self.phase, BackendPhase::Stopped)
    }
}

/// Teardown runs exactly once. After a successful launch, any number of
/// teardown events in a row yields the handle — and so terminates and
/// reaps the backend — exactly once, and leaves the slot stopped.
pub proof fn lemma_teardown_exactly_once(handle: ProcessHandle, n: nat)
    requires
        n >= 1,
    ensures
        handles_taken(BackendPhase::Running(handle), n) == 1,
        run_teardowns(BackendPhase::Running(handle), n) == BackendPhase::Stopped,
    decreases n,
{
    if n == 1 {
        assert(handles_taken(BackendPhase::Running(handle), 0) == 0);
        assert(run_teardowns(BackendPhase::Running(handle), 0) == BackendPhase::Running(handle));
    } else {
        lemma_teardown_exactly_once(handle, (n - 1) as nat);
    }
}

/// Teardown before any launch is a no-op: however many teardown events
/// arrive while the slot is in its initial phase — as it is after a failed
/// launch too — none yields a handle and the slot never leaves that phase.
pub proof fn lemma_teardown_noop_before_launch(n: nat)
    ensures
        run_teardowns(BackendPhase::NotStarted, n) == BackendPhase::NotStarted,
        handles_taken(BackendPhase::NotStarted, n) == 0,
    decreases n,
{
    if n > 0 {
        lemma_teardown_noop_before_launch((n - 1) as nat);
    }
}

/// After a successful take the slot is observably empty to every later
/// reader: no teardown event after the first can see a handle, so no two
/// teardowns ever observe the same one.
pub proof fn lemma_taken_stays_empty(handle: ProcessHandle, n: nat)
    requires
        n >= 1,
    ensures
        take_result(run_teardowns(BackendPhase::Running(handle), n)) is None,
{
    lemma_teardown_exactly_once(handle, n);
}

} // verus!
