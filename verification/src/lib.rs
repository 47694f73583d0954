//! Supervisor for a single bundled backend process.
//!
//! A desktop shell spawns one backend executable at startup, keeps its
//! handle in a shared slot, and on window teardown takes the handle out of
//! the slot exactly once to terminate and reap the process. This crate holds
//! the verified core of that supervisor: the lifecycle state machine of the
//! shared slot, the step machine that sequences a launch, and the policy
//! that decides whether startup survives a failed launch. The embedding
//! shell performs the host and OS calls (path lookup, directory creation,
//! spawn, kill, wait) and feeds their results in as plain values.

pub mod errors;
pub mod launch;
pub mod process;
pub mod state;
pub mod supervisor;
