//! The supervisor's data model: its mutable state, the phases of its
//! state machine, the events it publishes, and the values it answers
//! queries with.

use vstd::prelude::*;

verus! {

/// Number of consecutive failed liveness probes that forces a restart.
pub const FAILURE_THRESHOLD: u64 = 3;

/// Event published to external subscribers on a state transition.
#[derive(Clone, Copy, Debug, PartialEq, Eq, Structural)]
pub enum StatusEvent {
    /// A spawn attempt succeeded.
    Started,
    /// A liveness probe succeeded.
    Healthy,
    /// A spawn attempt failed.
    Error,
    /// The failure threshold was reached; the process is presumed dead.
    Restarting,
}

/// Phase of the supervisor's state machine.
#[derive(Clone, Copy, Debug, PartialEq, Eq, Structural)]
pub enum Phase {
    /// No child process is believed alive and no restart is underway.
    Stopped,
    /// A child was just (re)started; no probe has answered yet.
    RunningUnverified,
    /// The most recent probe succeeded.
    Healthy,
    /// The given number of consecutive probes failed, below the threshold.
    Degraded(u64),
    /// The child is presumed dead; the next tick attempts a start.
    Restarting,
}

/// What the polling loop must do on the current tick.
#[derive(Clone, Copy, Debug, PartialEq, Eq, Structural)]
pub enum TickAction {
    /// No child is believed alive: attempt to spawn one.
    AttemptStart,
    /// A child is believed alive: probe its liveness.
    Probe,
}

/// Immutable status answer, computed on demand and never stored.
#[derive(Clone, Copy, Debug, PartialEq, Eq, Structural)]
pub struct StatusSnapshot {
    pub running: bool,
    pub healthy: bool,
}

/// The only error that crosses the supervisor's boundary: the operating
/// system refused or failed to create the child process.
#[derive(Clone, Copy, Debug, PartialEq, Eq, Structural)]
pub enum SupervisorError {
    SpawnFailed,
}

/// The single piece of mutable supervisor state. It lives for the whole
/// host session and is mutated only through the transition operations.
#[derive(Clone, Copy, Debug, PartialEq, Eq, Structural)]
pub struct SupervisorState {
    /// Whether a child process handle is believed alive.
    pub is_running: bool,
    /// Consecutive failed liveness probes since the last success or start.
    pub consecutive_failures: u64,
    /// Tag of the current process instance. A termination listener acts
    /// only when its captured tag still matches, so events from a
    /// superseded process cannot clobber state for the new one.
    pub generation: u64,
    /// Failed spawn attempts, kept for observability only: it never gates
    /// a retry.
    pub spawn_failures: u64,
    /// Current phase of the state machine.
    pub phase: Phase,
}

impl SupervisorState {
    /// Well-formedness: the failure counter stays below the threshold
    /// while a child is believed alive, and the phase agrees with the
    /// running flag and the counter.
    pub open spec fn wf(self) -> bool {
        &&& self.is_running ==> self.consecutive_failures < FAILURE_THRESHOLD
        &&& match self.phase {
            Phase::Stopped => !self.is_running,
            Phase::RunningUnverified => self.is_running && self.consecutive_failures == 0,
            Phase::Healthy => self.is_running && self.consecutive_failures == 0,
            Phase::Degraded(n) => {
                &&& self.is_running
                &&& self.consecutive_failures == n
                &&& 1 <= n < FAILURE_THRESHOLD
            },
            Phase::Restarting => !self.is_running,
        }
    }
}

} // verus!
