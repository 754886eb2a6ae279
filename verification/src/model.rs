//! Mathematical model of the supervisor: each transition of the state
//! machine as a spec function, together with the fold of a whole probe
//! sequence and the trailing-failure count that drives the threshold.

use vstd::prelude::*;

use crate::state::FAILURE_THRESHOLD;
use crate::state::Phase;
use crate::state::StatusEvent;
use crate::state::StatusSnapshot;
use crate::state::SupervisorState;

verus! {

/// The state at host start: nothing running, all counters zero.
pub open spec fn initial_state() -> SupervisorState {
    SupervisorState {
        is_running: false,
        consecutive_failures: 0,
        generation: 0,
        spawn_failures: 0,
        phase: Phase::Stopped,
    }
}

/// Generation tag of the next process instance.
pub open spec fn next_generation(g: u64) -> u64 {
    if g == u64::MAX {
        0
    } else {
        (g + 1) as u64
    }
}

/// One more failed spawn attempt, counted without wrapping.
pub open spec fn count_spawn_failure(n: u64) -> u64 {
    if n == u64::MAX {
        u64::MAX
    } else {
        (n + 1) as u64
    }
}

/// Outcome of a spawn attempt, applied while nothing is running: success
/// makes the new process the canonical generation and resets the failure
/// counter; failure only counts, and the next tick retries.
pub open spec fn spec_apply_start(s: SupervisorState, ok: bool) -> SupervisorState {
    if ok {
        SupervisorState {
            is_running: true,
            consecutive_failures: 0,
            generation: next_generation(s.generation),
            phase: Phase::RunningUnverified,
            ..s
        }
    } else {
        SupervisorState { spawn_failures: count_spawn_failure(s.spawn_failures), phase: Phase::Stopped, ..s }
    }
}

/// Event published for a spawn attempt's outcome.
pub open spec fn spec_start_event(ok: bool) -> StatusEvent {
    if ok {
        StatusEvent::Started
    } else {
        StatusEvent::Error
    }
}

/// Outcome of one liveness probe. A probe is only performed while a child
/// is believed alive; otherwise it changes nothing. Success resets the
/// failure counter; the failure that reaches the threshold presumes the
/// child dead without killing it, so the next tick's start supersedes it.
pub open spec fn spec_apply_probe(s: SupervisorState, ok: bool) -> SupervisorState {
    if !s.is_running {
        s
    } else if ok {
        SupervisorState { consecutive_failures: 0, phase: Phase::Healthy, ..s }
    } else if s.consecutive_failures + 1 >= FAILURE_THRESHOLD {
        SupervisorState {
            consecutive_failures: (s.consecutive_failures + 1) as u64,
            is_running: false,
            phase: Phase::Restarting,
            ..s
        }
    } else {
        SupervisorState {
            consecutive_failures: (s.consecutive_failures + 1) as u64,
            phase: Phase::Degraded((s.consecutive_failures + 1) as u64),
            ..s
        }
    }
}

/// Event published for one probe outcome: success is announced, a failure
/// below the threshold is internal only, and the failure that reaches the
/// threshold announces the restart.
pub open spec fn spec_probe_event(s: SupervisorState, ok: bool) -> Option<StatusEvent> {
    if !s.is_running {
        None
    } else if ok {
        Some(StatusEvent::Healthy)
    } else if s.consecutive_failures + 1 >= FAILURE_THRESHOLD {
        Some(StatusEvent::Restarting)
    } else {
        None
    }
}

/// The first half of an explicit restart: the current child is given up
/// immediately, whatever phase the machine was in.
pub open spec fn spec_begin_restart(s: SupervisorState) -> SupervisorState {
    SupervisorState { is_running: false, phase: Phase::Restarting, ..s }
}

/// A termination listener firing with the generation tag it captured at
/// spawn time. It acts at most once and only while its process is still
/// the canonical one; a superseded or repeated event is a no-op.
pub open spec fn spec_on_termination(s: SupervisorState, observed: u64) -> SupervisorState {
    if observed == s.generation && s.is_running {
        SupervisorState { is_running: false, phase: Phase::Stopped, ..s }
    } else {
        s
    }
}

/// Status answered to a query, given the probe outcome the caller
/// obtained (`None` when no probe was performed). While nothing is
/// running the answer is unhealthy whatever the probe argument says.
pub open spec fn spec_status(s: SupervisorState, probe: Option<bool>) -> StatusSnapshot {
    StatusSnapshot { running: s.is_running, healthy: s.is_running && probe == Some(true) }
}

/// Fold a whole sequence of probe outcomes over the state, oldest first.
pub open spec fn run_probes(s: SupervisorState, probes: Seq<bool>) -> SupervisorState
    decreases probes.len(),
{
    if probes.len() == 0 {
        s
    } else {
        spec_apply_probe(run_probes(s, probes.drop_last()), probes.last())
    }
}

/// Number of consecutive failures at the end of a probe sequence: the
/// length of its longest all-failure suffix.
pub open spec fn trailing_failures(probes: Seq<bool>) -> nat
    decreases probes.len(),
{
    if probes.len() == 0 {
        0
    } else if probes.last() {
        0
    } else {
        trailing_failures(probes.drop_last()) + 1
    }
}

} // verus!
