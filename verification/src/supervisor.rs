//! Executable supervisor operations. Each operation is proved equal to
//! its transition in the mathematical model and to preserve
//! well-formedness; the host performs the spawns, probes and timers and
//! feeds their outcomes in.

use vstd::prelude::*;

use crate::model::initial_state;
use crate::model::spec_apply_probe;
use crate::model::spec_apply_start;
use crate::model::spec_begin_restart;
use crate::model::spec_on_termination;
use crate::model::spec_probe_event;
use crate::model::spec_start_event;
use crate::model::spec_status;
use crate::state::FAILURE_THRESHOLD;
use crate::state::Phase;
use crate::state::StatusEvent;
use crate::state::StatusSnapshot;
use crate::state::SupervisorError;
use crate::state::SupervisorState;
use crate::state::TickAction;

verus! {

impl SupervisorState {
    /// The state at host start.
    pub fn new() -> (s: Self)
        ensures
            s == initial_state(),
            s.wf(),
    {
        SupervisorState {
            is_running: false,
            consecutive_failures: 0,
            generation: 0,
            spawn_failures: 0,
            phase: Phase::Stopped,
        }
    }

    /// Runtime check of well-formedness, for callers outside the proof
    /// boundary that must test a transition's precondition before
    /// invoking it.
    pub fn is_well_formed(&self) -> (b: bool)
        ensures
            b == self.wf(),
    {
        let threshold_ok = !self.is_running || self.consecutive_failures < FAILURE_THRESHOLD;
        let phase_ok = match self.phase {
            Phase::Stopped => !self.is_running,
            Phase::RunningUnverified => self.is_running && self.consecutive_failures == 0,
            Phase::Healthy => self.is_running && self.consecutive_failures == 0,
            Phase::Degraded(n) => self.is_running && self.consecutive_failures == n && 1 <= n
                && n < FAILURE_THRESHOLD,
            Phase::Restarting => !self.is_running,
        };
        threshold_ok && phase_ok
    }

    /// What the polling loop must do this tick: starting takes priority
    /// over probing, and while nothing is running no probe is performed.
    pub fn tick_action(&self) -> (a: TickAction)
        ensures
            a == (if self.is_running {
                TickAction::Probe
            } else {
                TickAction::AttemptStart
            }),
    {
        if self.is_running {
            TickAction::Probe
        } else {
            TickAction::AttemptStart
        }
    }

    /// Record the outcome of a spawn attempt and name the event to
    /// publish. Success makes the new process canonical under a fresh
    /// generation tag and resets the failure counter whatever it was;
    /// failure only counts, and the next tick retries.
    pub fn apply_start_result(&mut self, ok: bool) -> (e: StatusEvent)
        requires
            !old(self).is_running,
            old(self).wf(),
        ensures
            *final(self) == spec_apply_start(*old(self), ok),
            final(self).wf(),
            e == spec_start_event(ok),
            ok ==> final(self).is_running && final(self).consecutive_failures == 0,
            !ok ==> !final(self).is_running,
    {
        if ok {
            self.is_running = true;
            self.consecutive_failures = 0;
            self.generation = if self.generation == u64::MAX {
                0
            } else {
                self.generation + 1
            };
            self.phase = Phase::RunningUnverified;
            StatusEvent::Started
        } else {
            self.spawn_failures = if self.spawn_failures == u64::MAX {
                u64::MAX
            } else {
                self.spawn_failures + 1
            };
            self.phase = Phase::Stopped;
            StatusEvent::Error
        }
    }

    /// Record the outcome of one liveness probe and name the event to
    /// publish, if any. Success resets the failure counter; the failure
    /// that reaches the threshold presumes the child dead, so the next
    /// tick attempts a start.
    pub fn apply_probe_result(&mut self, ok: bool) -> (e: Option<StatusEvent>)
        requires
            old(self).is_running,
            old(self).wf(),
        ensures
            *final(self) == spec_apply_probe(*old(self), ok),
            final(self).wf(),
            e == spec_probe_event(*old(self), ok),
            ok ==> final(self).is_running && final(self).consecutive_failures == 0,
            !ok ==> final(self).consecutive_failures == old(self).consecutive_failures + 1,
            (e == Some(StatusEvent::Restarting)) <==> (!ok && old(self).consecutive_failures + 1
                >= FAILURE_THRESHOLD),
            (e == Some(StatusEvent::Restarting)) ==> !final(self).is_running,
    {
        if ok {
            self.consecutive_failures = 0;
            self.phase = Phase::Healthy;
            Some(StatusEvent::Healthy)
        } else {
            self.consecutive_failures = self.consecutive_failures + 1;
            if self.consecutive_failures >= FAILURE_THRESHOLD {
                self.is_running = false;
                self.phase = Phase::Restarting;
                Some(StatusEvent::Restarting)
            } else {
                self.phase = Phase::Degraded(self.consecutive_failures);
                None
            }
        }
    }

    /// Whether answering a status query calls for a fresh probe: it does
    /// exactly while a child is believed alive. While nothing is running
    /// the query is answered without probing.
    pub fn status_needs_probe(&self) -> (b: bool)
        ensures
            b == self.is_running,
    {
        self.is_running
    }

    /// Answer a status query from the probe outcome the caller obtained
    /// (`None` when no probe was performed). The answer is a point read:
    /// it mutates nothing, and while nothing is running it is unhealthy
    /// whatever the probe argument says.
    pub fn get_status(&self, probe: Option<bool>) -> (st: StatusSnapshot)
        ensures
            st == spec_status(*self, probe),
            !self.is_running ==> !st.healthy,
    {
        let healthy = if self.is_running {
            match probe {
                Some(true) => true,
                _ => false,
            }
        } else {
            false
        };
        StatusSnapshot { running: self.is_running, healthy }
    }

    /// The first half of an explicit restart: give the current child up
    /// immediately. The host then waits out the grace period and attempts
    /// the spawn.
    pub fn begin_restart(&mut self)
        requires
            old(self).wf(),
        ensures
            *final(self) == spec_begin_restart(*old(self)),
            final(self).wf(),
            !final(self).is_running,
    {
        self.is_running = false;
        self.phase = Phase::Restarting;
    }

    /// The second half of an explicit restart: record the spawn outcome
    /// exactly as the polling loop would, and answer the caller
    /// synchronously. Only a failed spawn crosses the boundary as an
    /// error.
    pub fn complete_restart(&mut self, spawn_ok: bool) -> (r: Result<(), SupervisorError>)
        requires
            !old(self).is_running,
            old(self).wf(),
        ensures
            *final(self) == spec_apply_start(*old(self), spawn_ok),
            final(self).wf(),
            r == (if spawn_ok {
                Result::<(), SupervisorError>::Ok(())
            } else {
                Result::<(), SupervisorError>::Err(SupervisorError::SpawnFailed)
            }),
    {
        let _event = self.apply_start_result(spawn_ok);
        if spawn_ok {
            Ok(())
        } else {
            Err(SupervisorError::SpawnFailed)
        }
    }

    /// A termination listener fired with the generation tag it captured
    /// at spawn time. It marks the child dead at most once and only while
    /// its process is still the canonical one; an event from a superseded
    /// generation changes nothing. Returns whether it acted.
    pub fn on_termination(&mut self, observed_generation: u64) -> (acted: bool)
        requires
            old(self).wf(),
        ensures
            *final(self) == spec_on_termination(*old(self), observed_generation),
            final(self).wf(),
            acted == (observed_generation == old(self).generation && old(self).is_running),
            !acted ==> *final(self) == *old(self),
    {
        if observed_generation == self.generation && self.is_running {
            self.is_running = false;
            self.phase = Phase::Stopped;
            true
        } else {
            false
        }
    }
}

impl StatusEvent {
    /// The tag delivered to subscribers; the event carries no payload
    /// beyond it.
    pub fn tag(&self) -> (t: &'static str)
        ensures
            t@ == self.spec_tag(),
    {
        match self {
            StatusEvent::Started => "started",
            StatusEvent::Healthy => "healthy",
            StatusEvent::Error => "error",
            StatusEvent::Restarting => "restarting",
        }
    }

    /// The tag of each event.
    pub open spec fn spec_tag(self) -> Seq<char> {
        match self {
            StatusEvent::Started => "started"@,
            StatusEvent::Healthy => "healthy"@,
            StatusEvent::Error => "error"@,
            StatusEvent::Restarting => "restarting"@,
        }
    }
}

} // verus!
