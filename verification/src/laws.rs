//! Laws of the supervisor, proved over the mathematical model that the
//! executable operations are tied to.

use vstd::prelude::*;

use crate::model::run_probes;
use crate::model::spec_apply_probe;
use crate::model::spec_apply_start;
use crate::model::spec_begin_restart;
use crate::model::spec_on_termination;
use crate::model::spec_probe_event;
use crate::model::spec_status;
use crate::model::trailing_failures;
use crate::state::FAILURE_THRESHOLD;
use crate::state::StatusEvent;
use crate::state::SupervisorState;

verus! {

/// Reset law: a successful start and a successful probe both reset the
/// consecutive-failure counter to zero, whatever its prior value, and
/// every transition into the running state does so.
pub proof fn lemma_reset_on_success(s: SupervisorState)
    ensures
        spec_apply_start(s, true).consecutive_failures == 0,
        s.is_running ==> spec_apply_probe(s, true).consecutive_failures == 0,
        !s.is_running && spec_apply_start(s, true).is_running ==> spec_apply_start(
            s,
            true,
        ).consecutive_failures == 0,
{
}

/// Status honesty: while nothing is running a status query answers
/// unhealthy, and the answer does not depend on any probe outcome at all
/// — no probe need be performed.
pub proof fn lemma_status_honesty(s: SupervisorState, probe: Option<bool>)
    requires
        !s.is_running,
    ensures
        !spec_status(s, probe).healthy,
        spec_status(s, probe) == spec_status(s, None::<bool>),
{
}

/// A termination event whose captured generation tag is no longer the
/// canonical one changes nothing.
pub proof fn lemma_superseded_termination_is_noop(s: SupervisorState, observed: u64)
    requires
        observed != s.generation,
    ensures
        spec_on_termination(s, observed) == s,
{
}

/// Idempotent restart: two explicit restarts in rapid succession, both
/// spawns succeeding, leave exactly one canonical process generation;
/// the superseded generation's termination listener is a no-op on the
/// final state.
pub proof fn lemma_idempotent_restart(s: SupervisorState)
    requires
        s.wf(),
        s.generation < u64::MAX - 1,
    ensures
        ({
            let s1 = spec_apply_start(spec_begin_restart(s), true);
            let s2 = spec_apply_start(spec_begin_restart(s1), true);
            &&& s1.generation != s2.generation
            &&& s2.is_running
            &&& spec_on_termination(s2, s1.generation) == s2
        }),
{
}

/// Folding a probe sequence over a freshly started state keeps the state
/// well formed, and as long as the machine is still running the failure
/// counter equals the sequence's trailing-failure count, which stays
/// below the threshold.
pub proof fn lemma_run_probes_counter(s0: SupervisorState, probes: Seq<bool>)
    requires
        s0.wf(),
        s0.is_running,
        s0.consecutive_failures == 0,
    ensures
        run_probes(s0, probes).wf(),
        run_probes(s0, probes).is_running ==> run_probes(s0, probes).consecutive_failures
            == trailing_failures(probes) && trailing_failures(probes) < FAILURE_THRESHOLD,
    decreases probes.len(),
{
    if probes.len() == 0 {
    } else {
        lemma_run_probes_counter(s0, probes.drop_last());
    }
}

/// A trailing-failure count of at least one means the last probe failed;
/// of at least two, the one before it as well.
proof fn lemma_trailing_failures_tail(q: Seq<bool>)
    ensures
        trailing_failures(q) >= 1 ==> q.len() >= 1 && !q[q.len() - 1],
        trailing_failures(q) >= 2 ==> q.len() >= 2 && !q[q.len() - 2],
{
    if trailing_failures(q) >= 2 {
        let d = q.drop_last();
        assert(trailing_failures(d) >= 1);
        assert(!d[d.len() - 1]);
        assert(d[d.len() - 1] == q[q.len() - 2]);
    }
}

/// If the last two probes of a sequence failed, its trailing-failure
/// count is at least two.
proof fn lemma_trailing_failures_lower(q: Seq<bool>)
    requires
        q.len() >= 2,
        !q[q.len() - 1],
        !q[q.len() - 2],
    ensures
        trailing_failures(q) >= 2,
{
    let d = q.drop_last();
    assert(d[d.len() - 1] == q[q.len() - 2]);
    assert(trailing_failures(q) == trailing_failures(d) + 1);
    assert(trailing_failures(d) >= 1);
}

/// Threshold exactness: starting from a freshly started state, as long
/// as the machine is still running after the first `i` probe outcomes,
/// the probe at position `i` fires the `restarting` transition if and
/// only if it is the third consecutive failure — that is, exactly three
/// consecutive failures have been observed since the last success or the
/// start.
pub proof fn lemma_threshold_exactness(s0: SupervisorState, probes: Seq<bool>, i: int)
    requires
        s0.wf(),
        s0.is_running,
        s0.consecutive_failures == 0,
        0 <= i < probes.len(),
        run_probes(s0, probes.take(i)).is_running,
    ensures
        (spec_probe_event(run_probes(s0, probes.take(i)), probes[i]) == Some(
            StatusEvent::Restarting,
        )) <==> (!probes[i] && i >= 2 && !probes[i - 1] && !probes[i - 2]),
{
    let q = probes.take(i);
    lemma_run_probes_counter(s0, q);
    let m = run_probes(s0, q);
    assert(m.consecutive_failures == trailing_failures(q));
    assert(trailing_failures(q) < FAILURE_THRESHOLD);
    if spec_probe_event(m, probes[i]) == Some(StatusEvent::Restarting) {
        assert(!probes[i]);
        assert(trailing_failures(q) == 2);
        lemma_trailing_failures_tail(q);
        assert(i >= 2);
        assert(!q[i - 1] && !q[i - 2]);
        assert(!probes[i - 1] && !probes[i - 2]);
    }
    if !probes[i] && i >= 2 && !probes[i - 1] && !probes[i - 2] {
        assert(q[i - 1] == probes[i - 1]);
        assert(q[i - 2] == probes[i - 2]);
        lemma_trailing_failures_lower(q);
        assert(trailing_failures(q) == 2);
        assert(spec_probe_event(m, probes[i]) == Some(StatusEvent::Restarting));
    }
}

} // verus!
