use sidecar_supervisor::state::Phase;
use sidecar_supervisor::state::StatusEvent;
use sidecar_supervisor::state::StatusSnapshot;
use sidecar_supervisor::state::SupervisorError;
use sidecar_supervisor::state::SupervisorState;
use sidecar_supervisor::state::TickAction;
use sidecar_supervisor::state::FAILURE_THRESHOLD;

#[test]
fn fresh_state_is_stopped() {
    let s = SupervisorState::new();
    assert!(!s.is_running);
    assert_eq!(s.consecutive_failures, 0);
    assert_eq!(s.generation, 0);
    assert_eq!(s.spawn_failures, 0);
    assert_eq!(s.phase, Phase::Stopped);
    assert!(s.is_well_formed());
}

#[test]
fn scenario_fresh_start_then_first_probe_healthy() {
    let mut s = SupervisorState::new();
    let mut events: Vec<StatusEvent> = Vec::new();

    assert_eq!(s.tick_action(), TickAction::AttemptStart);
    events.push(s.apply_start_result(true));
    assert_eq!(s.phase, Phase::RunningUnverified);

    assert_eq!(s.tick_action(), TickAction::Probe);
    if let Some(e) = s.apply_probe_result(true) {
        events.push(e);
    }
    assert_eq!(s.phase, Phase::Healthy);

    assert!(s.status_needs_probe());
    let st = s.get_status(Some(true));
    assert_eq!(st, StatusSnapshot { running: true, healthy: true });

    assert_eq!(events, vec![StatusEvent::Started, StatusEvent::Healthy]);
}

#[test]
fn scenario_three_consecutive_failures_fire_restarting() {
    let mut s = SupervisorState::new();
    let _ = s.apply_start_result(true);
    let mut events: Vec<StatusEvent> = Vec::new();

    for _ in 0..3 {
        assert_eq!(s.tick_action(), TickAction::Probe);
        if let Some(e) = s.apply_probe_result(false) {
            events.push(e);
        }
    }

    assert_eq!(events, vec![StatusEvent::Restarting]);
    assert!(!s.is_running);
    assert_eq!(s.phase, Phase::Restarting);
    assert_eq!(s.consecutive_failures, FAILURE_THRESHOLD);
    assert_eq!(s.tick_action(), TickAction::AttemptStart);
}

#[test]
fn scenario_spawn_failure_reports_stopped_and_retries() {
    let mut s = SupervisorState::new();
    let e = s.apply_start_result(false);
    assert_eq!(e, StatusEvent::Error);

    assert!(!s.status_needs_probe());
    let st = s.get_status(None);
    assert_eq!(st, StatusSnapshot { running: false, healthy: false });

    assert_eq!(s.spawn_failures, 1);
    assert_eq!(s.tick_action(), TickAction::AttemptStart);
}

#[test]
fn scenario_double_restart_keeps_one_canonical_generation() {
    let mut s = SupervisorState::new();
    let _ = s.apply_start_result(true);

    s.begin_restart();
    assert!(!s.is_running);
    assert_eq!(s.complete_restart(true), Ok(()));
    let g1: u64 = s.generation;

    s.begin_restart();
    assert_eq!(s.complete_restart(true), Ok(()));
    let g2: u64 = s.generation;

    assert_ne!(g1, g2);
    assert!(s.is_running);

    let before = s;
    let acted = s.on_termination(g1);
    assert!(!acted);
    assert_eq!(s, before);
    assert!(s.is_running);
}

#[test]
fn threshold_needs_three_consecutive_failures() {
    let mut s = SupervisorState::new();
    let _ = s.apply_start_result(true);

    assert_eq!(s.apply_probe_result(false), None);
    assert_eq!(s.phase, Phase::Degraded(1));
    assert_eq!(s.apply_probe_result(false), None);
    assert_eq!(s.phase, Phase::Degraded(2));
    assert_eq!(s.apply_probe_result(true), Some(StatusEvent::Healthy));
    assert_eq!(s.consecutive_failures, 0);

    assert_eq!(s.apply_probe_result(false), None);
    assert_eq!(s.apply_probe_result(false), None);
    assert_eq!(s.apply_probe_result(false), Some(StatusEvent::Restarting));
}

#[test]
fn probe_success_resets_counter() {
    let mut s = SupervisorState::new();
    let _ = s.apply_start_result(true);
    let _ = s.apply_probe_result(false);
    let _ = s.apply_probe_result(false);
    assert_eq!(s.consecutive_failures, 2);

    let e = s.apply_probe_result(true);
    assert_eq!(e, Some(StatusEvent::Healthy));
    assert_eq!(s.consecutive_failures, 0);
}

#[test]
fn start_success_resets_counter() {
    let s0 = SupervisorState {
        is_running: false,
        consecutive_failures: 3,
        generation: 7,
        spawn_failures: 2,
        phase: Phase::Restarting,
    };
    assert!(s0.is_well_formed());
    let mut s = s0;
    let e = s.apply_start_result(true);
    assert_eq!(e, StatusEvent::Started);
    assert_eq!(s.consecutive_failures, 0);
    assert_eq!(s.generation, 8);
    assert_eq!(s.phase, Phase::RunningUnverified);
}

#[test]
fn status_ignores_probe_argument_while_stopped() {
    let s = SupervisorState::new();
    let st = s.get_status(Some(true));
    assert_eq!(st, StatusSnapshot { running: false, healthy: false });
    assert_eq!(st, s.get_status(None));
}

#[test]
fn status_reports_probe_outcome_while_running() {
    let mut s = SupervisorState::new();
    let _ = s.apply_start_result(true);
    assert!(s.status_needs_probe());
    assert_eq!(s.get_status(Some(false)), StatusSnapshot { running: true, healthy: false });
    assert_eq!(s.get_status(Some(true)), StatusSnapshot { running: true, healthy: true });
}

#[test]
fn failed_restart_returns_spawn_error() {
    let mut s = SupervisorState::new();
    let _ = s.apply_start_result(true);
    s.begin_restart();
    assert_eq!(s.complete_restart(false), Err(SupervisorError::SpawnFailed));
    assert!(!s.is_running);
    assert_eq!(s.phase, Phase::Stopped);
    assert_eq!(s.tick_action(), TickAction::AttemptStart);
}

#[test]
fn termination_of_current_generation_acts_exactly_once() {
    let mut s = SupervisorState::new();
    let _ = s.apply_start_result(true);
    let g: u64 = s.generation;

    assert!(s.on_termination(g));
    assert!(!s.is_running);
    assert_eq!(s.phase, Phase::Stopped);

    assert!(!s.on_termination(g));
    assert!(!s.is_running);
}

#[test]
fn event_tags_match_published_strings() {
    assert_eq!(StatusEvent::Started.tag(), "started");
    assert_eq!(StatusEvent::Healthy.tag(), "healthy");
    assert_eq!(StatusEvent::Error.tag(), "error");
    assert_eq!(StatusEvent::Restarting.tag(), "restarting");
}

#[test]
fn spawn_failure_counter_saturates() {
    let s0 = SupervisorState {
        is_running: false,
        consecutive_failures: 0,
        generation: 1,
        spawn_failures: u64::MAX,
        phase: Phase::Stopped,
    };
    let mut s = s0;
    let e = s.apply_start_result(false);
    assert_eq!(e, StatusEvent::Error);
    assert_eq!(s.spawn_failures, u64::MAX);
}

#[test]
fn generation_wraps_at_maximum() {
    let s0 = SupervisorState {
        is_running: false,
        consecutive_failures: 0,
        generation: u64::MAX,
        spawn_failures: 0,
        phase: Phase::Stopped,
    };
    let mut s = s0;
    let _ = s.apply_start_result(true);
    assert_eq!(s.generation, 0);
    assert!(s.is_running);
}
