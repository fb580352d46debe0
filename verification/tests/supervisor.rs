//! Scenarios driven through the supervisor engine.

use fuckrun::engine::{EngineAction, EngineConfig, EngineEvent, EngineState, Phase, RunOutcome, step};
use fuckrun::errors::SupervisorError;

fn cfg(auto_restart: bool, max_restarts: u32, has_health_check: bool) -> EngineConfig {
    EngineConfig { auto_restart, max_restarts, has_health_check, health_check_retries: 10 }
}

/// A crash loop under a budget of two restarts: three spawns in all,
/// then the budget-exhausted fault.
#[test]
fn crash_loop_hits_restart_budget() {
    let c = cfg(true, 2, false);
    let (mut st, mut act) = EngineState::init();
    assert_eq!(act, EngineAction::Spawn);
    (st, act) = step(&c, &st, &EngineEvent::SpawnOk);
    assert_eq!(act, EngineAction::WaitInit);
    (st, act) = step(&c, &st, &EngineEvent::InitElapsed);
    assert_eq!(act, EngineAction::WaitChild);
    let mut spawns: u64 = 1;
    loop {
        (st, act) = step(&c, &st, &EngineEvent::ChildExit(false));
        if act == EngineAction::Finished {
            break;
        }
        assert_eq!(act, EngineAction::WaitBackoff);
        (st, act) = step(&c, &st, &EngineEvent::BackoffElapsed);
        assert_eq!(act, EngineAction::Spawn);
        (st, act) = step(&c, &st, &EngineEvent::SpawnOk);
        assert_eq!(act, EngineAction::WaitChild);
        spawns += 1;
    }
    assert_eq!(spawns, 3);
    assert_eq!(st.spawn_count, 3);
    assert_eq!(st.restart_count, 2);
    assert_eq!(
        st.phase,
        Phase::Done(RunOutcome::Fault(SupervisorError::RestartBudgetExhausted))
    );
}

/// A crash loop under a health gate: every spawn passes its probe, the
/// child then fails; three spawns in all under a budget of two
/// restarts, then the budget-exhausted fault.
#[test]
fn gated_crash_loop_hits_restart_budget() {
    let c = cfg(true, 2, true);
    let (mut st, mut act) = EngineState::init();
    (st, act) = step(&c, &st, &EngineEvent::SpawnOk);
    assert_eq!(act, EngineAction::WaitInit);
    (st, act) = step(&c, &st, &EngineEvent::InitElapsed);
    assert_eq!(act, EngineAction::Probe);
    (st, act) = step(&c, &st, &EngineEvent::ProbeOk);
    assert_eq!(act, EngineAction::WaitChild);
    let mut spawns: u64 = 1;
    loop {
        (st, act) = step(&c, &st, &EngineEvent::ChildExit(false));
        if act == EngineAction::Finished {
            break;
        }
        assert_eq!(act, EngineAction::WaitBackoff);
        (st, act) = step(&c, &st, &EngineEvent::BackoffElapsed);
        assert_eq!(act, EngineAction::Spawn);
        (st, act) = step(&c, &st, &EngineEvent::SpawnOk);
        assert_eq!(act, EngineAction::Probe);
        (st, act) = step(&c, &st, &EngineEvent::ProbeOk);
        assert_eq!(act, EngineAction::WaitChild);
        spawns += 1;
    }
    assert_eq!(spawns, 3);
    assert_eq!(st.spawn_count, 3);
    assert_eq!(st.restart_count, 2);
    assert_eq!(
        st.phase,
        Phase::Done(RunOutcome::Fault(SupervisorError::RestartBudgetExhausted))
    );
}

/// A child that never serves: the probe budget runs out, the child is
/// killed and the run ends with the health fault.
#[test]
fn health_gate_failure_kills_child() {
    let c = EngineConfig {
        auto_restart: false,
        max_restarts: 3,
        has_health_check: true,
        health_check_retries: 3,
    };
    let (mut st, mut act) = EngineState::init();
    (st, act) = step(&c, &st, &EngineEvent::SpawnOk);
    assert_eq!(act, EngineAction::WaitInit);
    (st, act) = step(&c, &st, &EngineEvent::InitElapsed);
    assert_eq!(act, EngineAction::Probe);
    (st, act) = step(&c, &st, &EngineEvent::ProbeErr);
    assert_eq!(act, EngineAction::Probe);
    (st, act) = step(&c, &st, &EngineEvent::ProbeErr);
    assert_eq!(act, EngineAction::Probe);
    (st, act) = step(&c, &st, &EngineEvent::ProbeErr);
    assert_eq!(act, EngineAction::KillChild);
    assert_eq!(
        st.phase,
        Phase::Done(RunOutcome::Fault(SupervisorError::HealthCheckFailed))
    );
}

/// A healthy start: one probe passes and the child reaches its steady
/// state; a later clean exit ends the run without a restart.
#[test]
fn healthy_start_then_clean_exit() {
    let c = cfg(true, 3, true);
    let (mut st, mut act) = EngineState::init();
    (st, act) = step(&c, &st, &EngineEvent::SpawnOk);
    (st, act) = step(&c, &st, &EngineEvent::InitElapsed);
    assert_eq!(act, EngineAction::Probe);
    (st, act) = step(&c, &st, &EngineEvent::ProbeOk);
    assert_eq!(act, EngineAction::WaitChild);
    assert_eq!(st.phase, Phase::Running);
    (st, act) = step(&c, &st, &EngineEvent::ChildExit(true));
    assert_eq!(act, EngineAction::Finished);
    assert_eq!(st.phase, Phase::Done(RunOutcome::CleanExit));
    assert_eq!(st.restart_count, 0);
}

/// A child that dies during the initialisation wait is not restarted.
#[test]
fn death_during_init_is_terminal() {
    let c = cfg(true, 5, false);
    let (mut st, mut act) = EngineState::init();
    (st, act) = step(&c, &st, &EngineEvent::SpawnOk);
    assert_eq!(act, EngineAction::WaitInit);
    (st, act) = step(&c, &st, &EngineEvent::ChildExit(false));
    assert_eq!(act, EngineAction::Finished);
    assert_eq!(
        st.phase,
        Phase::Done(RunOutcome::Fault(SupervisorError::ChildDiedDuringInit))
    );
}

/// A refused spawn ends the run at once.
#[test]
fn spawn_failure_is_terminal() {
    let c = cfg(false, 0, false);
    let (mut st, mut act) = EngineState::init();
    (st, act) = step(&c, &st, &EngineEvent::SpawnErr);
    assert_eq!(act, EngineAction::Finished);
    assert_eq!(st.phase, Phase::Done(RunOutcome::Fault(SupervisorError::SpawnFailed)));
}

/// Without auto-restart a failing exit is a plain failed stop.
#[test]
fn failing_exit_without_restart_policy() {
    let c = cfg(false, 3, false);
    let (mut st, mut act) = EngineState::init();
    (st, act) = step(&c, &st, &EngineEvent::SpawnOk);
    (st, act) = step(&c, &st, &EngineEvent::InitElapsed);
    (st, act) = step(&c, &st, &EngineEvent::ChildExit(false));
    assert_eq!(act, EngineAction::Finished);
    assert_eq!(st.phase, Phase::Done(RunOutcome::FailedExit));
}

/// A cancellation observed while the child runs asks for a graceful
/// stop and suppresses the restart the policy would otherwise owe.
#[test]
fn cancel_suppresses_restart() {
    let c = cfg(true, 3, false);
    let (mut st, mut act) = EngineState::init();
    (st, act) = step(&c, &st, &EngineEvent::SpawnOk);
    (st, act) = step(&c, &st, &EngineEvent::InitElapsed);
    (st, act) = step(&c, &st, &EngineEvent::Cancel);
    assert_eq!(act, EngineAction::GracefulChild);
    assert!(st.cancelled);
    (st, act) = step(&c, &st, &EngineEvent::ChildExit(false));
    assert_eq!(act, EngineAction::Finished);
    assert_eq!(st.phase, Phase::Done(RunOutcome::CleanExit));
}

/// A cancelled child that ignores the graceful request is force-killed
/// once the grace period elapses, and the run still ends orderly.
#[test]
fn cancel_escalates_after_grace() {
    let c = cfg(true, 3, false);
    let (mut st, mut act) = EngineState::init();
    (st, act) = step(&c, &st, &EngineEvent::SpawnOk);
    (st, act) = step(&c, &st, &EngineEvent::InitElapsed);
    (st, act) = step(&c, &st, &EngineEvent::Cancel);
    assert_eq!(act, EngineAction::GracefulChild);
    (st, act) = step(&c, &st, &EngineEvent::GraceElapsed);
    assert_eq!(act, EngineAction::KillChild);
    assert_eq!(st.phase, Phase::Done(RunOutcome::CleanExit));
}

/// A cancelled child that exits inside the grace window is never
/// force-killed and the run ends orderly.
#[test]
fn cancel_with_prompt_exit_needs_no_force() {
    let c = cfg(true, 3, false);
    let (mut st, mut act) = EngineState::init();
    (st, act) = step(&c, &st, &EngineEvent::SpawnOk);
    (st, act) = step(&c, &st, &EngineEvent::InitElapsed);
    (st, act) = step(&c, &st, &EngineEvent::Cancel);
    assert_eq!(act, EngineAction::GracefulChild);
    (st, act) = step(&c, &st, &EngineEvent::ChildExit(false));
    assert_eq!(act, EngineAction::Finished);
    assert_eq!(st.phase, Phase::Done(RunOutcome::CleanExit));
}

/// The engine ignores events that do not belong to its current phase.
#[test]
fn stray_events_are_ignored() {
    let c = cfg(true, 3, false);
    let (st, _) = EngineState::init();
    let (st2, act) = step(&c, &st, &EngineEvent::ProbeOk);
    assert_eq!(act, EngineAction::Continue);
    assert_eq!(st2, st);
}
