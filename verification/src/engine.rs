//! The supervisor engine: the launch, init-wait, health-gate, run,
//! exit-classify, restart state machine for one named process.
//!
//! The engine is a pure transition function from a state and an observed
//! event to the next state and the action the surrounding runner must
//! perform next. Everything the supervisor decides — when to gate on
//! health, when to restart, when a run is over and with which outcome —
//! is decided and verified here; the runner only spawns, sleeps, probes
//! and waits, and reports what it saw as the next event.

use vstd::prelude::*;
use crate::errors::SupervisorError;

verus! {

/// The restart and health-gate policy the engine runs under.
#[derive(Clone, Copy, Debug, PartialEq, Eq, Structural)]
pub struct EngineConfig {
    /// Whether a failing exit is answered with a restart.
    pub auto_restart: bool,
    /// How many restarts are budgeted; the initial spawn is not counted.
    pub max_restarts: u32,
    /// Whether a health check URL is configured at all.
    pub has_health_check: bool,
    /// How many probes the health gate may attempt.
    pub health_check_retries: u32,
}

impl EngineConfig {
    /// A usable policy: the probe budget is never zero (a validated
    /// configuration guarantees this).
    pub open spec fn wf(&self) -> bool {
        self.health_check_retries >= 1
    }
}

/// How a supervised run ended.
#[derive(Clone, Copy, Debug, PartialEq, Eq, Structural)]
pub enum RunOutcome {
    /// The child exited cleanly, or the run was cancelled in an orderly way.
    CleanExit,
    /// The child exited with a failure and no restart was owed.
    FailedExit,
    /// The run ended with a supervisor failure.
    Fault(SupervisorError),
}

/// Where the supervisor stands in the life of one run.
#[derive(Clone, Copy, Debug, PartialEq, Eq, Structural)]
pub enum Phase {
    /// A spawn has been requested and its result is awaited.
    Spawning,
    /// The initialisation wait after the initial spawn.
    InitWait,
    /// The health gate is probing.
    Probing,
    /// The child runs; the supervisor waits for its exit.
    Running,
    /// A failing exit was seen; the restart delay is running.
    BackingOff,
    /// The run is over.
    Done(RunOutcome),
}

/// The engine's state between two events.
#[derive(Clone, Copy, Debug, PartialEq, Eq, Structural)]
pub struct EngineState {
    /// The current phase.
    pub phase: Phase,
    /// How many spawns have succeeded so far.
    pub spawn_count: u64,
    /// How many restarts have been performed so far.
    pub restart_count: u64,
    /// How many health probes have failed in the current gate.
    pub probes_done: u32,
    /// Whether an interrupt asked the run to wind down.
    pub cancelled: bool,
}

/// What the runner observed since the last step.
#[derive(Clone, Copy, Debug, PartialEq, Eq, Structural)]
pub enum EngineEvent {
    /// The requested spawn succeeded.
    SpawnOk,
    /// The operating system refused the spawn.
    SpawnErr,
    /// The initialisation wait elapsed with the child still up.
    InitElapsed,
    /// The child exited; `true` means exit status zero.
    ChildExit(bool),
    /// A health probe answered with a success status.
    ProbeOk,
    /// A health probe failed, timed out, or answered badly.
    ProbeErr,
    /// The restart backoff delay elapsed.
    BackoffElapsed,
    /// An operating-system interrupt arrived.
    Cancel,
    /// The grace period after a cancellation's graceful request
    /// elapsed with the child still up.
    GraceElapsed,
}

/// What the runner must do next.
#[derive(Clone, Copy, Debug, PartialEq, Eq, Structural)]
pub enum EngineAction {
    /// Spawn the child, then report `SpawnOk` or `SpawnErr`.
    Spawn,
    /// Sleep the initialisation wait, watching the child.
    WaitInit,
    /// Issue one health probe, after the between-probe delay if any
    /// probe was already made.
    Probe,
    /// Wait for the child to exit.
    WaitChild,
    /// Sleep the restart delay, then report `BackoffElapsed`.
    WaitBackoff,
    /// Force-kill the child; the run is over.
    KillChild,
    /// Ask the child to terminate gracefully, then watch it for the
    /// grace period; report its exit, or `GraceElapsed` if it is still
    /// up when the period ends.
    GracefulChild,
    /// Keep doing what the previous action asked.
    Continue,
    /// Nothing; the run is over.
    Finished,
}

impl EngineState {
    /// The engine invariant. The restart counter never runs ahead of the
    /// spawns and never exceeds its budget; while a child is owed or
    /// watched, exactly one more spawn than restarts has happened; while
    /// probing, the probe budget is not yet exhausted.
    pub open spec fn wf(&self, cfg: EngineConfig) -> bool {
        &&& self.restart_count <= self.spawn_count
        &&& self.spawn_count <= self.restart_count + 1
        &&& self.restart_count <= cfg.max_restarts
        &&& self.phase is Spawning ==> self.spawn_count == self.restart_count
        &&& (self.phase is InitWait || self.phase is Probing || self.phase is Running
            || self.phase is BackingOff) ==> self.spawn_count == self.restart_count + 1
        &&& self.phase is BackingOff ==> self.restart_count < cfg.max_restarts
        &&& self.phase is Probing ==> self.probes_done < cfg.health_check_retries
    }

    /// The state a run begins in: nothing spawned, ready to spawn.
    pub open spec fn spec_init() -> EngineState {
        EngineState {
            phase: Phase::Spawning,
            spawn_count: 0,
            restart_count: 0,
            probes_done: 0,
            cancelled: false,
        }
    }

    /// Begins a run: the first action is the initial spawn.
    pub fn init() -> (r: (EngineState, EngineAction))
        ensures
            r.0 == EngineState::spec_init(),
            r.1 == EngineAction::Spawn,
            forall|cfg: EngineConfig| r.0.wf(cfg),
    {
        (
            EngineState {
                phase: Phase::Spawning,
                spawn_count: 0,
                restart_count: 0,
                probes_done: 0,
                cancelled: false,
            },
            EngineAction::Spawn,
        )
    }
}

/// Where a spawn success leads: the initial spawn is gated by the
/// initialisation wait; a respawn goes straight to the health gate, or to
/// running when no health check is configured.
pub open spec fn spec_after_spawn_ok(cfg: EngineConfig, st: EngineState) -> (
    EngineState,
    EngineAction,
) {
    let grown = EngineState { spawn_count: (st.spawn_count + 1) as u64, ..st };
    if st.spawn_count == 0 {
        (EngineState { phase: Phase::InitWait, ..grown }, EngineAction::WaitInit)
    } else if cfg.has_health_check {
        (EngineState { phase: Phase::Probing, probes_done: 0, ..grown }, EngineAction::Probe)
    } else {
        (EngineState { phase: Phase::Running, ..grown }, EngineAction::WaitChild)
    }
}

/// Classifies a child exit seen while the child was in its steady state:
/// a clean exit stops the run; a failing exit is answered with a restart
/// while the policy allows one, with a budget fault when the budget is
/// spent, and with a plain failed stop otherwise.
pub open spec fn spec_classify_exit(cfg: EngineConfig, st: EngineState, clean: bool) -> (
    EngineState,
    EngineAction,
) {
    if clean {
        (EngineState { phase: Phase::Done(RunOutcome::CleanExit), ..st }, EngineAction::Finished)
    } else if st.cancelled {
        (EngineState { phase: Phase::Done(RunOutcome::CleanExit), ..st }, EngineAction::Finished)
    } else if cfg.auto_restart && st.restart_count < cfg.max_restarts {
        (EngineState { phase: Phase::BackingOff, ..st }, EngineAction::WaitBackoff)
    } else if cfg.auto_restart {
        (
            EngineState {
                phase: Phase::Done(RunOutcome::Fault(SupervisorError::RestartBudgetExhausted)),
                ..st
            },
            EngineAction::Finished,
        )
    } else {
        (EngineState { phase: Phase::Done(RunOutcome::FailedExit), ..st }, EngineAction::Finished)
    }
}

/// The transition function of the supervisor engine.
pub open spec fn spec_step(cfg: EngineConfig, st: EngineState, ev: EngineEvent) -> (
    EngineState,
    EngineAction,
) {
    match st.phase {
        Phase::Spawning => match ev {
            EngineEvent::SpawnOk => spec_after_spawn_ok(cfg, st),
            EngineEvent::SpawnErr => (
                EngineState {
                    phase: Phase::Done(RunOutcome::Fault(SupervisorError::SpawnFailed)),
                    ..st
                },
                EngineAction::Finished,
            ),
            EngineEvent::Cancel => (
                EngineState { cancelled: true, ..st },
                EngineAction::Continue,
            ),
            _ => (st, EngineAction::Continue),
        },
        Phase::InitWait => match ev {
            EngineEvent::InitElapsed => if cfg.has_health_check {
                (
                    EngineState { phase: Phase::Probing, probes_done: 0, ..st },
                    EngineAction::Probe,
                )
            } else {
                (EngineState { phase: Phase::Running, ..st }, EngineAction::WaitChild)
            },
            EngineEvent::ChildExit(_) => if st.cancelled {
                (
                    EngineState { phase: Phase::Done(RunOutcome::CleanExit), ..st },
                    EngineAction::Finished,
                )
            } else {
                (
                    EngineState {
                        phase: Phase::Done(
                            RunOutcome::Fault(SupervisorError::ChildDiedDuringInit),
                        ),
                        ..st
                    },
                    EngineAction::Finished,
                )
            },
            EngineEvent::Cancel => (
                EngineState { cancelled: true, ..st },
                EngineAction::GracefulChild,
            ),
            EngineEvent::GraceElapsed => if st.cancelled {
                (
                    EngineState { phase: Phase::Done(RunOutcome::CleanExit), ..st },
                    EngineAction::KillChild,
                )
            } else {
                (st, EngineAction::Continue)
            },
            _ => (st, EngineAction::Continue),
        },
        Phase::Probing => match ev {
            EngineEvent::ProbeOk => (
                EngineState { phase: Phase::Running, ..st },
                EngineAction::WaitChild,
            ),
            EngineEvent::ProbeErr => if st.probes_done + 1 < cfg.health_check_retries {
                (
                    EngineState { probes_done: (st.probes_done + 1) as u32, ..st },
                    EngineAction::Probe,
                )
            } else {
                (
                    EngineState {
                        phase: Phase::Done(RunOutcome::Fault(SupervisorError::HealthCheckFailed)),
                        ..st
                    },
                    EngineAction::KillChild,
                )
            },
            EngineEvent::ChildExit(_) => if st.cancelled {
                (
                    EngineState { phase: Phase::Done(RunOutcome::CleanExit), ..st },
                    EngineAction::Finished,
                )
            } else {
                (
                    EngineState {
                        phase: Phase::Done(
                            RunOutcome::Fault(SupervisorError::ChildDiedDuringHealthCheck),
                        ),
                        ..st
                    },
                    EngineAction::Finished,
                )
            },
            EngineEvent::Cancel => (
                EngineState { cancelled: true, ..st },
                EngineAction::GracefulChild,
            ),
            EngineEvent::GraceElapsed => if st.cancelled {
                (
                    EngineState { phase: Phase::Done(RunOutcome::CleanExit), ..st },
                    EngineAction::KillChild,
                )
            } else {
                (st, EngineAction::Continue)
            },
            _ => (st, EngineAction::Continue),
        },
        Phase::Running => match ev {
            EngineEvent::ChildExit(clean) => spec_classify_exit(cfg, st, clean),
            EngineEvent::Cancel => (
                EngineState { cancelled: true, ..st },
                EngineAction::GracefulChild,
            ),
            EngineEvent::GraceElapsed => if st.cancelled {
                (
                    EngineState { phase: Phase::Done(RunOutcome::CleanExit), ..st },
                    EngineAction::KillChild,
                )
            } else {
                (st, EngineAction::Continue)
            },
            _ => (st, EngineAction::Continue),
        },
        Phase::BackingOff => match ev {
            EngineEvent::BackoffElapsed => if st.cancelled {
                (
                    EngineState { phase: Phase::Done(RunOutcome::CleanExit), ..st },
                    EngineAction::Finished,
                )
            } else {
                (
                    EngineState {
                        phase: Phase::Spawning,
                        restart_count: (st.restart_count + 1) as u64,
                        ..st
                    },
                    EngineAction::Spawn,
                )
            },
            EngineEvent::Cancel => (
                EngineState { cancelled: true, ..st },
                EngineAction::Continue,
            ),
            _ => (st, EngineAction::Continue),
        },
        Phase::Done(_) => (st, EngineAction::Finished),
    }
}

/// One step of the supervisor engine, exactly as `spec_step` describes.
pub fn step(cfg: &EngineConfig, st: &EngineState, ev: &EngineEvent) -> (r: (
    EngineState,
    EngineAction,
))
    requires
        cfg.wf(),
        st.wf(*cfg),
    ensures
        r == spec_step(*cfg, *st, *ev),
        r.0.wf(*cfg),
{
    let next: (EngineState, EngineAction) = match st.phase {
        Phase::Spawning => match ev {
            EngineEvent::SpawnOk => {
                let grown = EngineState { spawn_count: st.spawn_count + 1, ..*st };
                if st.spawn_count == 0 {
                    (EngineState { phase: Phase::InitWait, ..grown }, EngineAction::WaitInit)
                } else if cfg.has_health_check {
                    (
                        EngineState { phase: Phase::Probing, probes_done: 0, ..grown },
                        EngineAction::Probe,
                    )
                } else {
                    (EngineState { phase: Phase::Running, ..grown }, EngineAction::WaitChild)
                }
            },
            EngineEvent::SpawnErr => (
                EngineState {
                    phase: Phase::Done(RunOutcome::Fault(SupervisorError::SpawnFailed)),
                    ..*st
                },
                EngineAction::Finished,
            ),
            EngineEvent::Cancel => (
                EngineState { cancelled: true, ..*st },
                EngineAction::Continue,
            ),
            _ => (*st, EngineAction::Continue),
        },
        Phase::InitWait => match ev {
            EngineEvent::InitElapsed => if cfg.has_health_check {
                (
                    EngineState { phase: Phase::Probing, probes_done: 0, ..*st },
                    EngineAction::Probe,
                )
            } else {
                (EngineState { phase: Phase::Running, ..*st }, EngineAction::WaitChild)
            },
            EngineEvent::ChildExit(_) => if st.cancelled {
                (
                    EngineState { phase: Phase::Done(RunOutcome::CleanExit), ..*st },
                    EngineAction::Finished,
                )
            } else {
                (
                    EngineState {
                        phase: Phase::Done(
                            RunOutcome::Fault(SupervisorError::ChildDiedDuringInit),
                        ),
                        ..*st
                    },
                    EngineAction::Finished,
                )
            },
            EngineEvent::Cancel => (
                EngineState { cancelled: true, ..*st },
                EngineAction::GracefulChild,
            ),
            EngineEvent::GraceElapsed => if st.cancelled {
                (
                    EngineState { phase: Phase::Done(RunOutcome::CleanExit), ..*st },
                    EngineAction::KillChild,
                )
            } else {
                (*st, EngineAction::Continue)
            },
            _ => (*st, EngineAction::Continue),
        },
        Phase::Probing => match ev {
            EngineEvent::ProbeOk => (
                EngineState { phase: Phase::Running, ..*st },
                EngineAction::WaitChild,
            ),
            EngineEvent::ProbeErr => if st.probes_done + 1 < cfg.health_check_retries {
                (
                    EngineState { probes_done: st.probes_done + 1, ..*st },
                    EngineAction::Probe,
                )
            } else {
                (
                    EngineState {
                        phase: Phase::Done(RunOutcome::Fault(SupervisorError::HealthCheckFailed)),
                        ..*st
                    },
                    EngineAction::KillChild,
                )
            },
            EngineEvent::ChildExit(_) => if st.cancelled {
                (
                    EngineState { phase: Phase::Done(RunOutcome::CleanExit), ..*st },
                    EngineAction::Finished,
                )
            } else {
                (
                    EngineState {
                        phase: Phase::Done(
                            RunOutcome::Fault(SupervisorError::ChildDiedDuringHealthCheck),
                        ),
                        ..*st
                    },
                    EngineAction::Finished,
                )
            },
            EngineEvent::Cancel => (
                EngineState { cancelled: true, ..*st },
                EngineAction::GracefulChild,
            ),
            EngineEvent::GraceElapsed => if st.cancelled {
                (
                    EngineState { phase: Phase::Done(RunOutcome::CleanExit), ..*st },
                    EngineAction::KillChild,
                )
            } else {
                (*st, EngineAction::Continue)
            },
            _ => (*st, EngineAction::Continue),
        },
        Phase::Running => match ev {
            EngineEvent::ChildExit(clean) => {
                if *clean {
                    (
                        EngineState { phase: Phase::Done(RunOutcome::CleanExit), ..*st },
                        EngineAction::Finished,
                    )
                } else if st.cancelled {
                    (
                        EngineState { phase: Phase::Done(RunOutcome::CleanExit), ..*st },
                        EngineAction::Finished,
                    )
                } else if cfg.auto_restart && st.restart_count < cfg.max_restarts as u64 {
                    (EngineState { phase: Phase::BackingOff, ..*st }, EngineAction::WaitBackoff)
                } else if cfg.auto_restart {
                    (
                        EngineState {
                            phase: Phase::Done(
                                RunOutcome::Fault(SupervisorError::RestartBudgetExhausted),
                            ),
                            ..*st
                        },
                        EngineAction::Finished,
                    )
                } else {
                    (
                        EngineState { phase: Phase::Done(RunOutcome::FailedExit), ..*st },
                        EngineAction::Finished,
                    )
                }
            },
            EngineEvent::Cancel => (
                EngineState { cancelled: true, ..*st },
                EngineAction::GracefulChild,
            ),
            EngineEvent::GraceElapsed => if st.cancelled {
                (
                    EngineState { phase: Phase::Done(RunOutcome::CleanExit), ..*st },
                    EngineAction::KillChild,
                )
            } else {
                (*st, EngineAction::Continue)
            },
            _ => (*st, EngineAction::Continue),
        },
        Phase::BackingOff => match ev {
            EngineEvent::BackoffElapsed => if st.cancelled {
                (
                    EngineState { phase: Phase::Done(RunOutcome::CleanExit), ..*st },
                    EngineAction::Finished,
                )
            } else {
                (
                    EngineState {
                        phase: Phase::Spawning,
                        restart_count: st.restart_count + 1,
                        ..*st
                    },
                    EngineAction::Spawn,
                )
            },
            EngineEvent::Cancel => (
                EngineState { cancelled: true, ..*st },
                EngineAction::Continue,
            ),
            _ => (*st, EngineAction::Continue),
        },
        Phase::Done(_) => (*st, EngineAction::Finished),
    };
    next
}

/// The state after feeding a whole sequence of events to the engine.
pub open spec fn run_events(cfg: EngineConfig, st: EngineState, evs: Seq<EngineEvent>) -> EngineState
    decreases evs.len(),
{
    if evs.len() == 0 {
        st
    } else {
        run_events(cfg, spec_step(cfg, st, evs[0]).0, evs.drop_first())
    }
}

/// An empty trace changes nothing.
pub proof fn lemma_run_nil(cfg: EngineConfig, st: EngineState)
    ensures
        run_events(cfg, st, Seq::<EngineEvent>::empty()) == st,
{
}

/// A non-empty trace takes one step and then runs the rest.
pub proof fn lemma_run_one(cfg: EngineConfig, st: EngineState, evs: Seq<EngineEvent>)
    requires
        evs.len() > 0,
    ensures
        run_events(cfg, st, evs) == run_events(cfg, spec_step(cfg, st, evs[0]).0, evs.drop_first()),
{
}

/// Feeding a concatenation of traces is feeding one after the other.
pub proof fn lemma_run_append(cfg: EngineConfig, st: EngineState, a: Seq<EngineEvent>, b: Seq<
    EngineEvent,
>)
    ensures
        run_events(cfg, st, a + b) == run_events(cfg, run_events(cfg, st, a), b),
    decreases a.len(),
{
    if a.len() == 0 {
        assert(a + b =~= b);
    } else {
        let st1 = spec_step(cfg, st, a[0]).0;
        assert((a + b)[0] == a[0]);
        assert((a + b).drop_first() =~= a.drop_first() + b);
        lemma_run_append(cfg, st1, a.drop_first(), b);
    }
}

/// Every single step keeps the engine invariant.
pub proof fn lemma_step_preserves_wf(cfg: EngineConfig, st: EngineState, ev: EngineEvent)
    requires
        cfg.wf(),
        st.wf(cfg),
    ensures
        spec_step(cfg, st, ev).0.wf(cfg),
{
}

/// Any whole trace keeps the engine invariant.
pub proof fn lemma_run_preserves_wf(cfg: EngineConfig, st: EngineState, evs: Seq<EngineEvent>)
    requires
        cfg.wf(),
        st.wf(cfg),
    ensures
        run_events(cfg, st, evs).wf(cfg),
    decreases evs.len(),
{
    if evs.len() > 0 {
        lemma_step_preserves_wf(cfg, st, evs[0]);
        lemma_run_preserves_wf(cfg, spec_step(cfg, st, evs[0]).0, evs.drop_first());
    }
}

/// However a run unfolds, the restart counter the engine would persist
/// never exceeds the number of spawns that were observed.
pub proof fn lemma_restarts_le_spawns(cfg: EngineConfig, evs: Seq<EngineEvent>)
    requires
        cfg.wf(),
    ensures
        run_events(cfg, EngineState::spec_init(), evs).restart_count <= run_events(
            cfg,
            EngineState::spec_init(),
            evs,
        ).spawn_count,
{
    lemma_run_preserves_wf(cfg, EngineState::spec_init(), evs);
}

/// How many successful spawns a trace reports.
pub open spec fn count_spawn_oks(evs: Seq<EngineEvent>) -> nat
    decreases evs.len(),
{
    if evs.len() == 0 {
        0
    } else {
        (if evs[0] is SpawnOk {
            1nat
        } else {
            0nat
        }) + count_spawn_oks(evs.drop_first())
    }
}

/// The spawn counter never runs ahead of the spawns a trace reports:
/// each step grows it by at most one, and only on a spawn success.
pub proof fn lemma_spawn_count_le_events(cfg: EngineConfig, st: EngineState, evs: Seq<EngineEvent>)
    ensures
        run_events(cfg, st, evs).spawn_count <= st.spawn_count + count_spawn_oks(evs),
    decreases evs.len(),
{
    if evs.len() > 0 {
        let st1 = spec_step(cfg, st, evs[0]).0;
        assert(st1.spawn_count <= st.spawn_count + (if evs[0] is SpawnOk {
            1int
        } else {
            0int
        }));
        lemma_spawn_count_le_events(cfg, st1, evs.drop_first());
    }
}

/// Restarts never outnumber observed spawns. For every trace from the
/// initial state, the restart counter the engine would persist is
/// bounded by the number of spawns the trace reports — the property a
/// reader of the log stream can check against the record.
pub proof fn lemma_restarts_le_observed_spawns(cfg: EngineConfig, evs: Seq<EngineEvent>)
    requires
        cfg.wf(),
    ensures
        run_events(cfg, EngineState::spec_init(), evs).restart_count <= count_spawn_oks(evs),
{
    lemma_run_preserves_wf(cfg, EngineState::spec_init(), evs);
    lemma_spawn_count_le_events(cfg, EngineState::spec_init(), evs);
}

/// A run of `k` failing probes.
pub open spec fn failing_probes(k: nat) -> Seq<EngineEvent>
    decreases k,
{
    if k == 0 {
        Seq::empty()
    } else {
        failing_probes((k - 1) as nat) + seq![EngineEvent::ProbeErr]
    }
}

/// While the probe budget allows it, each failing probe only advances
/// the failure counter of the health gate.
proof fn lemma_probing_progress(cfg: EngineConfig, st: EngineState, k: nat)
    requires
        cfg.wf(),
        st.phase is Probing,
        st.probes_done == 0,
        k < cfg.health_check_retries,
    ensures
        run_events(cfg, st, failing_probes(k)) == (EngineState {
            probes_done: k as u32,
            ..st
        }),
    decreases k,
{
    if k == 0 {
        assert(failing_probes(0) =~= Seq::<EngineEvent>::empty());
        assert(EngineState { probes_done: 0u32, ..st } == st);
    } else {
        lemma_probing_progress(cfg, st, (k - 1) as nat);
        let mid = EngineState { probes_done: (k - 1) as u32, ..st };
        lemma_run_append(cfg, st, failing_probes((k - 1) as nat), seq![EngineEvent::ProbeErr]);
        let fin = spec_step(cfg, mid, EngineEvent::ProbeErr).0;
        assert(run_events(cfg, mid, seq![EngineEvent::ProbeErr]) == fin) by {
            lemma_run_one(cfg, mid, seq![EngineEvent::ProbeErr]);
            assert(seq![EngineEvent::ProbeErr].drop_first() =~= Seq::<EngineEvent>::empty());
            lemma_run_nil(cfg, fin);
        }
        assert(fin == EngineState { probes_done: k as u32, ..st });
    }
}

/// Health gate exhaustion. A gate that has just begun probing and sees
/// nothing but failing probes ends after exactly its probe budget: the
/// budget's last failure is terminal, the child is killed, and the run
/// surfaces the health fault.
pub proof fn lemma_health_gate_budget(cfg: EngineConfig, st: EngineState)
    requires
        cfg.wf(),
        st.phase is Probing,
        st.probes_done == 0,
    ensures
        run_events(cfg, st, failing_probes(cfg.health_check_retries as nat)).phase == Phase::Done(
            RunOutcome::Fault(SupervisorError::HealthCheckFailed),
        ),
        spec_step(
            cfg,
            run_events(cfg, st, failing_probes((cfg.health_check_retries - 1) as nat)),
            EngineEvent::ProbeErr,
        ).1 == EngineAction::KillChild,
{
    let n = cfg.health_check_retries as nat;
    lemma_probing_progress(cfg, st, (n - 1) as nat);
    let mid = EngineState { probes_done: (n - 1) as u32, ..st };
    assert(failing_probes(n) =~= failing_probes((n - 1) as nat) + seq![EngineEvent::ProbeErr]);
    lemma_run_append(cfg, st, failing_probes((n - 1) as nat), seq![EngineEvent::ProbeErr]);
    let fin = spec_step(cfg, mid, EngineEvent::ProbeErr).0;
    assert(run_events(cfg, mid, seq![EngineEvent::ProbeErr]) == fin) by {
        lemma_run_one(cfg, mid, seq![EngineEvent::ProbeErr]);
        assert(seq![EngineEvent::ProbeErr].drop_first() =~= Seq::<EngineEvent>::empty());
        lemma_run_nil(cfg, fin);
    }
}

/// The trace of a crash loop: one successful spawn cycle, `k` rounds of
/// failing exit, backoff and respawn, and nothing else.
pub open spec fn crash_cycles(k: nat) -> Seq<EngineEvent>
    decreases k,
{
    if k == 0 {
        Seq::empty()
    } else {
        crash_cycles((k - 1) as nat) + seq![
            EngineEvent::ChildExit(false),
            EngineEvent::BackoffElapsed,
            EngineEvent::SpawnOk,
        ]
    }
}

/// The full trace of a child that starts and then exits with a failure
/// immediately, over and over: the initial spawn, `n` completed restart
/// rounds, and one final failing exit.
pub open spec fn crash_loop_trace(n: nat) -> Seq<EngineEvent> {
    seq![EngineEvent::SpawnOk, EngineEvent::InitElapsed] + crash_cycles(n) + seq![
        EngineEvent::ChildExit(false),
    ]
}

/// After the initial spawn and `k` completed restart rounds, the engine
/// is watching a running child, with `k` restarts and `k + 1` spawns on
/// the books.
proof fn lemma_crash_cycles_state(cfg: EngineConfig, k: nat)
    requires
        cfg.wf(),
        cfg.auto_restart,
        !cfg.has_health_check,
        k <= cfg.max_restarts,
    ensures
        run_events(
            cfg,
            EngineState::spec_init(),
            seq![EngineEvent::SpawnOk, EngineEvent::InitElapsed] + crash_cycles(k),
        ) == (EngineState {
            phase: Phase::Running,
            spawn_count: (k + 1) as u64,
            restart_count: k as u64,
            probes_done: 0,
            cancelled: false,
        }),
    decreases k,
{
    let prefix = seq![EngineEvent::SpawnOk, EngineEvent::InitElapsed];
    if k == 0 {
        assert(prefix + crash_cycles(0) =~= prefix);
        let st0 = EngineState::spec_init();
        let st1 = spec_step(cfg, st0, EngineEvent::SpawnOk).0;
        let st2 = spec_step(cfg, st1, EngineEvent::InitElapsed).0;
        assert(run_events(cfg, st0, prefix) == st2) by {
            lemma_run_one(cfg, st0, prefix);
            assert(prefix.drop_first() =~= seq![EngineEvent::InitElapsed]);
            lemma_run_one(cfg, st1, seq![EngineEvent::InitElapsed]);
            assert(seq![EngineEvent::InitElapsed].drop_first() =~= Seq::<EngineEvent>::empty());
            lemma_run_nil(cfg, st2);
        }
        assert(st2 == EngineState {
            phase: Phase::Running,
            spawn_count: 1u64,
            restart_count: 0u64,
            probes_done: 0,
            cancelled: false,
        });
    } else {
        lemma_crash_cycles_state(cfg, (k - 1) as nat);
        let cycle = seq![
            EngineEvent::ChildExit(false),
            EngineEvent::BackoffElapsed,
            EngineEvent::SpawnOk,
        ];
        assert(prefix + crash_cycles(k) =~= (prefix + crash_cycles((k - 1) as nat)) + cycle);
        let mid = EngineState {
            phase: Phase::Running,
            spawn_count: k as u64,
            restart_count: (k - 1) as u64,
            probes_done: 0,
            cancelled: false,
        };
        lemma_run_append(cfg, EngineState::spec_init(), prefix + crash_cycles((k - 1) as nat), cycle);
        let st1 = spec_step(cfg, mid, EngineEvent::ChildExit(false)).0;
        let st2 = spec_step(cfg, st1, EngineEvent::BackoffElapsed).0;
        let st3 = spec_step(cfg, st2, EngineEvent::SpawnOk).0;
        assert(run_events(cfg, mid, cycle) == st3) by {
            lemma_run_one(cfg, mid, cycle);
            assert(cycle.drop_first() =~= seq![EngineEvent::BackoffElapsed, EngineEvent::SpawnOk]);
            lemma_run_one(cfg, st1, seq![EngineEvent::BackoffElapsed, EngineEvent::SpawnOk]);
            assert(seq![EngineEvent::BackoffElapsed, EngineEvent::SpawnOk].drop_first() =~= seq![
                EngineEvent::SpawnOk,
            ]);
            lemma_run_one(cfg, st2, seq![EngineEvent::SpawnOk]);
            assert(seq![EngineEvent::SpawnOk].drop_first() =~= Seq::<EngineEvent>::empty());
            lemma_run_nil(cfg, st3);
        }
        assert(st3 == EngineState {
            phase: Phase::Running,
            spawn_count: (k + 1) as u64,
            restart_count: k as u64,
            probes_done: 0,
            cancelled: false,
        });
    }
}

/// Restart budget exhaustion. Under `auto_restart` with a budget of `n`
/// restarts, a child that keeps exiting with a failure is spawned exactly
/// `n + 1` times — the initial spawn plus `n` restarts — and the run then
/// ends with the budget-exhausted fault, with `n` restarts on the books.
pub proof fn lemma_restart_budget_exhausted(cfg: EngineConfig, n: nat)
    requires
        cfg.wf(),
        cfg.auto_restart,
        !cfg.has_health_check,
        n == cfg.max_restarts,
    ensures
        run_events(cfg, EngineState::spec_init(), crash_loop_trace(n)).phase == Phase::Done(
            RunOutcome::Fault(SupervisorError::RestartBudgetExhausted),
        ),
        run_events(cfg, EngineState::spec_init(), crash_loop_trace(n)).spawn_count == n + 1,
        run_events(cfg, EngineState::spec_init(), crash_loop_trace(n)).restart_count == n,
{
    let prefix = seq![EngineEvent::SpawnOk, EngineEvent::InitElapsed];
    lemma_crash_cycles_state(cfg, n);
    let mid = EngineState {
        phase: Phase::Running,
        spawn_count: (n + 1) as u64,
        restart_count: n as u64,
        probes_done: 0,
        cancelled: false,
    };
    let last = seq![EngineEvent::ChildExit(false)];
    assert(crash_loop_trace(n) =~= (prefix + crash_cycles(n)) + last);
    lemma_run_append(cfg, EngineState::spec_init(), prefix + crash_cycles(n), last);
    let fin = spec_step(cfg, mid, EngineEvent::ChildExit(false)).0;
    assert(run_events(cfg, mid, last) == fin) by {
        lemma_run_one(cfg, mid, last);
        assert(last.drop_first() =~= Seq::<EngineEvent>::empty());
        lemma_run_nil(cfg, fin);
    }
}

/// The trace of a crash loop under a health gate: `k` rounds of
/// failing exit, backoff, respawn and one passing probe.
pub open spec fn gated_crash_cycles(k: nat) -> Seq<EngineEvent>
    decreases k,
{
    if k == 0 {
        Seq::empty()
    } else {
        gated_crash_cycles((k - 1) as nat) + seq![
            EngineEvent::ChildExit(false),
            EngineEvent::BackoffElapsed,
            EngineEvent::SpawnOk,
            EngineEvent::ProbeOk,
        ]
    }
}

/// The full crash-loop trace of a gated process: the initial spawn
/// passes its gate, every respawn passes its gate, and every run ends
/// in a failing exit.
pub open spec fn gated_crash_loop_trace(n: nat) -> Seq<EngineEvent> {
    seq![EngineEvent::SpawnOk, EngineEvent::InitElapsed, EngineEvent::ProbeOk]
        + gated_crash_cycles(n) + seq![EngineEvent::ChildExit(false)]
}

/// After the gated initial spawn and `k` completed gated restart
/// rounds, the engine is watching a running child, with `k` restarts
/// and `k + 1` spawns performed.
proof fn lemma_gated_crash_cycles_state(cfg: EngineConfig, k: nat)
    requires
        cfg.wf(),
        cfg.auto_restart,
        cfg.has_health_check,
        k <= cfg.max_restarts,
    ensures
        run_events(
            cfg,
            EngineState::spec_init(),
            seq![EngineEvent::SpawnOk, EngineEvent::InitElapsed, EngineEvent::ProbeOk]
                + gated_crash_cycles(k),
        ) == (EngineState {
            phase: Phase::Running,
            spawn_count: (k + 1) as u64,
            restart_count: k as u64,
            probes_done: 0,
            cancelled: false,
        }),
    decreases k,
{
    let prefix = seq![EngineEvent::SpawnOk, EngineEvent::InitElapsed, EngineEvent::ProbeOk];
    if k == 0 {
        assert(prefix + gated_crash_cycles(0) =~= prefix);
        let st0 = EngineState::spec_init();
        let st1 = spec_step(cfg, st0, EngineEvent::SpawnOk).0;
        let st2 = spec_step(cfg, st1, EngineEvent::InitElapsed).0;
        let st3 = spec_step(cfg, st2, EngineEvent::ProbeOk).0;
        assert(run_events(cfg, st0, prefix) == st3) by {
            lemma_run_one(cfg, st0, prefix);
            assert(prefix.drop_first() =~= seq![EngineEvent::InitElapsed, EngineEvent::ProbeOk]);
            lemma_run_one(cfg, st1, seq![EngineEvent::InitElapsed, EngineEvent::ProbeOk]);
            assert(seq![EngineEvent::InitElapsed, EngineEvent::ProbeOk].drop_first() =~= seq![
                EngineEvent::ProbeOk,
            ]);
            lemma_run_one(cfg, st2, seq![EngineEvent::ProbeOk]);
            assert(seq![EngineEvent::ProbeOk].drop_first() =~= Seq::<EngineEvent>::empty());
            lemma_run_nil(cfg, st3);
        }
        assert(st3 == EngineState {
            phase: Phase::Running,
            spawn_count: 1u64,
            restart_count: 0u64,
            probes_done: 0,
            cancelled: false,
        });
    } else {
        lemma_gated_crash_cycles_state(cfg, (k - 1) as nat);
        let cycle = seq![
            EngineEvent::ChildExit(false),
            EngineEvent::BackoffElapsed,
            EngineEvent::SpawnOk,
            EngineEvent::ProbeOk,
        ];
        assert(prefix + gated_crash_cycles(k) =~= (prefix + gated_crash_cycles((k - 1) as nat))
            + cycle);
        let mid = EngineState {
            phase: Phase::Running,
            spawn_count: k as u64,
            restart_count: (k - 1) as u64,
            probes_done: 0,
            cancelled: false,
        };
        lemma_run_append(
            cfg,
            EngineState::spec_init(),
            prefix + gated_crash_cycles((k - 1) as nat),
            cycle,
        );
        let st1 = spec_step(cfg, mid, EngineEvent::ChildExit(false)).0;
        let st2 = spec_step(cfg, st1, EngineEvent::BackoffElapsed).0;
        let st3 = spec_step(cfg, st2, EngineEvent::SpawnOk).0;
        let st4 = spec_step(cfg, st3, EngineEvent::ProbeOk).0;
        assert(run_events(cfg, mid, cycle) == st4) by {
            lemma_run_one(cfg, mid, cycle);
            assert(cycle.drop_first() =~= seq![
                EngineEvent::BackoffElapsed,
                EngineEvent::SpawnOk,
                EngineEvent::ProbeOk,
            ]);
            lemma_run_one(
                cfg,
                st1,
                seq![EngineEvent::BackoffElapsed, EngineEvent::SpawnOk, EngineEvent::ProbeOk],
            );
            assert(seq![
                EngineEvent::BackoffElapsed,
                EngineEvent::SpawnOk,
                EngineEvent::ProbeOk,
            ].drop_first() =~= seq![EngineEvent::SpawnOk, EngineEvent::ProbeOk]);
            lemma_run_one(cfg, st2, seq![EngineEvent::SpawnOk, EngineEvent::ProbeOk]);
            assert(seq![EngineEvent::SpawnOk, EngineEvent::ProbeOk].drop_first() =~= seq![
                EngineEvent::ProbeOk,
            ]);
            lemma_run_one(cfg, st3, seq![EngineEvent::ProbeOk]);
            assert(seq![EngineEvent::ProbeOk].drop_first() =~= Seq::<EngineEvent>::empty());
            lemma_run_nil(cfg, st4);
        }
        assert(st4 == EngineState {
            phase: Phase::Running,
            spawn_count: (k + 1) as u64,
            restart_count: k as u64,
            probes_done: 0,
            cancelled: false,
        });
    }
}

/// Restart budget exhaustion under a health gate. A gated child whose
/// every spawn passes its probe but whose every run ends in a failing
/// exit is spawned exactly `n + 1` times under a budget of `n`
/// restarts, and the run then ends with the budget-exhausted fault.
/// (A child that dies before its gate passes is classified as a
/// health-gate death instead and is never restarted.)
pub proof fn lemma_restart_budget_exhausted_gated(cfg: EngineConfig, n: nat)
    requires
        cfg.wf(),
        cfg.auto_restart,
        cfg.has_health_check,
        n == cfg.max_restarts,
    ensures
        run_events(cfg, EngineState::spec_init(), gated_crash_loop_trace(n)).phase == Phase::Done(
            RunOutcome::Fault(SupervisorError::RestartBudgetExhausted),
        ),
        run_events(cfg, EngineState::spec_init(), gated_crash_loop_trace(n)).spawn_count == n + 1,
        run_events(cfg, EngineState::spec_init(), gated_crash_loop_trace(n)).restart_count == n,
{
    let prefix = seq![EngineEvent::SpawnOk, EngineEvent::InitElapsed, EngineEvent::ProbeOk];
    lemma_gated_crash_cycles_state(cfg, n);
    let mid = EngineState {
        phase: Phase::Running,
        spawn_count: (n + 1) as u64,
        restart_count: n as u64,
        probes_done: 0,
        cancelled: false,
    };
    let last = seq![EngineEvent::ChildExit(false)];
    assert(gated_crash_loop_trace(n) =~= (prefix + gated_crash_cycles(n)) + last);
    lemma_run_append(cfg, EngineState::spec_init(), prefix + gated_crash_cycles(n), last);
    let fin = spec_step(cfg, mid, EngineEvent::ChildExit(false)).0;
    assert(run_events(cfg, mid, last) == fin) by {
        lemma_run_one(cfg, mid, last);
        assert(last.drop_first() =~= Seq::<EngineEvent>::empty());
        lemma_run_nil(cfg, fin);
    }
}

} // verus!
