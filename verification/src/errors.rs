//! Error kinds surfaced by the supervisor.

use vstd::prelude::*;

verus! {

/// The failure kinds a supervisor run or a control operation can end with.
#[derive(Clone, Copy, Debug, PartialEq, Eq, Structural)]
pub enum SupervisorError {
    /// The record or the configuration was missing; often benign.
    NotFound,
    /// The operating system refused the spawn.
    SpawnFailed,
    /// The child exited before the initialisation wait elapsed.
    ChildDiedDuringInit,
    /// The child exited while the health gate was still probing.
    ChildDiedDuringHealthCheck,
    /// The health probe retry budget was exhausted.
    HealthCheckFailed,
    /// The restart budget was exhausted after repeated failing exits.
    RestartBudgetExhausted,
    /// Disk failure while touching the persisted record.
    StateIOError,
    /// A start was requested while the recorded pid is live.
    AlreadyRunning,
    /// An operating-system interrupt cancelled the operation.
    Interrupted,
}

} // verus!
