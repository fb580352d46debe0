//! The narrow operating-system boundary: liveness probes and signals,
//! each a thin trusted wrapper over the `nix` crate.
//!
//! Nothing can be promised of these calls — whether a pid is alive and
//! whether a signal is accepted depend on the state of the machine — so
//! their contracts say nothing, and every function that uses them states
//! what holds whatever came back.

use vstd::prelude::*;

verus! {

/// Relies on nix::sys::signal::kill with no signal: error checking is
/// performed but no signal is sent, so success means the operating
/// system still holds an entry for the pid.
#[verifier::external_body]
pub(crate) fn pid_alive(pid: i32) -> bool {
    nix::sys::signal::kill(nix::unistd::Pid::from_raw(pid), None).is_ok()
}

/// Relies on nix::sys::signal::kill with SIGTERM: asks the process to
/// terminate gracefully; success means the signal was accepted, not that
/// the process exited.
#[verifier::external_body]
pub(crate) fn send_sigterm(pid: i32) -> bool {
    nix::sys::signal::kill(nix::unistd::Pid::from_raw(pid), nix::sys::signal::Signal::SIGTERM)
        .is_ok()
}

/// Relies on nix::sys::signal::kill with SIGKILL: terminates the process
/// forcefully; success means the signal was accepted.
#[verifier::external_body]
pub(crate) fn send_sigkill(pid: i32) -> bool {
    nix::sys::signal::kill(nix::unistd::Pid::from_raw(pid), nix::sys::signal::Signal::SIGKILL)
        .is_ok()
}

} // verus!
