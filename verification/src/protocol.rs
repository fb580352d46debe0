//! The cross-invocation protocol over the persisted record: what a
//! completed `start` and a completed `stop` each do to the record, and
//! what `status` may conclude from it afterwards.

use vstd::prelude::*;
use vstd::string::StringExecFns;
use crate::state::ProcessState;
use crate::strutil::{dec_rep, u64_to_string};

verus! {

/// A control operation that completed against one process record.
pub enum ControlOp {
    /// A `start` finished: the spawned pids were written to the record.
    Start { pid: i32, monitor_pid: i32 },
    /// A `stop` finished: both pids were cleared from the record.
    Stop,
}

/// The record after one completed control operation.
pub open spec fn apply_op(rec: ProcessState, op: ControlOp) -> ProcessState {
    match op {
        ControlOp::Start { pid, monitor_pid } => ProcessState {
            pid: Some(pid),
            monitor_pid: Some(monitor_pid),
            ..rec
        },
        ControlOp::Stop => ProcessState { pid: None, monitor_pid: None, ..rec },
    }
}

/// The record after a whole sequence of completed control operations.
pub open spec fn apply_trace(rec: ProcessState, ops: Seq<ControlOp>) -> ProcessState
    decreases ops.len(),
{
    if ops.len() == 0 {
        rec
    } else {
        apply_op(apply_trace(rec, ops.drop_last()), ops.last())
    }
}

/// What `status` concludes, given the loaded record, the liveness probe
/// answer for the recorded pid, and the health probe answer where a
/// health check URL is configured (`None` when none is).
pub open spec fn spec_status(rec: Option<ProcessState>, alive: bool, probe: Option<bool>) -> bool {
    match rec {
        None => false,
        Some(r) => r.pid is Some && alive && (match probe {
            Some(healthy) => healthy,
            None => true,
        }),
    }
}

/// The `status` decision: a process is reported running only when a
/// record exists, its pid is set, the pid is alive, and — when a health
/// check is configured — the probe passed.
pub fn status_decision(rec: &Option<ProcessState>, alive: bool, probe: Option<bool>) -> (r: bool)
    ensures
        r == spec_status(*rec, alive, probe),
{
    match rec {
        None => false,
        Some(r) => match r.pid {
            None => false,
            Some(_) => alive && (match probe {
                Some(healthy) => healthy,
                None => true,
            }),
        },
    }
}

/// The stable one-line status messages a control invocation prints for
/// scripting callers.
#[derive(Clone, Copy, Debug, PartialEq, Eq, Structural)]
pub enum StatusKind {
    /// A start was entered: `STATUS:STARTING:<name>`.
    Starting,
    /// A start finished: `STATUS:STARTED:<name>:<pid>`.
    Started,
    /// A stop was entered: `STATUS:STOPPING:<name>`.
    Stopping,
    /// A stop finished, or status found nothing running:
    /// `STATUS:STOPPED:<name>`.
    Stopped,
    /// Status found the process running: `STATUS:RUNNING:<name>:<pid>`.
    Running,
}

/// The status line for a kind, name and — where the kind carries one —
/// a pid.
pub open spec fn spec_status_line(kind: StatusKind, name: Seq<char>, pid: int) -> Seq<char> {
    match kind {
        StatusKind::Starting => "STATUS:STARTING:"@ + name,
        StatusKind::Started => "STATUS:STARTED:"@ + name + ":"@ + dec_rep(pid as nat),
        StatusKind::Stopping => "STATUS:STOPPING:"@ + name,
        StatusKind::Stopped => "STATUS:STOPPED:"@ + name,
        StatusKind::Running => "STATUS:RUNNING:"@ + name + ":"@ + dec_rep(pid as nat),
    }
}

/// Renders the machine-readable status line of one control step. The
/// pid is printed only by the kinds that carry one and must not be
/// negative.
pub fn status_line(kind: StatusKind, name: &str, pid: i32) -> (r: String)
    requires
        pid >= 0,
    ensures
        r@ == spec_status_line(kind, name@, pid as int),
{
    proof {
        reveal_strlit("STATUS:STARTING:");
        reveal_strlit("STATUS:STARTED:");
        reveal_strlit("STATUS:STOPPING:");
        reveal_strlit("STATUS:STOPPED:");
        reveal_strlit("STATUS:RUNNING:");
        reveal_strlit(":");
    }
    match kind {
        StatusKind::Starting => {
            let mut s = "STATUS:STARTING:".to_owned();
            s.append(name);
            s
        },
        StatusKind::Started => {
            let mut s = "STATUS:STARTED:".to_owned();
            s.append(name);
            s.append(":");
            let digits = u64_to_string(pid as u64);
            s.append(digits.as_str());
            s
        },
        StatusKind::Stopping => {
            let mut s = "STATUS:STOPPING:".to_owned();
            s.append(name);
            s
        },
        StatusKind::Stopped => {
            let mut s = "STATUS:STOPPED:".to_owned();
            s.append(name);
            s
        },
        StatusKind::Running => {
            let mut s = "STATUS:RUNNING:".to_owned();
            s.append(name);
            s.append(":");
            let digits = u64_to_string(pid as u64);
            s.append(digits.as_str());
            s
        },
    }
}

/// Probes whether the recorded process is running, per the liveness
/// heuristic: a record with no pid is never running; otherwise the
/// operating system's answer for the recorded pid decides, so a stale
/// pid surfaces as stopped.
pub fn record_running(rec: &ProcessState) -> (r: bool)
    ensures
        rec.pid is None ==> !r,
{
    match rec.pid {
        None => false,
        Some(p) => crate::os::pid_alive(p),
    }
}

/// Every completed interleaving of `start` and `stop` that ends with a
/// `stop` leaves the record with no user pid and no monitor pid.
pub proof fn lemma_stop_clears_record(rec: ProcessState, ops: Seq<ControlOp>)
    requires
        ops.len() > 0,
        ops.last() is Stop,
    ensures
        apply_trace(rec, ops).pid is None,
        apply_trace(rec, ops).monitor_pid is None,
{
}

/// After any sequence of completed operations on a record that began
/// with no pid, `status` reports running exactly when the most recent
/// operation was a `start` not yet followed by a `stop`, and the
/// recorded pid is alive — with the health probe agreeing where one is
/// configured.
pub proof fn lemma_status_reports_running(
    rec: ProcessState,
    ops: Seq<ControlOp>,
    alive: bool,
    probe: Option<bool>,
)
    requires
        rec.pid is None,
    ensures
        spec_status(Some(apply_trace(rec, ops)), alive, probe) <==> {
            &&& ops.len() > 0
            &&& ops.last() is Start
            &&& alive
            &&& (probe is Some ==> probe == Some(true))
        },
{
    if ops.len() == 0 {
        assert(apply_trace(rec, ops) == rec);
    }
}

} // verus!
