//! The graceful-then-forceful termination discipline and port
//! reclamation: which pids a `stop` addresses, in which order, and which
//! port squatters are reclaimed.
//!
//! The waits between the steps are the runner's job; every decision —
//! the target list, the ordering, the escalation branches, the squatter
//! filter — is made and verified here.

use vstd::prelude::*;
use vstd::string::StrSliceExecFns;
use crate::os::{pid_alive, send_sigkill, send_sigterm};
use crate::state::ProcessState;
use crate::strutil::{
    all_digits, digits_val, find_char, lemma_find_matches_first_index, parse_u64, spec_lines,
};

verus! {

/// The pid a line of a port scan names, when it is one: a plain decimal
/// number that fits a pid.
pub open spec fn spec_line_pid(line: Seq<char>) -> Option<i32> {
    if line.len() > 0 && all_digits(line) && digits_val(line) <= i32::MAX {
        Some(digits_val(line) as i32)
    } else {
        None
    }
}

/// The pids named by a sequence of lines, in order.
pub open spec fn spec_pid_lines(lines: Seq<Seq<char>>) -> Seq<i32>
    decreases lines.len(),
{
    if lines.len() == 0 {
        Seq::empty()
    } else {
        let rest = spec_pid_lines(lines.drop_first());
        match spec_line_pid(lines[0]) {
            Some(p) => seq![p] + rest,
            None => rest,
        }
    }
}

/// Parses the output of a port scan — one pid per line — into the pids
/// it names; lines that are not a plain pid are dropped.
pub fn parse_pid_lines(text: &str) -> (r: Vec<i32>)
    ensures
        r@ == spec_pid_lines(spec_lines(text@)),
{
    let n = text.unicode_len();
    let mut r: Vec<i32> = Vec::new();
    let mut pos: usize = 0;
    proof {
        assert(text@.subrange(0, n as int) =~= text@);
    }
    loop
        invariant_except_break
            0 <= pos <= n,
            n == text@.len(),
            spec_pid_lines(spec_lines(text@)) == r@ + spec_pid_lines(
                spec_lines(text@.subrange(pos as int, n as int)),
            ),
        ensures
            r@ == spec_pid_lines(spec_lines(text@)),
        decreases n - pos,
    {
        let nl = find_char(text, pos, '\n');
        let line_end = match nl {
            Some(i) => i,
            None => n,
        };
        let line = text.substring_char(pos, line_end);
        let ghost tail = text@.subrange(pos as int, n as int);
        let ghost rest = if nl is Some {
            spec_lines(text@.subrange(line_end + 1, n as int))
        } else {
            Seq::<Seq<char>>::empty()
        };
        proof {
            let rel: Option<usize> = match nl {
                Some(i) => Some((i - pos) as usize),
                None => None,
            };
            lemma_find_matches_first_index(tail, '\n', rel);
            assert(tail.subrange(0, line_end - pos) =~= text@.subrange(
                pos as int,
                line_end as int,
            ));
            if nl is Some {
                assert(tail.subrange(line_end - pos + 1, tail.len() as int) =~= text@.subrange(
                    line_end + 1,
                    n as int,
                ));
                assert(spec_lines(tail) == seq![line@] + rest);
            } else {
                assert(spec_lines(tail) =~= seq![line@] + rest);
            }
            assert((seq![line@] + rest)[0] == line@);
            assert((seq![line@] + rest).drop_first() =~= rest);
            assert(spec_pid_lines(seq![line@] + rest) == (match spec_line_pid(line@) {
                Some(p) => seq![p] + spec_pid_lines(rest),
                None => spec_pid_lines(rest),
            }));
        }
        let ghost r_before = r@;
        let parsed = parse_u64(line);
        match parsed {
            Some(v) => {
                if v <= i32::MAX as u64 {
                    r.push(v as i32);
                    proof {
                        assert(spec_line_pid(line@) == Some(v as i32));
                        assert(r@ =~= r_before + seq![v as i32]);
                    }
                } else {
                    proof {
                        assert(spec_line_pid(line@) is None);
                    }
                }
            },
            None => {
                proof {
                    assert(spec_line_pid(line@) is None);
                }
            },
        }
        proof {
            assert(r_before + spec_pid_lines(spec_lines(tail)) =~= r@ + spec_pid_lines(rest));
        }
        match nl {
            Some(i) => {
                pos = i + 1;
            },
            None => {
                proof {
                    assert(spec_pid_lines(Seq::<Seq<char>>::empty()) =~= Seq::<i32>::empty());
                    assert(spec_pid_lines(spec_lines(text@)) =~= r@);
                }
                break;
            },
        }
    }
    r
}

/// The pids a `stop` must address, in order: the user process first,
/// the monitor second, so the monitor never sees the user process die
/// and restarts it mid-stop.
pub open spec fn spec_stop_targets(rec: ProcessState) -> Seq<i32> {
    (match rec.pid {
        Some(p) => seq![p],
        None => Seq::empty(),
    }) + (match rec.monitor_pid {
        Some(m) => seq![m],
        None => Seq::empty(),
    })
}

/// Computes the ordered termination targets of a record.
pub fn stop_targets(rec: &ProcessState) -> (r: Vec<i32>)
    ensures
        r@ == spec_stop_targets(*rec),
{
    let mut r: Vec<i32> = Vec::new();
    if let Some(p) = rec.pid {
        r.push(p);
    }
    if let Some(m) = rec.monitor_pid {
        r.push(m);
    }
    proof {
        assert(r@ =~= spec_stop_targets(*rec));
    }
    r
}

/// A `stop` plan covers every pid the record holds: the user pid comes
/// first and the monitor pid last, so neither is skipped and the order
/// of the shutdown steps is the recorded one.
pub proof fn lemma_stop_covers_recorded_pids(rec: ProcessState)
    ensures
        rec.pid matches Some(p) ==> spec_stop_targets(rec).contains(p) && spec_stop_targets(rec)[0]
            == p,
        rec.monitor_pid matches Some(m) ==> spec_stop_targets(rec).contains(m) && spec_stop_targets(
            rec,
        ).last() == m,
{
    let ts = spec_stop_targets(rec);
    if rec.pid is Some {
        assert(ts[0] == rec.pid->0);
    }
    if rec.monitor_pid is Some {
        assert(ts.last() == rec.monitor_pid->0);
    }
}

/// Whether a pid occurs in a list.
pub fn contains_pid(v: &Vec<i32>, pid: i32) -> (r: bool)
    ensures
        r == v@.contains(pid),
{
    let mut i: usize = 0;
    while i < v.len()
        invariant
            0 <= i <= v.len(),
            forall|j: int| 0 <= j < i ==> v@[j] != pid,
        decreases v.len() - i,
    {
        if v[i] == pid {
            return true;
        }
        i = i + 1;
    }
    false
}

/// The pids of a port scan that still need reclaiming: those not
/// already handled by the ordered shutdown steps.
pub open spec fn spec_cleanup(pids: Seq<i32>, handled: Seq<i32>) -> Seq<i32>
    decreases pids.len(),
{
    if pids.len() == 0 {
        Seq::empty()
    } else {
        let rest = spec_cleanup(pids.drop_last(), handled);
        if !handled.contains(pids.last()) {
            rest.push(pids.last())
        } else {
            rest
        }
    }
}

/// Every pid seen on the port is either among the already handled ones
/// or in the reclamation list: port reclamation leaves no squatter
/// unaddressed.
pub proof fn lemma_port_reclaim_covers(pids: Seq<i32>, handled: Seq<i32>, p: i32)
    requires
        pids.contains(p),
    ensures
        handled.contains(p) || spec_cleanup(pids, handled).contains(p),
    decreases pids.len(),
{
    if pids.len() > 0 {
        if pids.last() == p {
            if !handled.contains(p) {
                assert(spec_cleanup(pids, handled).last() == p);
            }
        } else {
            let i = choose|i: int| 0 <= i < pids.len() && pids[i] == p;
            assert(pids.drop_last()[i] == p);
            assert(pids.drop_last().contains(p));
            lemma_port_reclaim_covers(pids.drop_last(), handled, p);
            if !handled.contains(p) {
                let rest = spec_cleanup(pids.drop_last(), handled);
                let j = choose|j: int| 0 <= j < rest.len() && rest[j] == p;
                if !handled.contains(pids.last()) {
                    assert(rest.push(pids.last())[j] == p);
                }
            }
        }
    }
}

/// Filters a port scan down to the pids that still need reclaiming.
pub fn port_cleanup_targets(port_pids: &Vec<i32>, handled: &Vec<i32>) -> (r: Vec<i32>)
    ensures
        r@ == spec_cleanup(port_pids@, handled@),
{
    let mut r: Vec<i32> = Vec::new();
    let mut i: usize = 0;
    while i < port_pids.len()
        invariant
            0 <= i <= port_pids.len(),
            r@ == spec_cleanup(port_pids@.subrange(0, i as int), handled@),
        decreases port_pids.len() - i,
    {
        proof {
            assert(port_pids@.subrange(0, i + 1).drop_last() =~= port_pids@.subrange(0, i as int));
            assert(port_pids@.subrange(0, i + 1).last() == port_pids@[i as int]);
        }
        if !contains_pid(handled, port_pids[i]) {
            r.push(port_pids[i]);
        }
        i = i + 1;
    }
    proof {
        assert(port_pids@.subrange(0, port_pids@.len() as int) =~= port_pids@);
    }
    r
}

/// Force-kills every pid of a port scan that was not already handled,
/// and returns exactly the pids that were addressed.
pub fn force_kill_all(port_pids: &Vec<i32>, handled: &Vec<i32>) -> (r: Vec<i32>)
    ensures
        r@ == spec_cleanup(port_pids@, handled@),
{
    let targets = port_cleanup_targets(port_pids, handled);
    let mut i: usize = 0;
    while i < targets.len()
        invariant
            0 <= i <= targets.len(),
        decreases targets.len() - i,
    {
        let _ = send_sigkill(targets[i]);
        i = i + 1;
    }
    targets
}

/// How the first shutdown step for one pid went.
#[derive(Clone, Copy, Debug, PartialEq, Eq, Structural)]
pub enum StopRequest {
    /// The pid is not alive; nothing to do.
    AlreadyDead,
    /// A graceful termination request was accepted; the caller waits
    /// the grace period and then finishes the stop.
    Requested,
    /// The graceful request was refused; the caller escalates at once.
    RequestFailed,
}

/// The decision of the first shutdown step, over what the probes
/// answered: a dead process needs nothing, a process that accepted the
/// graceful request is granted the grace period, and one that refused
/// it is escalated at once.
pub open spec fn spec_stop_request(alive: bool, term_accepted: bool) -> StopRequest {
    if !alive {
        StopRequest::AlreadyDead
    } else if term_accepted {
        StopRequest::Requested
    } else {
        StopRequest::RequestFailed
    }
}

/// Classifies the answers of the liveness probe and of the graceful
/// request into the first shutdown step's decision.
pub fn classify_stop_probe(alive: bool, term_accepted: bool) -> (r: StopRequest)
    ensures
        r == spec_stop_request(alive, term_accepted),
{
    if !alive {
        StopRequest::AlreadyDead
    } else if term_accepted {
        StopRequest::Requested
    } else {
        StopRequest::RequestFailed
    }
}

/// First shutdown step for one recorded pid: probes liveness and, when
/// the process still exists, asks it to terminate gracefully. Whether
/// the probe and the request succeed depends on the machine; the
/// returned branch classifies whatever they answered, as
/// `spec_stop_request` describes.
pub fn request_stop(pid: i32) -> (r: StopRequest) {
    let alive = pid_alive(pid);
    let term_accepted = if alive {
        send_sigterm(pid)
    } else {
        false
    };
    classify_stop_probe(alive, term_accepted)
}

/// Final shutdown step for one pid. The caller probes liveness once
/// the grace period has passed and hands the answer in; the forceful
/// signal is sent on exactly the escalating branch, so escalation
/// happens precisely when the process was still alive after the grace
/// wait — a process that exited within the window is never sent the
/// forceful signal.
pub fn finish_stop(pid: i32, alive_after_grace: bool) -> (escalated: bool)
    ensures
        escalated == alive_after_grace,
{
    if alive_after_grace {
        let _ = send_sigkill(pid);
        true
    } else {
        false
    }
}

} // verus!
