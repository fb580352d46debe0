//! Forceful file and directory removal configuration.
//!
//! The removals themselves — retry loops over the file system, and the
//! termination of processes holding files open — are I/O and live
//! outside the library, driven by the retry counts and waits configured
//! here.

use vstd::prelude::*;
use vstd::string::StrSliceExecFns;
use crate::strutil::{
    all_digits, contains_at, digits_val, eq_nocase, find_char, lemma_find_matches_first_index,
    parse_u64, spec_lines, split_lines, str_contains, str_eq_ignore_ascii_case, views_of,
};
use crate::types::{FsConfig, ProcessPriority};

verus! {

/// The priority class of a process seen holding a file open: script
/// interpreters and version control are application work, the shell of
/// the desktop and the system itself must outlive a cleanup, and
/// everything else is expendable first.
pub open spec fn spec_classify_priority(name: Seq<char>) -> ProcessPriority {
    if (exists|i: int| contains_at(name, "python"@, i)) || (exists|i: int|
        contains_at(name, "git"@, i)) {
        ProcessPriority::Application
    } else if eq_nocase(name, "explorer"@) || eq_nocase(name, "system"@) {
        ProcessPriority::System
    } else {
        ProcessPriority::Temporary
    }
}

/// Classifies a process name into the priority order terminations
/// follow.
pub fn classify_priority(name: &str) -> (r: ProcessPriority)
    ensures
        r == spec_classify_priority(name@),
{
    if str_contains(name, "python") || str_contains(name, "git") {
        ProcessPriority::Application
    } else if str_eq_ignore_ascii_case(name, "explorer") || str_eq_ignore_ascii_case(
        name,
        "system",
    ) {
        ProcessPriority::System
    } else {
        ProcessPriority::Temporary
    }
}

/// A text split into fields at runs of spaces.
pub open spec fn spec_fields(s: Seq<char>) -> Seq<Seq<char>>
    decreases s.len(),
{
    if s.len() == 0 {
        Seq::empty()
    } else if s[0] == ' ' {
        spec_fields(s.drop_first())
    } else {
        let i = crate::strutil::first_index(s, ' ');
        if i < 0 || i >= s.len() {
            seq![s]
        } else {
            seq![s.subrange(0, i)] + spec_fields(s.subrange(i + 1, s.len() as int))
        }
    }
}

/// Splits a line into its space-separated fields.
pub fn split_fields(s: &str) -> (r: Vec<String>)
    ensures
        views_of(r@) == spec_fields(s@),
{
    let n = s.unicode_len();
    let mut r: Vec<String> = Vec::new();
    let mut pos: usize = 0;
    proof {
        assert(s@.subrange(0, n as int) =~= s@);
    }
    while pos < n
        invariant
            0 <= pos <= n,
            n == s@.len(),
            spec_fields(s@) == views_of(r@) + spec_fields(s@.subrange(pos as int, n as int)),
        decreases n - pos,
    {
        let ghost tail = s@.subrange(pos as int, n as int);
        let c = s.get_char(pos);
        if c == ' ' {
            proof {
                assert(tail[0] == ' ');
                assert(tail.drop_first() =~= s@.subrange(pos + 1, n as int));
            }
            pos = pos + 1;
        } else {
            let nl = find_char(s, pos, ' ');
            let fend = match nl {
                Some(i) => i,
                None => n,
            };
            let field = s.substring_char(pos, fend).to_owned();
            let ghost fv = field@;
            let ghost rest = if nl is Some {
                spec_fields(s@.subrange(fend + 1, n as int))
            } else {
                Seq::<Seq<char>>::empty()
            };
            proof {
                let rel: Option<usize> = match nl {
                    Some(i) => Some((i - pos) as usize),
                    None => None,
                };
                lemma_find_matches_first_index(tail, ' ', rel);
                assert(tail.subrange(0, fend - pos) =~= s@.subrange(pos as int, fend as int));
                assert(tail[0] != ' ');
                if nl is Some {
                    assert(tail.subrange(fend - pos + 1, tail.len() as int) =~= s@.subrange(
                        fend + 1,
                        n as int,
                    ));
                    assert(spec_fields(tail) == seq![fv] + rest);
                } else {
                    assert(spec_fields(tail) =~= seq![fv] + rest);
                }
            }
            let ghost r_before = r@;
            r.push(field);
            proof {
                assert(views_of(r@) =~= views_of(r_before).push(fv));
                assert(views_of(r@) + rest =~= views_of(r_before) + spec_fields(tail));
            }
            match nl {
                Some(i) => {
                    pos = i + 1;
                },
                None => {
                    pos = n;
                    proof {
                        assert(s@.subrange(n as int, n as int) =~= Seq::<char>::empty());
                        assert(views_of(r@) + rest =~= views_of(r@));
                    }
                },
            }
        }
    }
    proof {
        assert(s@.subrange(n as int, n as int) =~= Seq::<char>::empty());
        assert(views_of(r@) =~= spec_fields(s@));
    }
    r
}

/// One process seen holding a file open.
#[derive(Debug)]
pub struct LockingProcess {
    /// Operating-system pid.
    pub pid: i32,
    /// Process or command name, as the scan reported it.
    pub name: String,
    /// Termination ordering class of the name.
    pub priority: ProcessPriority,
}

/// What one line of a file-lock scan names, when it names anything:
/// the first field is the command name, the second the pid.
pub open spec fn spec_lock_entry(line: Seq<char>) -> Option<(Seq<char>, int)> {
    let fields = spec_fields(line);
    if fields.len() >= 2 && fields[1].len() > 0 && all_digits(fields[1]) && digits_val(fields[1])
        <= i32::MAX {
        Some((fields[0], digits_val(fields[1]) as int))
    } else {
        None
    }
}

/// The entries of a sequence of scan lines, in order; lines that name
/// nothing are dropped.
pub open spec fn spec_lock_entries(lines: Seq<Seq<char>>) -> Seq<(Seq<char>, int)>
    decreases lines.len(),
{
    if lines.len() == 0 {
        Seq::empty()
    } else {
        let rest = spec_lock_entries(lines.drop_last());
        match spec_lock_entry(lines.last()) {
            Some(e) => rest.push(e),
            None => rest,
        }
    }
}

/// The processes a whole file-lock scan reports: its lines after the
/// header, each read as a name and a pid.
pub open spec fn spec_lock_listing(text: Seq<char>) -> Seq<(Seq<char>, int)> {
    spec_lock_entries(spec_lines(text).drop_first())
}

/// Whether entry `i` of a result list matches entry `i` of a scan:
/// same name, same pid, and the priority its name classifies to.
pub open spec fn lock_result_at(r: Seq<LockingProcess>, es: Seq<(Seq<char>, int)>, i: int) -> bool {
    r[i].name@ == es[i].0 && r[i].pid as int == es[i].1 && r[i].priority
        == spec_classify_priority(es[i].0)
}

/// Whether a result list matches the entries of a scan, name for name
/// and pid for pid, each classified by its name.
pub open spec fn lock_results_match(r: Seq<LockingProcess>, es: Seq<(Seq<char>, int)>) -> bool {
    r.len() == es.len() && (forall|i: int| 0 <= i < r.len() ==> #[trigger] lock_result_at(r, es, i))
}

/// Parses the output of a file-lock scan — a header line, then one
/// process per line with the command name first and the pid second —
/// into the processes it names, each classified by priority.
pub fn locking_processes_from_listing(text: &str) -> (r: Vec<LockingProcess>)
    ensures
        lock_results_match(r@, spec_lock_listing(text@)),
{
    let lines = split_lines(text);
    let mut r: Vec<LockingProcess> = Vec::new();
    let mut i: usize = 1;
    proof {
        assert(spec_lines(text@).len() > 0);
        assert(views_of(lines@).subrange(1, 1) =~= Seq::<Seq<char>>::empty());
    }
    while i < lines.len()
        invariant
            1 <= i <= lines.len(),
            views_of(lines@) == spec_lines(text@),
            lock_results_match(r@, spec_lock_entries(views_of(lines@).subrange(1, i as int))),
        decreases lines.len() - i,
    {
        proof {
            assert(views_of(lines@).subrange(1, i + 1).drop_last() =~= views_of(lines@).subrange(
                1,
                i as int,
            ));
            assert(views_of(lines@).subrange(1, i + 1).last() == lines@[i as int]@);
        }
        let fields = split_fields(lines[i].as_str());
        let ghost entry = spec_lock_entry(lines@[i as int]@);
        let ghost es_prev = spec_lock_entries(views_of(lines@).subrange(1, i as int));
        let ghost es_next = spec_lock_entries(views_of(lines@).subrange(1, i + 1));
        let ghost r_prev = r@;
        proof {
            assert(lock_results_match(r_prev, es_prev));
        }
        if fields.len() >= 2 {
            match parse_u64(fields[1].as_str()) {
                Some(v) => {
                    if v <= i32::MAX as u64 {
                        let name = fields[0].clone();
                        let priority = classify_priority(name.as_str());
                        proof {
                            assert(views_of(fields@)[0] == fields@[0]@);
                            assert(views_of(fields@)[1] == fields@[1]@);
                            assert(entry == Some(
                                (spec_fields(lines@[i as int]@)[0], v as int),
                            ));
                            assert(name@ == spec_fields(lines@[i as int]@)[0]);
                        }
                        let lp = LockingProcess { pid: v as i32, name, priority };
                        let ghost lpg = lp;
                        r.push(lp);
                        proof {
                            let e = entry->0;
                            assert(es_next == es_prev.push(e));
                            assert(r@ == r_prev.push(lpg));
                            assert(lpg.name@ == e.0);
                            assert(lpg.pid as int == e.1);
                            assert(lpg.priority == spec_classify_priority(e.0));
                            assert forall|k: int| 0 <= k < r@.len() implies #[trigger] lock_result_at(
                                r@,
                                es_next,
                                k,
                            ) by {
                                if k < r@.len() - 1 {
                                    assert(r@[k] == r_prev[k]);
                                    assert(es_next[k] == es_prev[k]);
                                    assert(lock_result_at(r_prev, es_prev, k));
                                } else {
                                    assert(r@[k] == lpg);
                                    assert(es_next[k] == e);
                                }
                            }
                            assert(lock_results_match(r@, es_next));
                        }
                    } else {
                        proof {
                            assert(entry is None);
                            assert(es_next == es_prev);
                        }
                    }
                },
                None => {
                    proof {
                        assert(entry is None);
                        assert(es_next == es_prev);
                    }
                },
            }
        } else {
            proof {
                assert(entry is None);
                assert(es_next == es_prev);
            }
        }
        i = i + 1;
    }
    proof {
        if lines@.len() > 0 {
            assert(views_of(lines@).subrange(1, lines@.len() as int) =~= views_of(
                lines@,
            ).drop_first());
        }
    }
    r
}

/// Carries the retry policy for forceful removals.
#[derive(Debug)]
pub struct FsManager {
    config: FsConfig,
}

impl FsManager {
    /// The retry policy this manager applies.
    pub closed spec fn spec_config(&self) -> FsConfig {
        self.config
    }

    /// A manager with the given retry policy.
    pub fn new(config: FsConfig) -> (r: Self)
        ensures
            r.spec_config() == config,
    {
        FsManager { config }
    }

    /// The retry policy, for the code that performs the removals.
    pub fn get_config(&self) -> (r: FsConfig)
        ensures
            r == self.spec_config(),
    {
        self.config
    }
}

impl Default for FsManager {
    /// A manager with the built-in retry policy.
    fn default() -> (r: Self)
        ensures
            r.spec_config().max_retries == 3,
            r.spec_config().retry_delay_ms == 100,
            r.spec_config().exit_wait_ms == 500,
    {
        FsManager { config: FsConfig::default() }
    }
}

} // verus!
