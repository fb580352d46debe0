//! The persisted per-process record: pids, spawn context and counters.
//!
//! One record exists per managed process. It is the rendezvous between a
//! short-lived control invocation and the detached monitor invocation: the
//! monitor writes the child pid into it on every (re)spawn, and a later
//! control invocation reads it back to find, inspect or terminate the
//! running process. Reading and writing the file itself is I/O and lives
//! outside the library; every mutation of the record is defined and
//! verified here.

use vstd::prelude::*;
use crate::strutil::{clone_string_vec, is_absolute_path};

verus! {

/// The persisted state of one managed process.
#[derive(Debug, Clone)]
pub struct ProcessState {
    /// Pid of the user process of the most recent spawn; may be stale.
    pub pid: Option<i32>,
    /// Pid of the detached monitor invocation watching the process.
    pub monitor_pid: Option<i32>,
    /// Executable path or name passed to the spawn.
    pub program: String,
    /// Arguments as spawned, in order.
    pub args: Vec<String>,
    /// Working directory, resolved before spawn.
    pub working_dir: String,
    /// Port to free during stop; zero means no port reclamation.
    pub port: u16,
    /// Health check probe target, when configured.
    pub health_check_url: Option<String>,
    /// How often the process was respawned; never reset.
    pub restart_count: u32,
    /// Epoch milliseconds of the most recent successful spawn.
    pub last_start_epoch_ms: i64,
}

impl ProcessState {
    /// The record invariant: the user process and its monitor are
    /// distinct processes, so their pids never coincide; and once a
    /// spawn was recorded, the working directory it ran in is absolute.
    pub open spec fn wf(&self) -> bool {
        &&& self.pid is Some && self.monitor_pid is Some ==> self.pid != self.monitor_pid
        &&& self.pid is Some ==> is_absolute_path(self.working_dir@)
    }

    /// A fresh record for a process that has not been spawned yet.
    pub fn new(program: String, args: Vec<String>, working_dir: String, port: u16) -> (r: Self)
        ensures
            r.pid is None,
            r.monitor_pid is None,
            r.program == program,
            r.args == args,
            r.working_dir == working_dir,
            r.port == port,
            r.health_check_url is None,
            r.restart_count == 0,
            r.last_start_epoch_ms == 0,
            r.wf(),
    {
        ProcessState {
            pid: None,
            monitor_pid: None,
            program,
            args,
            working_dir,
            port,
            health_check_url: None,
            restart_count: 0,
            last_start_epoch_ms: 0,
        }
    }

    /// Marks the process as stopped: both pids are cleared, while the
    /// spawn context and the counters persist.
    pub fn update_stopped_state(&mut self)
        ensures
            final(self).pid is None,
            final(self).monitor_pid is None,
            final(self).program == old(self).program,
            final(self).args == old(self).args,
            final(self).working_dir == old(self).working_dir,
            final(self).port == old(self).port,
            final(self).health_check_url == old(self).health_check_url,
            final(self).restart_count == old(self).restart_count,
            final(self).last_start_epoch_ms == old(self).last_start_epoch_ms,
            final(self).wf(),
    {
        self.pid = None;
        self.monitor_pid = None;
    }

    /// Records a (re)spawn of the user process: the new child pid and the
    /// spawn context are written, the monitor pid is left untouched, and
    /// the restart counter grows only on a restart, never on the initial
    /// spawn.
    pub fn apply_spawn(
        &mut self,
        pid: i32,
        program: &String,
        args: &Vec<String>,
        working_dir: &String,
        port: u16,
        health_check_url: &Option<String>,
        now_epoch_ms: i64,
        is_restart: bool,
    )
        requires
            old(self).monitor_pid != Some(pid),
            is_restart ==> old(self).restart_count < u32::MAX,
            is_absolute_path(working_dir@),
        ensures
            final(self).pid == Some(pid),
            final(self).monitor_pid == old(self).monitor_pid,
            final(self).program == *program,
            final(self).args@ == args@,
            final(self).working_dir == *working_dir,
            final(self).port == port,
            final(self).health_check_url == *health_check_url,
            final(self).last_start_epoch_ms == now_epoch_ms,
            final(self).restart_count == old(self).restart_count + (if is_restart {
                1int
            } else {
                0int
            }),
            final(self).wf(),
    {
        self.pid = Some(pid);
        self.program = program.clone();
        self.args = clone_string_vec(args);
        self.working_dir = working_dir.clone();
        self.port = port;
        self.health_check_url = match health_check_url {
            Some(u) => Some(u.clone()),
            None => None,
        };
        self.last_start_epoch_ms = now_epoch_ms;
        if is_restart {
            self.restart_count = self.restart_count + 1;
        }
    }

    /// Records the pid of the detached monitor, leaving everything else
    /// as it was.
    pub fn set_monitor(&mut self, monitor_pid: i32)
        requires
            old(self).pid != Some(monitor_pid),
        ensures
            old(self).wf() ==> final(self).wf(),
            final(self).monitor_pid == Some(monitor_pid),
            final(self).pid == old(self).pid,
            final(self).program == old(self).program,
            final(self).args == old(self).args,
            final(self).working_dir == old(self).working_dir,
            final(self).port == old(self).port,
            final(self).health_check_url == old(self).health_check_url,
            final(self).restart_count == old(self).restart_count,
            final(self).last_start_epoch_ms == old(self).last_start_epoch_ms,
    {
        self.monitor_pid = Some(monitor_pid);
    }
}

impl Default for ProcessState {
    /// The record of a process nobody has started: no pids, no program,
    /// the current directory, and the fallback port.
    fn default() -> (r: Self)
        ensures
            r.pid is None,
            r.monitor_pid is None,
            r.program@.len() == 0,
            r.args@.len() == 0,
            r.working_dir@ == "."@,
            r.port == 5000,
            r.health_check_url is None,
            r.restart_count == 0,
            r.last_start_epoch_ms == 0,
            r.wf(),
    {
        ProcessState {
            pid: None,
            monitor_pid: None,
            program: String::new(),
            args: Vec::new(),
            working_dir: ".".to_owned(),
            port: 5000,
            health_check_url: None,
            restart_count: 0,
            last_start_epoch_ms: 0,
        }
    }
}

} // verus!
