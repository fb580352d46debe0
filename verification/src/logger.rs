//! Log sink layout: per-process, per-day append-only log files and the
//! per-day system log.
//!
//! Only the paths are computed here; opening and appending to the files
//! is I/O and happens outside the library. The caller supplies the day as
//! a `YYYY-MM-DD` string, since reading the clock is outside work too.

use vstd::prelude::*;
use crate::strutil::{joined_path, path_join};
use crate::workspace::Workspace;

verus! {

/// Computes where each log stream of a process, and the system log,
/// belong inside a workspace.
#[derive(Debug, Clone)]
pub struct Logger {
    workspace: Workspace,
}

impl Logger {
    /// The workspace whose layout this logger follows.
    pub closed spec fn spec_workspace(&self) -> Workspace {
        self.workspace
    }

    /// A logger over the given workspace.
    pub fn new(workspace: Workspace) -> (r: Self)
        ensures
            r.spec_workspace() == workspace,
    {
        Logger { workspace }
    }

    /// The system log directory for one day.
    pub fn get_main_log_dir(&self, date: &str) -> (r: String)
        ensures
            r@ == joined_path(
                joined_path(self.spec_workspace().spec_fuckrun_dir(), "logs"@),
                date@,
            ),
    {
        let p = path_join(self.workspace.get_fuckrun_dir(), "logs");
        path_join(p.as_str(), date)
    }

    /// The log root of one process, holding one directory per day.
    pub fn get_process_log_root(&self, process_name: &str) -> (r: String)
        ensures
            r@ == joined_path(
                joined_path(
                    joined_path(self.spec_workspace().spec_fuckrun_dir(), "processes"@),
                    process_name@,
                ),
                "logs"@,
            ),
    {
        let p = self.workspace.get_process_dir(process_name);
        path_join(p.as_str(), "logs")
    }

    /// The log directory of one process for one day.
    pub fn get_process_log_dir(&self, process_name: &str, date: &str) -> (r: String)
        ensures
            r@ == joined_path(
                joined_path(
                    joined_path(
                        joined_path(self.spec_workspace().spec_fuckrun_dir(), "processes"@),
                        process_name@,
                    ),
                    "logs"@,
                ),
                date@,
            ),
    {
        let p = self.get_process_log_root(process_name);
        path_join(p.as_str(), date)
    }

    /// The standard-output log file of one process for one day.
    pub fn stdout_log_path(&self, process_name: &str, date: &str) -> (r: String)
        ensures
            r@ == joined_path(
                joined_path(
                    joined_path(
                        joined_path(
                            joined_path(self.spec_workspace().spec_fuckrun_dir(), "processes"@),
                            process_name@,
                        ),
                        "logs"@,
                    ),
                    date@,
                ),
                "stdout.log"@,
            ),
    {
        let p = self.get_process_log_dir(process_name, date);
        path_join(p.as_str(), "stdout.log")
    }

    /// The standard-error log file of one process for one day.
    pub fn stderr_log_path(&self, process_name: &str, date: &str) -> (r: String)
        ensures
            r@ == joined_path(
                joined_path(
                    joined_path(
                        joined_path(
                            joined_path(self.spec_workspace().spec_fuckrun_dir(), "processes"@),
                            process_name@,
                        ),
                        "logs"@,
                    ),
                    date@,
                ),
                "stderr.log"@,
            ),
    {
        let p = self.get_process_log_dir(process_name, date);
        path_join(p.as_str(), "stderr.log")
    }
}

} // verus!
