//! The daemon manager: the spawn context of a process that is to be
//! detached from the session of its caller.
//!
//! Detaching itself — fork, session leadership, the exec — is platform
//! work outside the library; the context it runs with is assembled and
//! held here.

use vstd::prelude::*;

verus! {

/// The spawn context of one daemonised process.
#[derive(Debug)]
pub struct DaemonManager {
    /// Process name.
    name: String,
    /// Executable path.
    executable: String,
    /// Working directory.
    working_dir: String,
    /// Arguments, in order.
    args: Vec<String>,
    /// Environment variables, in order of appearance.
    env: Vec<(String, String)>,
    /// Whether a failing exit is answered with a restart.
    auto_restart: bool,
}

impl DaemonManager {
    /// The process name.
    pub closed spec fn spec_name(&self) -> Seq<char> {
        self.name@
    }

    /// The executable path.
    pub closed spec fn spec_executable(&self) -> Seq<char> {
        self.executable@
    }

    /// The working directory.
    pub closed spec fn spec_working_dir(&self) -> Seq<char> {
        self.working_dir@
    }

    /// The arguments.
    pub closed spec fn spec_args(&self) -> Seq<String> {
        self.args@
    }

    /// The environment.
    pub closed spec fn spec_env(&self) -> Seq<(String, String)> {
        self.env@
    }

    /// Whether restarts were requested.
    pub closed spec fn spec_auto_restart(&self) -> bool {
        self.auto_restart
    }

    /// A daemon manager holding the given spawn context.
    pub fn new(
        name: String,
        executable: String,
        working_dir: String,
        args: Vec<String>,
        env: Vec<(String, String)>,
        auto_restart: bool,
    ) -> (r: Self)
        ensures
            r.spec_name() == name@,
            r.spec_executable() == executable@,
            r.spec_working_dir() == working_dir@,
            r.spec_args() == args@,
            r.spec_env() == env@,
            r.spec_auto_restart() == auto_restart,
    {
        DaemonManager { name, executable, working_dir, args, env, auto_restart }
    }

    /// The spawn context, for the code that performs the detachment:
    /// executable, arguments, working directory and environment.
    pub fn spawn_context(&self) -> (r: (&String, &Vec<String>, &String, &Vec<(String, String)>))
        ensures
            r.0@ == self.spec_executable(),
            r.1@ == self.spec_args(),
            r.2@ == self.spec_working_dir(),
            r.3@ == self.spec_env(),
    {
        (&self.executable, &self.args, &self.working_dir, &self.env)
    }
}

} // verus!
