//! The plain process manager: the state, tuning and identity of one
//! supervised process, as the inline (non-daemonised) start path uses
//! it.

pub mod manager;

use vstd::prelude::*;
use crate::state::ProcessState;
use crate::workspace::Workspace;

verus! {

/// The context of one supervised process.
#[derive(Debug)]
pub struct ProcessManager {
    state: ProcessState,
    config: crate::types::ProcessConfig,
    workspace: Workspace,
    process_name: String,
}

impl ProcessManager {
    /// The supervision tuning in effect.
    pub closed spec fn spec_config(&self) -> crate::types::ProcessConfig {
        self.config
    }

    /// The process record held.
    pub closed spec fn spec_state(&self) -> ProcessState {
        self.state
    }

    /// The workspace this manager works in.
    pub closed spec fn spec_workspace(&self) -> Workspace {
        self.workspace
    }

    /// The name of the managed process.
    pub closed spec fn spec_process_name(&self) -> Seq<char> {
        self.process_name@
    }

    /// A manager for a process of the given name, with the built-in
    /// tuning and a fresh record.
    pub fn new(workspace: &Workspace, process_name: String) -> (r: Self)
        ensures
            r.spec_workspace() == *workspace,
            r.spec_process_name() == process_name@,
            r.spec_state().pid is None,
            r.spec_state().monitor_pid is None,
            r.spec_state().restart_count == 0,
            r.spec_config().init_wait_secs == 5,
            r.spec_config().health_check_retries == 10,
    {
        ProcessManager {
            state: ProcessState::default(),
            config: crate::types::ProcessConfig::default(),
            workspace: workspace.duplicate(),
            process_name,
        }
    }

    /// A manager for a process of the given name, with the given
    /// tuning and a fresh record.
    pub fn with_config(
        workspace: &Workspace,
        process_name: String,
        config: crate::types::ProcessConfig,
    ) -> (r: Self)
        ensures
            r.spec_workspace() == *workspace,
            r.spec_process_name() == process_name@,
            r.spec_config() == config,
            r.spec_state().pid is None,
            r.spec_state().monitor_pid is None,
            r.spec_state().restart_count == 0,
    {
        ProcessManager {
            state: ProcessState::default(),
            config,
            workspace: workspace.duplicate(),
            process_name,
        }
    }

    /// The supervision tuning in effect.
    pub fn get_config(&self) -> (r: &crate::types::ProcessConfig)
        ensures
            *r == self.spec_config(),
    {
        &self.config
    }
}

} // verus!
