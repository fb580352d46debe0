//! The daemon-capable process manager: the context of one supervised
//! process together with its daemon-mode and restart switches, as the
//! monitor invocation and the daemonised start path use it.

use vstd::prelude::*;
use crate::state::ProcessState;
use crate::workspace::Workspace;

verus! {

/// The context of one supervised process, with its mode switches.
#[derive(Debug)]
pub struct ProcessManager {
    /// The process record held.
    pub state: ProcessState,
    /// The supervision tuning in effect.
    pub config: crate::types::ProcessConfig,
    /// The workspace this manager works in.
    pub workspace: Workspace,
    /// The name of the managed process.
    pub process_name: String,
    /// Whether a start detaches into a monitor invocation.
    pub daemon_mode: bool,
    /// Whether a failing exit is answered with a restart.
    pub auto_restart: bool,
}

impl ProcessManager {
    /// A manager for a process of the given name, with the built-in
    /// tuning, a fresh record, and both switches off.
    pub fn new(workspace: &Workspace, process_name: String) -> (r: Self)
        ensures
            r.workspace == *workspace,
            r.process_name@ == process_name@,
            r.state.pid is None,
            r.state.monitor_pid is None,
            r.state.restart_count == 0,
            r.config.init_wait_secs == 5,
            r.config.health_check_retries == 10,
            !r.daemon_mode,
            !r.auto_restart,
    {
        ProcessManager {
            state: ProcessState::default(),
            config: crate::types::ProcessConfig::default(),
            workspace: workspace.duplicate(),
            process_name,
            daemon_mode: false,
            auto_restart: false,
        }
    }

    /// A manager for a process of the given name, with the given
    /// tuning, a fresh record, and both switches off.
    pub fn with_config(
        workspace: &Workspace,
        process_name: String,
        config: crate::types::ProcessConfig,
    ) -> (r: Self)
        ensures
            r.workspace == *workspace,
            r.process_name@ == process_name@,
            r.config == config,
            r.state.pid is None,
            r.state.monitor_pid is None,
            r.state.restart_count == 0,
            !r.daemon_mode,
            !r.auto_restart,
    {
        ProcessManager {
            state: ProcessState::default(),
            config,
            workspace: workspace.duplicate(),
            process_name,
            daemon_mode: false,
            auto_restart: false,
        }
    }

    /// Switches daemon mode, leaving everything else as it was.
    pub fn set_daemon_mode(&mut self, enabled: bool)
        ensures
            final(self).daemon_mode == enabled,
            final(self).auto_restart == old(self).auto_restart,
            final(self).state == old(self).state,
            final(self).config == old(self).config,
            final(self).workspace == old(self).workspace,
            final(self).process_name == old(self).process_name,
    {
        self.daemon_mode = enabled;
    }

    /// Switches automatic restarts, leaving everything else as it was.
    pub fn set_auto_restart(&mut self, enabled: bool)
        ensures
            final(self).auto_restart == enabled,
            final(self).daemon_mode == old(self).daemon_mode,
            final(self).state == old(self).state,
            final(self).config == old(self).config,
            final(self).workspace == old(self).workspace,
            final(self).process_name == old(self).process_name,
    {
        self.auto_restart = enabled;
    }

    /// The supervision tuning in effect.
    pub fn get_config(&self) -> (r: &crate::types::ProcessConfig)
        ensures
            *r == self.config,
    {
        &self.config
    }

    /// The restart and health-gate policy the supervisor engine runs
    /// under for this process, given whether a health check URL is
    /// configured.
    pub fn engine_config(&self, max_restarts: u32, has_health_check: bool) -> (r:
        crate::engine::EngineConfig)
        ensures
            r.auto_restart == self.auto_restart,
            r.max_restarts == max_restarts,
            r.has_health_check == has_health_check,
            r.health_check_retries == if self.config.health_check_retries >= 1 {
                self.config.health_check_retries
            } else {
                1u32
            },
            r.wf(),
    {
        let retries = if self.config.health_check_retries >= 1 {
            self.config.health_check_retries
        } else {
            1
        };
        crate::engine::EngineConfig {
            auto_restart: self.auto_restart,
            max_restarts,
            has_health_check,
            health_check_retries: retries,
        }
    }
}

} // verus!
