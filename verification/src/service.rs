//! System-service configuration: the description of a process that is
//! to be installed as an operating-system service.
//!
//! Writing unit files and talking to the service manager of the
//! platform is I/O outside the library; the configuration they are
//! generated from is held here.

use vstd::prelude::*;
use crate::daemon::DaemonManager;

verus! {

/// The description of one system service.
#[derive(Debug)]
pub struct ServiceConfig {
    /// Service name.
    pub name: String,
    /// Executable path.
    pub executable: String,
    /// Working directory.
    pub working_dir: String,
    /// Arguments, in order.
    pub args: Vec<String>,
    /// Environment variables, in order of appearance.
    pub env: Vec<(String, String)>,
    /// Human-readable description.
    pub description: String,
    /// Whether the service manager restarts the process on failure.
    pub auto_restart: bool,
}

impl Default for ServiceConfig {
    /// An empty service bound to the current directory, restarted on
    /// failure.
    fn default() -> (r: Self)
        ensures
            r.name@.len() == 0,
            r.executable@.len() == 0,
            r.working_dir@ == "."@,
            r.args@.len() == 0,
            r.env@.len() == 0,
            r.description@.len() == 0,
            r.auto_restart,
    {
        ServiceConfig {
            name: String::new(),
            executable: String::new(),
            working_dir: ".".to_owned(),
            args: Vec::new(),
            env: Vec::new(),
            description: String::new(),
            auto_restart: true,
        }
    }
}

/// Manages one system service and, while it runs, its daemon.
#[derive(Debug)]
pub struct ServiceManager {
    config: ServiceConfig,
    daemon: Option<DaemonManager>,
}

impl ServiceManager {
    /// The service description managed here.
    pub closed spec fn spec_config(&self) -> ServiceConfig {
        self.config
    }

    /// Whether a daemon is currently held.
    pub closed spec fn spec_has_daemon(&self) -> bool {
        self.daemon is Some
    }

    /// A manager for the given service, with no daemon running yet.
    pub fn new(config: ServiceConfig) -> (r: Self)
        ensures
            r.spec_config() == config,
            !r.spec_has_daemon(),
    {
        ServiceManager { config, daemon: None }
    }

    /// The service description, for the code that writes unit files.
    pub fn get_config(&self) -> (r: &ServiceConfig)
        ensures
            *r == self.spec_config(),
    {
        &self.config
    }
}

} // verus!
