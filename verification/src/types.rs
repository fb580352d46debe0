//! Core configuration types: process tuning, file-system handling,
//! state-store layout, and process priority.

use vstd::prelude::*;
use crate::strutil::{joined_path, path_join};

verus! {

/// The reason a configuration value was rejected by `validate`.
#[derive(Clone, Copy, Debug, PartialEq, Eq, Structural)]
pub enum ConfigError {
    /// `init_wait_secs` must not be zero.
    ZeroInitWait,
    /// `health_check_timeout_secs` must not be zero.
    ZeroHealthCheckTimeout,
    /// `health_check_retries` must not be zero.
    ZeroHealthCheckRetries,
    /// `retry_interval_secs` must not be zero.
    ZeroRetryInterval,
    /// `graceful_shutdown_timeout_secs` must not be zero.
    ZeroGracefulShutdownTimeout,
    /// `exit_wait_ms` must not be zero.
    ZeroExitWait,
    /// `max_retries` must not be zero.
    ZeroMaxRetries,
    /// `retry_delay_ms` must not be zero.
    ZeroRetryDelay,
    /// `state_filename` must not be empty.
    EmptyStateFilename,
}

/// Priority class of a process, used to order terminations.
#[derive(Debug, Clone, Copy, PartialEq, Eq, Structural)]
pub enum ProcessPriority {
    System,
    Application,
    Temporary,
}

impl ProcessPriority {
    /// The numeric rank of the priority; lower ranks are terminated later.
    pub fn value(&self) -> (r: u8)
        ensures
            r == match *self {
                ProcessPriority::System => 1u8,
                ProcessPriority::Application => 2u8,
                ProcessPriority::Temporary => 3u8,
            },
    {
        match self {
            ProcessPriority::System => 1,
            ProcessPriority::Application => 2,
            ProcessPriority::Temporary => 3,
        }
    }

    /// Whether this is the system priority.
    pub fn is_system(&self) -> (r: bool)
        ensures
            r == (*self is System),
    {
        matches!(self, ProcessPriority::System)
    }

    /// Whether this is the application priority.
    pub fn is_application(&self) -> (r: bool)
        ensures
            r == (*self is Application),
    {
        matches!(self, ProcessPriority::Application)
    }

    /// Whether this is the temporary priority.
    pub fn is_temporary(&self) -> (r: bool)
        ensures
            r == (*self is Temporary),
    {
        matches!(self, ProcessPriority::Temporary)
    }
}

/// File-system handling configuration.
#[derive(Debug, Clone, Copy)]
pub struct FsConfig {
    /// Retries when a removal fails.
    pub max_retries: u32,
    /// Delay between removal retries, in milliseconds.
    pub retry_delay_ms: u64,
    /// Default permission mode for files.
    pub default_mode: u32,
    /// Wait after a process was terminated, in milliseconds.
    pub exit_wait_ms: u64,
    /// Default permission mask for files.
    pub default_file_mode: u32,
    /// Default permission mask for directories.
    pub default_dir_mode: u32,
}

/// Process supervision tuning.
#[derive(Debug, Clone)]
pub struct ProcessConfig {
    /// Default port recorded for a process when none is given.
    pub default_port: u16,
    /// Initialisation wait after spawn, in seconds.
    pub init_wait_secs: u64,
    /// Per-probe health check timeout, in seconds.
    pub health_check_timeout_secs: u64,
    /// Number of health probes before giving up.
    pub health_check_retries: u32,
    /// Wait between health probes and before a restart, in seconds.
    pub retry_interval_secs: u64,
    /// Wait after a graceful termination request, in seconds.
    pub graceful_shutdown_timeout_secs: u64,
    /// Process creation flags used on platforms that need them.
    pub windows_process_flags: u32,
    /// Wait after a forceful termination, in milliseconds.
    pub exit_wait_ms: u64,
    /// Default interpreter used to run scripts.
    pub default_python_interpreter: String,
    /// Default script path used when none is configured.
    pub default_script_path: String,
}

/// State store layout configuration.
#[derive(Debug, Clone)]
pub struct StateConfig {
    /// Directory holding the state file.
    pub state_dir: String,
    /// Name of the state file.
    pub state_filename: String,
    /// Default working directory for processes.
    pub default_working_dir: String,
}

/// Application-wide configuration.
#[derive(Debug, Clone)]
pub struct AppConfig {
    /// Configuration file paths tried in order.
    pub default_config_paths: Vec<String>,
}

pub fn default_fs_retries() -> (r: u32)
    ensures
        r == 3u32,
{
    3
}

pub fn default_fs_retry_delay() -> (r: u64)
    ensures
        r == 100u64,
{
    100
}

pub fn default_file_mode() -> (r: u32)
    ensures
        r == 0o644u32,
{
    0o644
}

pub fn default_dir_mode() -> (r: u32)
    ensures
        r == 0o755u32,
{
    0o755
}

pub fn default_port() -> (r: u16)
    ensures
        r == 5000u16,
{
    5000
}

pub fn default_init_wait() -> (r: u64)
    ensures
        r == 5u64,
{
    5
}

pub fn default_health_check_timeout() -> (r: u64)
    ensures
        r == 5u64,
{
    5
}

pub fn default_health_check_retries() -> (r: u32)
    ensures
        r == 10u32,
{
    10
}

pub fn default_retry_interval() -> (r: u64)
    ensures
        r == 2u64,
{
    2
}

pub fn default_graceful_shutdown_timeout() -> (r: u64)
    ensures
        r == 3u64,
{
    3
}

pub fn default_state_dir() -> (r: String)
    ensures
        r@ == ".fuckrun"@,
{
    ".fuckrun".to_owned()
}

pub fn default_state_filename() -> (r: String)
    ensures
        r@ == "state.json"@,
{
    "state.json".to_owned()
}

pub fn default_working_dir() -> (r: String)
    ensures
        r@ == "."@,
{
    ".".to_owned()
}

pub fn default_exit_wait_ms() -> (r: u64)
    ensures
        r == 500u64,
{
    500
}

pub fn default_windows_process_flags() -> (r: u32)
    ensures
        r == 0x208u32,
{
    // new-process-group (0x200) plus detached-process (0x8)
    0x00000200 + 0x00000008
}

pub fn default_python_interpreter() -> (r: String)
    ensures
        r@ == "python"@,
{
    "python".to_owned()
}

pub fn default_script_path() -> (r: String)
    ensures
        r@ == "examples/simple_web.py"@,
{
    "examples/simple_web.py".to_owned()
}

pub fn default_config_paths() -> (r: Vec<String>)
    ensures
        r@.len() == 2,
        r@[0]@ == "config.yaml"@,
        r@[1]@ == "config.json"@,
{
    let mut v: Vec<String> = Vec::new();
    v.push("config.yaml".to_owned());
    v.push("config.json".to_owned());
    v
}

impl Default for FsConfig {
    /// The built-in file-system defaults.
    fn default() -> (r: Self)
        ensures
            r.max_retries == 3,
            r.retry_delay_ms == 100,
            r.default_mode == 0o644,
            r.exit_wait_ms == 500,
            r.default_file_mode == 0o644,
            r.default_dir_mode == 0o755,
    {
        FsConfig {
            max_retries: default_fs_retries(),
            retry_delay_ms: default_fs_retry_delay(),
            default_mode: default_file_mode(),
            exit_wait_ms: default_exit_wait_ms(),
            default_file_mode: default_file_mode(),
            default_dir_mode: default_dir_mode(),
        }
    }
}

impl Default for ProcessConfig {
    /// The built-in supervision defaults.
    fn default() -> (r: Self)
        ensures
            r.default_port == 5000,
            r.init_wait_secs == 5,
            r.health_check_timeout_secs == 5,
            r.health_check_retries == 10,
            r.retry_interval_secs == 2,
            r.graceful_shutdown_timeout_secs == 3,
            r.windows_process_flags == 0x208,
            r.exit_wait_ms == 500,
            r.default_python_interpreter@ == "python"@,
            r.default_script_path@ == "examples/simple_web.py"@,
    {
        ProcessConfig {
            default_port: default_port(),
            init_wait_secs: default_init_wait(),
            health_check_timeout_secs: default_health_check_timeout(),
            health_check_retries: default_health_check_retries(),
            retry_interval_secs: default_retry_interval(),
            graceful_shutdown_timeout_secs: default_graceful_shutdown_timeout(),
            windows_process_flags: default_windows_process_flags(),
            exit_wait_ms: default_exit_wait_ms(),
            default_python_interpreter: default_python_interpreter(),
            default_script_path: default_script_path(),
        }
    }
}

impl Default for StateConfig {
    /// The built-in state store layout.
    fn default() -> (r: Self)
        ensures
            r.state_dir@ == ".fuckrun"@,
            r.state_filename@ == "state.json"@,
            r.default_working_dir@ == "."@,
    {
        StateConfig {
            state_dir: default_state_dir(),
            state_filename: default_state_filename(),
            default_working_dir: default_working_dir(),
        }
    }
}

impl Default for AppConfig {
    /// The built-in configuration search paths.
    fn default() -> (r: Self)
        ensures
            r.default_config_paths@.len() == 2,
            r.default_config_paths@[0]@ == "config.yaml"@,
            r.default_config_paths@[1]@ == "config.json"@,
    {
        AppConfig { default_config_paths: default_config_paths() }
    }
}

impl ProcessConfig {
    /// The initialisation wait, in milliseconds.
    pub fn init_wait(&self) -> (r: u128)
        ensures
            r == self.init_wait_secs * 1000,
    {
        (self.init_wait_secs as u128) * 1000
    }

    /// The per-probe health check timeout, in milliseconds.
    pub fn health_check_timeout(&self) -> (r: u128)
        ensures
            r == self.health_check_timeout_secs * 1000,
    {
        (self.health_check_timeout_secs as u128) * 1000
    }

    /// The wait between retries, in milliseconds.
    pub fn retry_interval(&self) -> (r: u128)
        ensures
            r == self.retry_interval_secs * 1000,
    {
        (self.retry_interval_secs as u128) * 1000
    }

    /// The graceful shutdown wait, in milliseconds.
    pub fn graceful_shutdown_timeout(&self) -> (r: u128)
        ensures
            r == self.graceful_shutdown_timeout_secs * 1000,
    {
        (self.graceful_shutdown_timeout_secs as u128) * 1000
    }

    /// The post-termination settle wait, in milliseconds.
    pub fn exit_wait(&self) -> (r: u128)
        ensures
            r == self.exit_wait_ms,
    {
        self.exit_wait_ms as u128
    }

    /// Whether every tuning value of this configuration is usable.
    pub open spec fn valid(&self) -> bool {
        &&& self.init_wait_secs > 0
        &&& self.health_check_timeout_secs > 0
        &&& self.health_check_retries > 0
        &&& self.retry_interval_secs > 0
        &&& self.graceful_shutdown_timeout_secs > 0
        &&& self.exit_wait_ms > 0
    }

    /// Rejects a configuration in which any wait or retry budget is zero.
    pub fn validate(&self) -> (r: Result<(), ConfigError>)
        ensures
            r is Ok <==> self.valid(),
            self.init_wait_secs == 0 ==> r == Result::<(), ConfigError>::Err(
                ConfigError::ZeroInitWait,
            ),
    {
        if self.init_wait_secs == 0 {
            return Err(ConfigError::ZeroInitWait);
        }
        if self.health_check_timeout_secs == 0 {
            return Err(ConfigError::ZeroHealthCheckTimeout);
        }
        if self.health_check_retries == 0 {
            return Err(ConfigError::ZeroHealthCheckRetries);
        }
        if self.retry_interval_secs == 0 {
            return Err(ConfigError::ZeroRetryInterval);
        }
        if self.graceful_shutdown_timeout_secs == 0 {
            return Err(ConfigError::ZeroGracefulShutdownTimeout);
        }
        if self.exit_wait_ms == 0 {
            return Err(ConfigError::ZeroExitWait);
        }
        Ok(())
    }
}

impl FsConfig {
    /// The wait between removal retries, in milliseconds.
    pub fn retry_delay(&self) -> (r: u128)
        ensures
            r == self.retry_delay_ms,
    {
        self.retry_delay_ms as u128
    }

    /// The post-termination settle wait, in milliseconds.
    pub fn exit_wait(&self) -> (r: u128)
        ensures
            r == self.exit_wait_ms,
    {
        self.exit_wait_ms as u128
    }

    /// Whether every retry and wait value of this configuration is usable.
    pub open spec fn valid(&self) -> bool {
        &&& self.max_retries > 0
        &&& self.retry_delay_ms > 0
        &&& self.exit_wait_ms > 0
    }

    /// Rejects a configuration in which any retry count or wait is zero.
    pub fn validate(&self) -> (r: Result<(), ConfigError>)
        ensures
            r is Ok <==> self.valid(),
            self.max_retries == 0 ==> r == Result::<(), ConfigError>::Err(
                ConfigError::ZeroMaxRetries,
            ),
    {
        if self.max_retries == 0 {
            return Err(ConfigError::ZeroMaxRetries);
        }
        if self.retry_delay_ms == 0 {
            return Err(ConfigError::ZeroRetryDelay);
        }
        if self.exit_wait_ms == 0 {
            return Err(ConfigError::ZeroExitWait);
        }
        Ok(())
    }
}

impl StateConfig {
    /// The full path of the state file inside the state directory.
    pub fn state_file_path(&self) -> (r: String)
        ensures
            r@ == joined_path(self.state_dir@, self.state_filename@),
    {
        path_join(self.state_dir.as_str(), self.state_filename.as_str())
    }

    /// Whether the layout names a state file at all.
    pub open spec fn valid(&self) -> bool {
        self.state_filename@.len() > 0
    }

    /// Rejects a layout whose state file name is empty.
    pub fn validate(&self) -> (r: Result<(), ConfigError>)
        ensures
            r is Ok <==> self.valid(),
            !self.valid() ==> r == Result::<(), ConfigError>::Err(ConfigError::EmptyStateFilename),
    {
        if self.state_filename.as_str().is_empty() {
            return Err(ConfigError::EmptyStateFilename);
        }
        Ok(())
    }
}

} // verus!
