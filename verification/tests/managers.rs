//! Manager constructors and the liveness probe.

use fuckrun::daemon::DaemonManager;
use fuckrun::fs::FsManager;
use fuckrun::process::manager::ProcessManager as DaemonCapableManager;
use fuckrun::process::ProcessManager;
use fuckrun::protocol::record_running;
use fuckrun::service::{ServiceConfig, ServiceManager};
use fuckrun::state::ProcessState;
use fuckrun::types::{FsConfig, ProcessConfig};
use fuckrun::workspace::Workspace;

#[test]
fn plain_manager_holds_its_config() {
    let ws = Workspace::new("/srv/project");
    let manager = ProcessManager::new(&ws, "web".to_string());
    assert_eq!(manager.get_config().init_wait_secs, 5);
    let mut tuned = ProcessConfig::default();
    tuned.init_wait_secs = 9;
    let manager = ProcessManager::with_config(&ws, "web".to_string(), tuned);
    assert_eq!(manager.get_config().init_wait_secs, 9);
}

#[test]
fn daemon_capable_manager_switches() {
    let ws = Workspace::new("/srv/project");
    let mut manager = DaemonCapableManager::new(&ws, "web".to_string());
    assert!(!manager.daemon_mode);
    assert!(!manager.auto_restart);
    manager.set_daemon_mode(true);
    manager.set_auto_restart(true);
    assert!(manager.daemon_mode);
    assert!(manager.auto_restart);
    assert_eq!(manager.process_name, "web");
    let engine_cfg = manager.engine_config(3, true);
    assert!(engine_cfg.auto_restart);
    assert_eq!(engine_cfg.max_restarts, 3);
    assert!(engine_cfg.has_health_check);
    assert_eq!(engine_cfg.health_check_retries, 10);
}

#[test]
fn daemon_manager_keeps_spawn_context() {
    let daemon = DaemonManager::new(
        "web".to_string(),
        "/usr/bin/python".to_string(),
        "/srv/web".to_string(),
        vec!["app.py".to_string()],
        vec![("RUST_LOG".to_string(), "info".to_string())],
        true,
    );
    let (executable, args, working_dir, env) = daemon.spawn_context();
    assert_eq!(executable, "/usr/bin/python");
    assert_eq!(args, &vec!["app.py".to_string()]);
    assert_eq!(working_dir, "/srv/web");
    assert_eq!(env, &vec![("RUST_LOG".to_string(), "info".to_string())]);
}

#[test]
fn service_manager_starts_without_daemon() {
    let config = ServiceConfig::default();
    assert_eq!(config.working_dir, ".");
    assert!(config.auto_restart);
    let manager = ServiceManager::new(config);
    assert_eq!(manager.get_config().name, "");
}

#[test]
fn fs_manager_holds_retry_policy() {
    let manager = FsManager::new(FsConfig::default());
    assert_eq!(manager.get_config().max_retries, 3);
    assert_eq!(manager.get_config().retry_delay_ms, 100);
}

#[test]
fn liveness_probe_follows_the_record() {
    let mut rec = ProcessState::new("x".to_string(), vec![], ".".to_string(), 0);
    assert!(!record_running(&rec));
    // this test process itself is certainly alive
    rec.pid = Some(nix::unistd::getpid().as_raw());
    assert!(record_running(&rec));
    // a pid far beyond any default pid-max is certainly not
    rec.pid = Some(i32::MAX);
    assert!(!record_running(&rec));
}
