//! Configuration type defaults and validation.

use fuckrun::types::{FsConfig, ProcessConfig, ProcessPriority, StateConfig};

#[test]
fn test_process_priority() {
    let priority = ProcessPriority::System;
    assert_eq!(priority.value(), 1);
    assert!(priority.is_system());
    assert!(!priority.is_application());
    assert!(!priority.is_temporary());
}

#[test]
fn test_state_config() {
    let config = StateConfig::default();
    assert_eq!(config.state_file_path(), ".fuckrun/state.json".to_string());
    assert!(config.validate().is_ok());
}

#[test]
fn test_process_config_validation() {
    let config = ProcessConfig::default();
    assert!(config.validate().is_ok());

    let mut invalid_config = config.clone();
    invalid_config.init_wait_secs = 0;
    assert!(invalid_config.validate().is_err());
}

#[test]
fn test_fs_config_validation() {
    let config = FsConfig::default();
    assert!(config.validate().is_ok());

    let mut invalid_config = config.clone();
    invalid_config.max_retries = 0;
    assert!(invalid_config.validate().is_err());
}

#[test]
fn priority_ranks() {
    assert_eq!(ProcessPriority::Application.value(), 2);
    assert_eq!(ProcessPriority::Temporary.value(), 3);
    assert!(ProcessPriority::Application.is_application());
    assert!(ProcessPriority::Temporary.is_temporary());
}

#[test]
fn process_config_defaults() {
    let config = ProcessConfig::default();
    assert_eq!(config.default_port, 5000);
    assert_eq!(config.init_wait_secs, 5);
    assert_eq!(config.health_check_timeout_secs, 5);
    assert_eq!(config.health_check_retries, 10);
    assert_eq!(config.retry_interval_secs, 2);
    assert_eq!(config.graceful_shutdown_timeout_secs, 3);
    assert_eq!(config.exit_wait_ms, 500);
    assert_eq!(config.default_python_interpreter, "python");
    assert_eq!(config.init_wait(), 5000);
    assert_eq!(config.retry_interval(), 2000);
    assert_eq!(config.graceful_shutdown_timeout(), 3000);
    assert_eq!(config.exit_wait(), 500);
}

#[test]
fn each_zero_field_is_rejected() {
    let mut c = ProcessConfig::default();
    c.health_check_retries = 0;
    assert!(c.validate().is_err());
    let mut c = ProcessConfig::default();
    c.retry_interval_secs = 0;
    assert!(c.validate().is_err());
    let mut c = ProcessConfig::default();
    c.graceful_shutdown_timeout_secs = 0;
    assert!(c.validate().is_err());
    let mut c = ProcessConfig::default();
    c.exit_wait_ms = 0;
    assert!(c.validate().is_err());
    let mut f = FsConfig::default();
    f.retry_delay_ms = 0;
    assert!(f.validate().is_err());
    let mut s = StateConfig::default();
    s.state_filename = String::new();
    assert!(s.validate().is_err());
}
