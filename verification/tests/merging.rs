//! Merging a process entry with the global configuration defaults.

use fuckrun::config::{Config, GlobalConfig, LogConfig, ProcessConfig};

fn sample_config() -> Config {
    let mut global = GlobalConfig::default();
    global.working_dir = Some("/app".to_string());
    global.env = vec![("RUST_LOG".to_string(), "info".to_string())];
    global.log = LogConfig {
        file: Some("app.log".to_string()),
        level: "debug".to_string(),
        max_size: 200,
        max_files: 10,
    };
    let web = ProcessConfig {
        name: "web".to_string(),
        program: "python".to_string(),
        args: vec!["app.py".to_string()],
        working_dir: ".".to_string(),
        env: Vec::new(),
        auto_restart: true,
        start_delay: 0,
        max_restarts: 3,
        depends_on: Vec::new(),
        health_check_url: Some("http://localhost:8000/health".to_string()),
        log: LogConfig::default(),
        process: fuckrun::types::ProcessConfig::default(),
    };
    Config { global, processes: vec![web] }
}

#[test]
fn process_inherits_global_settings() {
    let config = sample_config();
    let merged = config.get_process_config("web").unwrap();
    assert_eq!(merged.working_dir, "/app");
    assert_eq!(merged.log.level, "debug");
    assert_eq!(merged.log.max_size, 200);
    assert_eq!(merged.log.max_files, 10);
    assert_eq!(merged.log.file, Some("app.log".to_string()));
    assert_eq!(merged.env, vec![("RUST_LOG".to_string(), "info".to_string())]);
    assert_eq!(
        merged.health_check_url,
        Some("http://localhost:8000/health".to_string())
    );
    assert!(merged.auto_restart);
    assert_eq!(merged.max_restarts, 3);
}

#[test]
fn own_settings_win_over_global() {
    let mut config = sample_config();
    config.processes[0].working_dir = "/srv/web".to_string();
    config.processes[0].env = vec![("RUST_LOG".to_string(), "warn".to_string())];
    config.processes[0].log.level = "trace".to_string();
    config.processes[0].log.max_size = 50;
    config.processes[0].log.max_files = 2;
    let merged = config.get_process_config("web").unwrap();
    assert_eq!(merged.working_dir, "/srv/web");
    assert_eq!(merged.env, vec![("RUST_LOG".to_string(), "warn".to_string())]);
    assert_eq!(merged.log.level, "trace");
    assert_eq!(merged.log.max_size, 50);
    assert_eq!(merged.log.max_files, 2);
}

#[test]
fn global_env_is_appended_only_when_missing() {
    let mut config = sample_config();
    config.global.env = vec![
        ("A".to_string(), "global".to_string()),
        ("B".to_string(), "global".to_string()),
    ];
    config.processes[0].env = vec![("A".to_string(), "own".to_string())];
    let merged = config.get_process_config("web").unwrap();
    assert_eq!(
        merged.env,
        vec![
            ("A".to_string(), "own".to_string()),
            ("B".to_string(), "global".to_string()),
        ]
    );
}

#[test]
fn unknown_process_has_no_config() {
    let config = sample_config();
    assert!(config.get_process_config("api").is_none());
}
