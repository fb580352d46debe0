//! The workspace layout, the log sink layout, and configuration file
//! discovery.

use fuckrun::config::Config;
use fuckrun::logger::Logger;
use fuckrun::workspace::{segment_is_safe, Workspace};

#[test]
fn workspace_layout() {
    let ws = Workspace::new("/srv/project");
    assert_eq!(ws.get_root_dir(), "/srv/project");
    assert_eq!(ws.get_app_dir(), "/srv/project/deployments");
    assert_eq!(ws.get_fuckrun_dir(), "/srv/project/.fuckrun");
    assert_eq!(ws.get_processes_dir(), "/srv/project/.fuckrun/processes");
    assert_eq!(ws.get_process_dir("web"), "/srv/project/.fuckrun/processes/web");
    assert_eq!(
        ws.get_process_state_file("web"),
        "/srv/project/.fuckrun/processes/web/state.json"
    );
    assert_eq!(
        ws.get_process_log_dir("web"),
        "/srv/project/.fuckrun/processes/web/logs"
    );
    assert_eq!(
        ws.get_process_app_dir("web"),
        "/srv/project/deployments/web/app"
    );
}

#[test]
fn app_dir_override() {
    let mut ws = Workspace::new("/srv/project");
    ws.set_app_dir("apps");
    assert_eq!(ws.get_app_dir(), "/srv/project/apps");
    ws.set_app_dir("/opt/apps");
    assert_eq!(ws.get_app_dir(), "/opt/apps");
}

#[test]
fn workspace_validation() {
    let ws = Workspace::new("/srv/project");
    assert!(ws.validate(true, true, true).is_ok());
    assert!(ws.validate(false, true, true).is_err());
    assert!(ws.validate(true, false, true).is_err());
    assert!(ws.validate(true, true, false).is_err());
}

#[test]
fn safe_path_segments() {
    assert!(segment_is_safe("web"));
    assert!(segment_is_safe("web-1_2.3"));
    assert!(!segment_is_safe(""));
    assert!(!segment_is_safe("a/b"));
    assert!(!segment_is_safe("a\\b"));
    assert!(!segment_is_safe("."));
    assert!(!segment_is_safe(".."));
}

#[test]
fn log_sink_layout() {
    let ws = Workspace::new("/srv/project");
    let logger = Logger::new(ws);
    assert_eq!(
        logger.get_process_log_root("web"),
        "/srv/project/.fuckrun/processes/web/logs"
    );
    assert_eq!(
        logger.get_process_log_dir("web", "2024-05-01"),
        "/srv/project/.fuckrun/processes/web/logs/2024-05-01"
    );
    assert_eq!(
        logger.stdout_log_path("web", "2024-05-01"),
        "/srv/project/.fuckrun/processes/web/logs/2024-05-01/stdout.log"
    );
    assert_eq!(
        logger.stderr_log_path("web", "2024-05-01"),
        "/srv/project/.fuckrun/processes/web/logs/2024-05-01/stderr.log"
    );
    assert_eq!(
        logger.get_main_log_dir("2024-05-01"),
        "/srv/project/.fuckrun/logs/2024-05-01"
    );
}

#[test]
fn config_file_discovery() {
    let ws = Workspace::new("/srv/project");
    assert_eq!(
        Config::find_config_file(Some("web"), &ws, true, true),
        "/srv/project/deployments/web/config.yaml"
    );
    assert_eq!(
        Config::find_config_file(Some("web"), &ws, false, true),
        "/srv/project/.fuckrun/processes/web/config.yaml"
    );
    assert_eq!(
        Config::find_config_file(Some("web"), &ws, false, false),
        "/srv/project/config.yaml"
    );
    assert_eq!(
        Config::find_config_file(None, &ws, true, true),
        "/srv/project/config.yaml"
    );
    let cfg = Config::default();
    assert_eq!(
        cfg.get_config_path(Some("web"), &ws, false, false),
        Ok("/srv/project/config.yaml".to_string())
    );
}
