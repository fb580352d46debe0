//! The persisted record, the status decision, and the shutdown plan.

use fuckrun::protocol::{status_decision, status_line, StatusKind};
use fuckrun::shutdown::{
    classify_stop_probe, finish_stop, force_kill_all, parse_pid_lines, port_cleanup_targets,
    stop_targets, StopRequest,
};
use fuckrun::state::ProcessState;

fn record_with(pid: Option<i32>, monitor_pid: Option<i32>) -> ProcessState {
    let mut r = ProcessState::new(
        "python".to_string(),
        vec!["app.py".to_string()],
        "/srv/web".to_string(),
        8080,
    );
    r.pid = pid;
    r.monitor_pid = monitor_pid;
    r
}

#[test]
fn new_record_is_stopped() {
    let r = ProcessState::new("python".to_string(), vec![], "/srv".to_string(), 7000);
    assert_eq!(r.pid, None);
    assert_eq!(r.monitor_pid, None);
    assert_eq!(r.restart_count, 0);
    assert_eq!(r.port, 7000);
}

#[test]
fn stopped_record_keeps_context_and_counters() {
    let mut r = record_with(Some(41), Some(42));
    r.restart_count = 7;
    r.update_stopped_state();
    assert_eq!(r.pid, None);
    assert_eq!(r.monitor_pid, None);
    assert_eq!(r.restart_count, 7);
    assert_eq!(r.program, "python");
    assert_eq!(r.working_dir, "/srv/web");
}

#[test]
fn spawn_updates_record() {
    let mut r = record_with(None, Some(99));
    let args = vec!["serve".to_string()];
    let url = Some("http://127.0.0.1:8080/h".to_string());
    r.apply_spawn(1234, &"python3".to_string(), &args, &"/srv".to_string(), 8080, &url, 1700, false);
    assert_eq!(r.pid, Some(1234));
    assert_eq!(r.monitor_pid, Some(99));
    assert_eq!(r.restart_count, 0);
    assert_eq!(r.last_start_epoch_ms, 1700);
    r.apply_spawn(1240, &"python3".to_string(), &args, &"/srv".to_string(), 8080, &url, 1900, true);
    assert_eq!(r.restart_count, 1);
    assert_eq!(r.pid, Some(1240));
    assert_eq!(r.monitor_pid, Some(99));
}

#[test]
fn monitor_pid_is_recorded_separately() {
    let mut r = record_with(Some(10), None);
    r.set_monitor(11);
    assert_eq!(r.pid, Some(10));
    assert_eq!(r.monitor_pid, Some(11));
}

#[test]
fn status_requires_live_pid() {
    assert!(!status_decision(&None, true, None));
    let stopped = record_with(None, None);
    assert!(!status_decision(&Some(stopped), true, None));
    let running = record_with(Some(77), None);
    assert!(status_decision(&Some(running), true, None));
    let stale = record_with(Some(77), None);
    assert!(!status_decision(&Some(stale), false, None));
}

#[test]
fn status_consults_health_probe() {
    let running = record_with(Some(77), None);
    assert!(status_decision(&Some(running), true, Some(true)));
    let running = record_with(Some(77), None);
    assert!(!status_decision(&Some(running), true, Some(false)));
}

#[test]
fn stop_addresses_user_process_before_monitor() {
    let r = record_with(Some(10), Some(11));
    assert_eq!(stop_targets(&r), vec![10, 11]);
    let r = record_with(None, Some(11));
    assert_eq!(stop_targets(&r), vec![11]);
    let r = record_with(Some(10), None);
    assert_eq!(stop_targets(&r), vec![10]);
    let r = record_with(None, None);
    assert_eq!(stop_targets(&r), Vec::<i32>::new());
}

#[test]
fn port_reclaim_skips_handled_pids() {
    let on_port = vec![10, 11, 500, 501];
    let handled = vec![10, 11];
    assert_eq!(port_cleanup_targets(&on_port, &handled), vec![500, 501]);
    assert_eq!(port_cleanup_targets(&Vec::new(), &handled), Vec::<i32>::new());
    assert_eq!(port_cleanup_targets(&vec![10], &handled), Vec::<i32>::new());
}

#[test]
fn force_kill_reports_addressed_pids() {
    // pids far beyond any default pid-max certainly do not exist;
    // force_kill_all still reports which ones the reclamation addressed
    let on_port = vec![i32::MAX, i32::MAX - 1];
    let handled = vec![i32::MAX - 1];
    assert_eq!(force_kill_all(&on_port, &handled), vec![i32::MAX]);
}

#[test]
fn stop_step_classification() {
    assert_eq!(classify_stop_probe(false, false), StopRequest::AlreadyDead);
    assert_eq!(classify_stop_probe(false, true), StopRequest::AlreadyDead);
    assert_eq!(classify_stop_probe(true, true), StopRequest::Requested);
    assert_eq!(classify_stop_probe(true, false), StopRequest::RequestFailed);
}

#[test]
fn escalation_follows_the_grace_probe() {
    // a pid far beyond any default pid-max certainly does not exist,
    // so the forceful signal sent on the escalating branch is harmless
    assert!(finish_stop(i32::MAX, true));
    assert!(!finish_stop(i32::MAX, false));
}

#[test]
fn port_scan_output_is_parsed_per_line() {
    assert_eq!(parse_pid_lines("123\n456\n"), vec![123, 456]);
    assert_eq!(parse_pid_lines("123"), vec![123]);
    assert_eq!(parse_pid_lines(""), Vec::<i32>::new());
    assert_eq!(parse_pid_lines("abc\n12x\n77\n"), vec![77]);
    assert_eq!(parse_pid_lines("99999999999999999999\n5\n"), vec![5]);
}

#[test]
fn status_lines_are_stable() {
    assert_eq!(status_line(StatusKind::Starting, "web", 0), "STATUS:STARTING:web");
    assert_eq!(status_line(StatusKind::Started, "web", 4242), "STATUS:STARTED:web:4242");
    assert_eq!(status_line(StatusKind::Stopping, "web", 0), "STATUS:STOPPING:web");
    assert_eq!(status_line(StatusKind::Stopped, "web", 0), "STATUS:STOPPED:web");
    assert_eq!(status_line(StatusKind::Running, "api", 7), "STATUS:RUNNING:api:7");
}
