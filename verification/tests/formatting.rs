//! String helpers: uptime rendering, elapsed-time parsing, filters, and
//! the monitor argv serialisation.

use fuckrun::listing::{format_uptime, parse_ps_etime, passes_bounds};
use fuckrun::monitor::{fix_script_args, monitor_invocation_args, parse_env_pairs};
use fuckrun::strutil::{parse_u64, path_join, str_contains, str_ends_with, str_eq, u64_to_string};

#[test]
fn uptime_rendering() {
    assert_eq!(format_uptime(0), "0m");
    assert_eq!(format_uptime(59), "0m");
    assert_eq!(format_uptime(60), "1m");
    assert_eq!(format_uptime(3599), "59m");
    assert_eq!(format_uptime(3600), "1h 0m");
    assert_eq!(format_uptime(3700), "1h 1m");
    assert_eq!(format_uptime(5 * 3600 + 2 * 60), "5h 2m");
    assert_eq!(format_uptime(86400), "1d 0h");
    assert_eq!(format_uptime(90061), "1d 1h");
    assert_eq!(format_uptime(3 * 86400 + 7 * 3600 + 30), "3d 7h");
}

#[test]
fn etime_parsing() {
    assert_eq!(parse_ps_etime("45"), 45);
    assert_eq!(parse_ps_etime("2:05"), 125);
    assert_eq!(parse_ps_etime("1:02:03"), 3723);
    assert_eq!(parse_ps_etime("00:00"), 0);
    assert_eq!(parse_ps_etime(""), 0);
    assert_eq!(parse_ps_etime("junk"), 0);
    assert_eq!(parse_ps_etime("1:2:3:4"), 0);
    assert_eq!(parse_ps_etime("junk:10"), 10);
}

#[test]
fn decimal_round_trip() {
    assert_eq!(u64_to_string(0), "0");
    assert_eq!(u64_to_string(7), "7");
    assert_eq!(u64_to_string(1234567890), "1234567890");
    assert_eq!(parse_u64("1234567890"), Some(1234567890));
    assert_eq!(parse_u64(""), None);
    assert_eq!(parse_u64("12a"), None);
    assert_eq!(parse_u64("18446744073709551615"), Some(u64::MAX));
    assert_eq!(parse_u64("18446744073709551616"), None);
}

#[test]
fn string_helpers() {
    assert!(str_eq("abc", "abc"));
    assert!(!str_eq("abc", "abd"));
    assert!(str_contains("hello-world", "lo-w"));
    assert!(!str_contains("hello", "world"));
    assert!(str_contains("x", ""));
    assert!(str_ends_with("app.py", ".py"));
    assert!(!str_ends_with("app.txt", ".py"));
    assert_eq!(path_join("/a/b", "c"), "/a/b/c");
}

#[test]
fn listing_bounds() {
    assert!(passes_bounds(50, None, None));
    assert!(passes_bounds(50, Some(10), Some(100)));
    assert!(!passes_bounds(5, Some(10), None));
    assert!(!passes_bounds(500, None, Some(100)));
}

#[test]
fn env_pair_parsing() {
    let pairs = parse_env_pairs(&vec![
        "RUST_LOG=info".to_string(),
        "EMPTY=".to_string(),
        "novalue".to_string(),
        "A=b=c".to_string(),
    ]);
    assert_eq!(
        pairs,
        vec![
            ("RUST_LOG".to_string(), "info".to_string()),
            ("EMPTY".to_string(), "".to_string()),
            ("A".to_string(), "b=c".to_string()),
        ]
    );
}

#[test]
fn script_args_are_resolved() {
    let fixed = fix_script_args(
        &vec!["app.py".to_string(), "--port".to_string(), "sub/x.py".to_string()],
        "/srv/web",
    );
    assert_eq!(
        fixed,
        vec![
            "/srv/web/app.py".to_string(),
            "--port".to_string(),
            "sub/x.py".to_string(),
        ]
    );
}

#[test]
fn monitor_argv_serialises_spawn_context() {
    let argv = monitor_invocation_args(
        "web",
        "python",
        "/srv/web/config.yaml",
        "/srv/web",
        &vec!["app.py".to_string(), "--port".to_string()],
        &vec![("RUST_LOG".to_string(), "info".to_string())],
        true,
    );
    assert_eq!(
        argv,
        vec![
            "monitor".to_string(),
            "--process-name".to_string(),
            "web".to_string(),
            "--program".to_string(),
            "python".to_string(),
            "--config".to_string(),
            "/srv/web/config.yaml".to_string(),
            "--args".to_string(),
            "app.py".to_string(),
            "--args".to_string(),
            "--port".to_string(),
            "--working-dir".to_string(),
            "/srv/web".to_string(),
            "--env".to_string(),
            "RUST_LOG=info".to_string(),
            "--auto-restart".to_string(),
        ]
    );
}

#[test]
fn monitor_argv_without_restart_flag() {
    let argv = monitor_invocation_args(
        "web",
        "python",
        "/c.yaml",
        "/srv",
        &Vec::new(),
        &Vec::new(),
        false,
    );
    assert_eq!(
        argv,
        vec![
            "monitor".to_string(),
            "--process-name".to_string(),
            "web".to_string(),
            "--program".to_string(),
            "python".to_string(),
            "--config".to_string(),
            "/c.yaml".to_string(),
            "--working-dir".to_string(),
            "/srv".to_string(),
        ]
    );
}
