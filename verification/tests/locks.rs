//! File-lock scan parsing and priority classification.

use fuckrun::fs::{classify_priority, locking_processes_from_listing, split_fields};
use fuckrun::strutil::{split_lines, str_eq_ignore_ascii_case};
use fuckrun::types::ProcessPriority;

#[test]
fn names_classify_into_priorities() {
    assert_eq!(classify_priority("python3.11"), ProcessPriority::Application);
    assert_eq!(classify_priority("git-lfs"), ProcessPriority::Application);
    assert_eq!(classify_priority("explorer"), ProcessPriority::System);
    assert_eq!(classify_priority("EXPLORER"), ProcessPriority::System);
    assert_eq!(classify_priority("System"), ProcessPriority::System);
    assert_eq!(classify_priority("vim"), ProcessPriority::Temporary);
}

#[test]
fn case_insensitive_equality() {
    assert!(str_eq_ignore_ascii_case("Explorer", "eXPLORER"));
    assert!(!str_eq_ignore_ascii_case("explorer", "explorers"));
    assert!(str_eq_ignore_ascii_case("", ""));
}

#[test]
fn lines_and_fields_split() {
    assert_eq!(split_lines("a\nb\nc"), vec!["a", "b", "c"]);
    assert_eq!(split_lines("a\n"), vec!["a", ""]);
    assert_eq!(split_lines(""), vec![""]);
    assert_eq!(split_fields("a  b   c"), vec!["a", "b", "c"]);
    assert_eq!(split_fields("  lead"), vec!["lead"]);
    assert_eq!(split_fields(""), Vec::<String>::new());
}

#[test]
fn lock_scan_is_parsed() {
    let listing = "COMMAND  PID USER\npython3  821 root\ngit      77 me\nbroken\nvim abc\n";
    let procs = locking_processes_from_listing(listing);
    assert_eq!(procs.len(), 2);
    assert_eq!(procs[0].name, "python3");
    assert_eq!(procs[0].pid, 821);
    assert_eq!(procs[0].priority, ProcessPriority::Application);
    assert_eq!(procs[1].name, "git");
    assert_eq!(procs[1].pid, 77);
    assert_eq!(procs[1].priority, ProcessPriority::Application);
}
