use portsage::filter::{apply_filter, filter_processes_by_name, occurs_in_any_field};
use portsage::process::ProcessInfo;

fn mock_process(pid: i32, name: &str, cmd: &[&str]) -> ProcessInfo {
    ProcessInfo {
        pid,
        name: name.to_string(),
        cmd: cmd.iter().map(|s| s.to_string()).collect(),
        exe: "/usr/bin/dummy".into(),
        status: "Running".into(),
        cpu_usage_centi: 0,
        memory: 1024,
        virtual_memory: 2048,
        parent_pid: Some(1),
        start_time: 0,
        cwd: "/tmp".into(),
        ports: vec![],
    }
}

fn sample() -> Vec<ProcessInfo> {
    vec![
        mock_process(1, "uvicorn", &["uvicorn", "main:app"]),
        mock_process(2, "node", &["node", "index.js"]),
        mock_process(3, "python3", &["python3", "server.py"]),
    ]
}

fn pids(list: &[ProcessInfo]) -> Vec<i32> {
    list.iter().map(|p| p.pid).collect()
}

#[test]
fn test_filter_by_name() {
    let processes = sample();

    let filtered = filter_processes_by_name(&processes, "uvicorn");
    assert_eq!(filtered.len(), 1);
    assert_eq!(filtered[0].pid, 1);

    let filtered2 = filter_processes_by_name(&processes, "python");
    assert_eq!(filtered2.len(), 1);
    assert_eq!(filtered2[0].pid, 3);

    let filtered3 = filter_processes_by_name(&processes, "notfound");
    assert_eq!(filtered3.len(), 0);
}

#[test]
fn apply_filter_three_records() {
    let processes = sample();
    assert_eq!(pids(&apply_filter(&processes, "uvicorn")), vec![1]);
    assert_eq!(pids(&apply_filter(&processes, "python")), vec![3]);
    assert!(apply_filter(&processes, "zzz").is_empty());
}

#[test]
fn apply_filter_folds_case_and_matches_pid_and_arguments() {
    let processes = sample();
    assert_eq!(pids(&apply_filter(&processes, "UVICORN")), vec![1]);
    assert_eq!(pids(&apply_filter(&processes, "INDEX.JS")), vec![2]);
    assert_eq!(pids(&apply_filter(&processes, "2")), vec![2]);
    let upper = vec![mock_process(42, "Xorg", &["/usr/lib/Xorg"])];
    assert_eq!(pids(&apply_filter(&upper, "xorg")), vec![42]);
    assert_eq!(pids(&apply_filter(&upper, "42")), vec![42]);
}

#[test]
fn filter_by_name_also_matches_pid() {
    let processes = sample();
    let hits = filter_processes_by_name(&processes, "2");
    assert_eq!(hits.len(), 1);
    assert_eq!(hits[0].pid, 2);
    assert_eq!(filter_processes_by_name(&processes, "SERVER")[0].pid, 3);
    let bare = vec![mock_process(1, "", &[])];
    assert_eq!(filter_processes_by_name(&bare, "1").len(), 1);
}

#[test]
fn empty_query_keeps_every_record_in_order() {
    let processes = sample();
    assert_eq!(pids(&apply_filter(&processes, "")), vec![1, 2, 3]);
    assert_eq!(filter_processes_by_name(&processes, "").len(), 3);
    assert!(apply_filter(&[], "x").is_empty());
}

#[test]
fn filtering_twice_changes_nothing() {
    let processes = sample();
    for q in ["o", "py", "1", "", "zzz", "N"] {
        let once = apply_filter(&processes, q);
        let twice = apply_filter(&once, q);
        assert_eq!(pids(&once), pids(&twice));
    }
}

#[test]
fn filtered_records_are_copied_whole() {
    let processes = sample();
    let out = apply_filter(&processes, "node");
    assert_eq!(out[0].name, "node");
    assert_eq!(out[0].cmd, vec!["node".to_string(), "index.js".to_string()]);
    assert_eq!(out[0].exe, "/usr/bin/dummy");
    assert_eq!(out[0].parent_pid, Some(1));
    assert_eq!(out[0].virtual_memory, 2048);
}

#[test]
fn occurs_in_any_field_on_given_values() {
    let fields = vec!["uvicorn".to_string(), "main:app".to_string()];
    assert!(occurs_in_any_field(&fields, "n:a"));
    assert!(occurs_in_any_field(&fields, ""));
    assert!(!occurs_in_any_field(&fields, "APP"));
    assert!(!occurs_in_any_field(&vec![], ""));
}
