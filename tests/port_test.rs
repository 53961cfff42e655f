use std::collections::HashMap;

use portsage::port::{parse_lsof_output, ports_for_pid, select_by_port};
use portsage::process::ProcessInfo;

#[test]
fn test_parse_lsof_output() {
    let mock_output = r#"
COMMAND     PID USER   FD   TYPE             DEVICE SIZE/OFF NODE NAME
uvicorn    1234 user   10u  IPv4 0x12345678      0t0  TCP *:8000 (LISTEN)
node       5678 user   20u  IPv4 0x23456789      0t0  TCP *:3000 (LISTEN)
docker-pr  9012 user   22u  IPv6 0x34567890      0t0  TCP *:5432 (LISTEN)
"#;

    let map = parse_lsof_output(mock_output);

    assert_eq!(map.get(&8000), Some(&1234));
    assert_eq!(map.get(&3000), Some(&5678));
    assert_eq!(map.get(&5432), Some(&9012));
    assert_eq!(map.get(&9999), None);
}

#[test]
fn lsof_header_line_is_skipped_and_short_lines_ignored() {
    let out = "a 1 u 1 I 0 0 TCP *:1\nshort line\nb\t2 u 1 I 0 0 TCP [::1]:22\r\nc x u 1 I 0 0 TCP *:70000\nd x u 1 I 0 0 TCP 127.0.0.1:53";
    let map = parse_lsof_output(out);
    assert_eq!(map.get(&1), None);
    assert_eq!(map.get(&22), Some(&2));
    assert_eq!(map.get(&53), Some(&0));
    assert_eq!(map.len(), 2);
}

#[test]
fn lsof_later_line_wins_and_empty_input() {
    let out = "HEADER\na 1 u 1 I 0 0 TCP *:80\nb 2 u 1 I 0 0 TCP *:80\n";
    let map = parse_lsof_output(out);
    assert_eq!(map.get(&80), Some(&2));
    assert_eq!(map.len(), 1);
    assert!(parse_lsof_output("").is_empty());
}

fn record(pid: i32) -> ProcessInfo {
    ProcessInfo {
        pid,
        name: format!("p{pid}"),
        cmd: vec![],
        exe: String::new(),
        status: "Run".into(),
        cpu_usage_centi: 0,
        memory: 0,
        virtual_memory: 0,
        parent_pid: None,
        start_time: 0,
        cwd: String::new(),
        ports: vec![],
    }
}

#[test]
fn ports_for_pid_collects_each_port_once() {
    let mut m: HashMap<u16, u32> = HashMap::new();
    m.insert(80, 7);
    m.insert(443, 7);
    m.insert(22, 9);
    let mut ports = ports_for_pid(&m, 7);
    ports.sort();
    assert_eq!(ports, vec![80, 443]);
    assert!(ports_for_pid(&m, 1).is_empty());
}

#[test]
fn select_by_port_keeps_the_holder() {
    let mut m: HashMap<u16, u32> = HashMap::new();
    m.insert(8080, 2);
    let list = vec![record(1), record(2), record(3), record(2)];
    let held = select_by_port(&list, &m, 8080);
    assert_eq!(held.iter().map(|p| p.pid).collect::<Vec<_>>(), vec![2, 2]);
    assert!(select_by_port(&list, &m, 9090).is_empty());
}
