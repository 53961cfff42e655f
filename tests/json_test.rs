use portsage::json::{json_quoted, rows_to_json};
use portsage::process::DisplayProcessInfo;

#[test]
fn quoting_escapes_quotes_backslashes_and_control_characters() {
    assert_eq!(json_quoted("plain"), "\"plain\"");
    assert_eq!(json_quoted(""), "\"\"");
    assert_eq!(json_quoted("a\"b\\c"), "\"a\\\"b\\\\c\"");
    assert_eq!(json_quoted("\u{1b}[0m\n"), "\"\\u001b[0m\\u000a\"");
    assert_eq!(json_quoted("✔ é"), "\"✔ é\"");
}

#[test]
fn rows_as_json_array() {
    assert_eq!(rows_to_json(&vec![]), "[]");
    let rows = vec![
        DisplayProcessInfo { pid: 1, name: "a".into(), ports: "80, 443".into(), command: "a -x".into() },
        DisplayProcessInfo { pid: -2, name: "b".into(), ports: String::new(), command: String::new() },
    ];
    assert_eq!(
        rows_to_json(&rows),
        "[{\"pid\":1,\"name\":\"a\",\"ports\":\"80, 443\",\"command\":\"a -x\"},{\"pid\":-2,\"name\":\"b\",\"ports\":\"\",\"command\":\"\"}]"
    );
}
