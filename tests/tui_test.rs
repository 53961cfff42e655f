use portsage::bindings::{KeyBindings, KeyCode, KeyPress, CONTROL};
use portsage::process::ProcessInfo;
use portsage::state::{notice_is_fresh, Action, ClipboardMessage, Mode};
use portsage::tui::UiState;
use portsage::viewport::Viewport;

fn record(pid: i32, name: &str) -> ProcessInfo {
    ProcessInfo {
        pid,
        name: name.to_string(),
        cmd: vec![name.to_string()],
        exe: String::new(),
        status: "Run".into(),
        cpu_usage_centi: 0,
        memory: 0,
        virtual_memory: 0,
        parent_pid: None,
        start_time: 0,
        cwd: String::new(),
        ports: vec![],
    }
}

fn key(c: char) -> KeyPress {
    KeyPress::new(KeyCode::Char(c), 0)
}

fn plain(code: KeyCode) -> KeyPress {
    KeyPress::new(code, 0)
}

fn rows(n: i32) -> Vec<ProcessInfo> {
    (1..=n).map(|i| record(i, &format!("proc{i}"))).collect()
}

#[test]
fn move_down_scrolls_by_one_row() {
    let mut v = Viewport { selected_index: 19, offset: 0 };
    v.move_down(25, 20);
    assert_eq!(v, Viewport { selected_index: 20, offset: 1 });
}

#[test]
fn moves_stop_at_both_ends() {
    let mut v = Viewport::new();
    v.move_up(3, 2);
    assert_eq!(v, Viewport { selected_index: 0, offset: 0 });
    for _ in 0..10 {
        v.move_down(3, 2);
    }
    assert_eq!(v, Viewport { selected_index: 2, offset: 1 });
    v.move_up(3, 2);
    assert_eq!(v, Viewport { selected_index: 1, offset: 1 });
    v.move_up(3, 2);
    assert_eq!(v, Viewport { selected_index: 0, offset: 0 });
}

#[test]
fn any_run_of_moves_keeps_selection_on_screen() {
    let (len, page) = (30usize, 7usize);
    let mut v = Viewport::new();
    let pattern = [true, true, false, true, true, true, true, true, true, true, false, false];
    for step in 0..200 {
        if pattern[step % pattern.len()] {
            v.move_down(len, page);
        } else {
            v.move_up(len, page);
        }
        assert!(v.selected_index < len);
        assert!(v.offset <= v.selected_index && v.selected_index < v.offset + page);
    }
}

#[test]
fn clamp_to_shorter_list() {
    let mut v = Viewport { selected_index: 24, offset: 5 };
    v.clamp_to_list(10, 20);
    assert_eq!(v, Viewport { selected_index: 9, offset: 0 });
    let mut v = Viewport { selected_index: 24, offset: 20 };
    v.clamp_to_list(22, 5);
    assert_eq!(v, Viewport { selected_index: 21, offset: 17 });
    let mut v = Viewport { selected_index: 4, offset: 3 };
    v.clamp_to_list(0, 5);
    assert_eq!(v, Viewport { selected_index: 0, offset: 0 });
    let mut v = Viewport { selected_index: 9, offset: 0 };
    v.clamp_to_list(20, 5);
    assert_eq!(v, Viewport { selected_index: 0, offset: 0 });
    let mut v = Viewport { selected_index: 3, offset: 2 };
    v.reset_to_top();
    assert_eq!(v, Viewport { selected_index: 0, offset: 0 });
}

#[test]
fn kill_then_cancel() {
    let b = KeyBindings::default();
    let mut s = UiState::new(vec![record(42, "victim")], 10);
    assert_eq!(s.handle_key(key('x'), &b), Action::Nothing);
    assert_eq!(s.mode, Mode::ConfirmKill);
    assert_eq!(s.pending_kill, Some(42));
    assert_eq!(s.handle_key(plain(KeyCode::Esc), &b), Action::Nothing);
    assert_eq!(s.mode, Mode::Normal);
    assert_eq!(s.pending_kill, None);
}

#[test]
fn kill_then_confirm() {
    let b = KeyBindings::default();
    let mut s = UiState::new(vec![record(42, "victim")], 10);
    s.handle_key(key('x'), &b);
    assert_eq!(s.handle_key(key('q'), &b), Action::Nothing);
    assert_eq!(s.mode, Mode::ConfirmKill);
    assert_eq!(s.handle_key(key('y'), &b), Action::Kill(42));
    assert_eq!(s.mode, Mode::Normal);
    assert_eq!(s.pending_kill, None);
}

#[test]
fn kill_and_copy_on_empty_list_do_nothing() {
    let b = KeyBindings::default();
    let mut s = UiState::new(vec![], 10);
    assert_eq!(s.handle_key(key('x'), &b), Action::Nothing);
    assert_eq!(s.mode, Mode::Normal);
    assert_eq!(s.handle_key(plain(KeyCode::Enter), &b), Action::Nothing);
    assert!(s.selected().is_none());
}

#[test]
fn normal_mode_keys() {
    let b = KeyBindings::default();
    let mut s = UiState::new(rows(5), 3);
    assert_eq!(s.handle_key(key('j'), &b), Action::Nothing);
    assert_eq!(s.handle_key(plain(KeyCode::Down), &b), Action::Nothing);
    assert_eq!(s.handle_key(KeyPress::new(KeyCode::Char('n'), CONTROL), &b), Action::Nothing);
    assert_eq!(s.view, Viewport { selected_index: 3, offset: 1 });
    assert_eq!(s.visible_range(), (1, 4));
    assert_eq!(s.handle_key(plain(KeyCode::Enter), &b), Action::CopyPid(4));
    s.handle_key(key('k'), &b);
    assert_eq!(s.selected().map(|p| p.pid), Some(3));
    s.handle_key(plain(KeyCode::Tab), &b);
    assert_eq!(s.mode, Mode::Detail);
    s.handle_key(key('j'), &b);
    assert_eq!(s.view.selected_index, 2);
    s.handle_key(key('q'), &b);
    assert_eq!(s.mode, Mode::Normal);
    assert_eq!(s.handle_key(key('z'), &b), Action::Nothing);
    assert_eq!(s.handle_key(key('q'), &b), Action::Quit);
}

#[test]
fn typing_a_query_filters_and_resets_selection() {
    let b = KeyBindings::default();
    let mut list = rows(3);
    list.push(record(40, "nginx"));
    let mut s = UiState::new(list, 10);
    s.handle_key(key('j'), &b);
    s.handle_key(key(':'), &b);
    assert_eq!(s.mode, Mode::FilterInput);
    assert_eq!(s.filter_input, "");
    assert_eq!(s.view, Viewport { selected_index: 0, offset: 0 });
    s.handle_key(key('N'), &b);
    s.handle_key(key('g'), &b);
    assert_eq!(s.filter_input, "Ng");
    assert_eq!(s.filtered.iter().map(|p| p.pid).collect::<Vec<_>>(), vec![40]);
    s.handle_key(plain(KeyCode::Backspace), &b);
    assert_eq!(s.filter_input, "N");
    assert_eq!(s.filtered.len(), 1);
    s.handle_key(plain(KeyCode::Backspace), &b);
    s.handle_key(plain(KeyCode::Backspace), &b);
    assert_eq!(s.filter_input, "");
    assert_eq!(s.filtered.len(), 4);
    s.handle_key(key('z'), &b);
    assert_eq!(s.mode, Mode::FilterInput);
    assert!(s.filtered.is_empty());
    assert_eq!(s.handle_key(plain(KeyCode::Enter), &b), Action::Nothing);
    assert_eq!(s.mode, Mode::Normal);
    assert_eq!(s.filter_input, "z");
}

#[test]
fn new_snapshot_shorter_than_selection() {
    let b = KeyBindings::default();
    let mut s = UiState::new(rows(8), 3);
    for _ in 0..7 {
        s.handle_key(key('j'), &b);
    }
    assert_eq!(s.view, Viewport { selected_index: 7, offset: 5 });
    s.replace_snapshot(rows(2));
    assert_eq!(s.view, Viewport { selected_index: 1, offset: 0 });
    assert_eq!(s.filtered.len(), 2);
    s.replace_snapshot(vec![]);
    assert_eq!(s.view, Viewport { selected_index: 0, offset: 0 });
    assert!(s.selected().is_none());
}

#[test]
fn page_size_change_keeps_window_valid() {
    let b = KeyBindings::default();
    let mut s = UiState::new(rows(10), 8);
    for _ in 0..6 {
        s.handle_key(key('j'), &b);
    }
    s.set_page_size(2);
    assert_eq!(s.page_size, 2);
    assert!(s.view.offset <= s.view.selected_index);
    assert!(s.view.selected_index < s.view.offset + 2);
    assert_eq!(s.visible_range().1 - s.visible_range().0, 2);
}

#[test]
fn notification_lifetime() {
    let t = 5_000u64;
    let mut m = ClipboardMessage::default();
    m.set("done".to_string(), t);
    assert_eq!(m.visible_text(t).as_deref(), Some("done"));
    assert_eq!(m.visible_text(t + 1_999).as_deref(), Some("done"));
    assert_eq!(m.visible_text(t + 2_000), None);
    assert_eq!(m.visible_text(t - 10).as_deref(), Some("done"));
    m.expire(t + 1_000);
    assert!(m.message.is_some());
    m.expire(t + 2_000);
    assert!(m.message.is_none());
    assert!(notice_is_fresh(u64::MAX, 0));
    assert!(!notice_is_fresh(0, u64::MAX));
}

#[test]
fn copy_and_kill_outcomes_become_notifications() {
    let mut s = UiState::new(vec![record(7, "a")], 4);
    s.finish_copy(false, 10);
    assert!(s.notice.message.is_none());
    s.finish_copy(true, 10);
    assert_eq!(s.notice.visible_text(11).as_deref(), Some("✔ Copied PID to clipboard"));
    s.finish_kill(42, Ok(()), 20);
    assert_eq!(s.notice.visible_text(20).as_deref(), Some("Killed PID 42"));
    s.finish_kill(-3, Err("Operation not permitted".to_string()), 30);
    assert_eq!(
        s.notice.visible_text(30).as_deref(),
        Some("Kill failed: Operation not permitted")
    );
    assert_eq!(s.notice.visible_text(2_030), None);
    assert_eq!(s.mode, Mode::Normal);
}

#[test]
fn default_bindings() {
    let b = KeyBindings::default();
    assert!(b.is_up(&plain(KeyCode::Up)));
    assert!(b.is_up(&key('k')));
    assert!(b.is_up(&KeyPress::new(KeyCode::Char('p'), CONTROL)));
    assert!(!b.is_up(&key('p')));
    assert!(b.is_down(&KeyPress::new(KeyCode::Char('n'), CONTROL)));
    assert!(b.is_quit(&plain(KeyCode::Esc)));
    assert!(b.is_detail(&plain(KeyCode::Tab)));
    assert!(b.is_filter(&key(':')));
    assert!(b.is_copy(&plain(KeyCode::Enter)));
    assert!(b.is_kill(&key('x')));
    assert!(b.is_confirm(&key('y')));
    assert!(b.is_cancel(&key('n')));
    assert!(!b.is_kill(&KeyPress::new(KeyCode::Char('x'), CONTROL)));
}
