//! The controller: the state of one interactive session and the mode state
//! machine that interprets key presses. The caller draws, polls for keys,
//! performs the actions asked for, and hands their outcomes back.

use vstd::prelude::*;
use crate::bindings::{KeyBindings, KeyCode, KeyPress};
use crate::filter::{apply_filter, record_matches};
use crate::process::{views, ProcessInfo};
use crate::state::{Action, ClipboardMessage, Mode};
use crate::text::{decimal_text, lower_of, pop_char, push_char, signed_decimal};
use crate::viewport::Viewport;

verus! {

/// The notification after a PID was copied.
pub const COPIED_NOTICE: &'static str = "✔ Copied PID to clipboard";

/// The start of the notification after a process was terminated; the pid follows.
pub const KILLED_NOTICE: &'static str = "Killed PID ";

/// The start of the notification after termination failed; the reason follows.
pub const KILL_FAILED_NOTICE: &'static str = "Kill failed: ";

/// The state of an interactive session.
pub struct UiState {
    pub mode: Mode,
    /// The latest snapshot, in snapshot order.
    pub processes: Vec<ProcessInfo>,
    /// The records of the snapshot that match the query, in snapshot order.
    pub filtered: Vec<ProcessInfo>,
    pub view: Viewport,
    pub filter_input: String,
    pub notice: ClipboardMessage,
    /// The pid captured when asking to confirm a termination.
    pub pending_kill: Option<i32>,
    /// Rows available to the table.
    pub page_size: usize,
}

/// `t` is `s` with the query set to `q` in mode `m`, the list recomputed from
/// the snapshot and the selection back at the top.
pub open spec fn requeried(s: UiState, t: UiState, m: Mode, q: Seq<char>) -> bool {
    &&& t.mode == m
    &&& t.filter_input@ == q
    &&& t.processes == s.processes
    &&& views(t.filtered@) == record_matches(views(s.processes@), lower_of(q))
    &&& t.view == Viewport { selected_index: 0, offset: 0 }
    &&& t.notice == s.notice
    &&& t.pending_kill == s.pending_kill
    &&& t.page_size == s.page_size
}

/// `t` is `s` in mode `m` with `p` as the pending termination.
pub open spec fn moved_to(s: UiState, t: UiState, m: Mode, p: Option<i32>) -> bool {
    t == UiState { mode: m, pending_kill: p, ..s }
}

/// A key press in `Normal` mode.
pub open spec fn normal_step(
    s: UiState,
    t: UiState,
    key: KeyPress,
    b: KeyBindings,
    act: Action,
) -> bool {
    let len = s.filtered.len() as nat;
    let page = s.page_size as nat;
    if b.quit@.contains(key) {
        act == Action::Quit && t == s
    } else if b.down@.contains(key) {
        act == Action::Nothing && t == UiState { view: s.view.down(len, page), ..s }
    } else if b.up@.contains(key) {
        act == Action::Nothing && t == UiState { view: s.view.up(), ..s }
    } else if b.filter@.contains(key) {
        &&& act == Action::Nothing
        &&& requeried(s, t, Mode::FilterInput, Seq::empty())
        &&& views(t.filtered@) == views(s.processes@)
    } else if b.detail@.contains(key) {
        act == Action::Nothing && moved_to(s, t, Mode::Detail, s.pending_kill)
    } else if b.copy@.contains(key) {
        &&& t == s
        &&& act == if len > 0 {
            Action::CopyPid(s.selected_pid())
        } else {
            Action::Nothing
        }
    } else if b.kill@.contains(key) {
        &&& act == Action::Nothing
        &&& if len > 0 {
            moved_to(s, t, Mode::ConfirmKill, Some(s.selected_pid()))
        } else {
            t == s
        }
    } else {
        act == Action::Nothing && t == s
    }
}

/// A key press in `FilterInput` mode: Enter or Esc leave with the query kept,
/// a character is appended, Backspace removes the last one.
pub open spec fn filter_step(s: UiState, t: UiState, key: KeyPress, act: Action) -> bool {
    &&& act == Action::Nothing
    &&& match key.code {
        KeyCode::Enter | KeyCode::Esc => moved_to(s, t, Mode::Normal, s.pending_kill),
        KeyCode::Char(c) => requeried(s, t, Mode::FilterInput, s.filter_input@.push(c)),
        KeyCode::Backspace => requeried(
            s,
            t,
            Mode::FilterInput,
            if s.filter_input@.len() > 0 {
                s.filter_input@.drop_last()
            } else {
                s.filter_input@
            },
        ),
        _ => t == s,
    }
}

/// A key press in `Detail` mode: Esc or `q` go back to `Normal`.
pub open spec fn detail_step(s: UiState, t: UiState, key: KeyPress, act: Action) -> bool {
    &&& act == Action::Nothing
    &&& if key.code == KeyCode::Esc || key.code == KeyCode::Char('q') {
        moved_to(s, t, Mode::Normal, s.pending_kill)
    } else {
        t == s
    }
}

/// A key press in `ConfirmKill` mode: confirming asks to terminate the pending
/// pid, cancelling does nothing; both go back to `Normal` and clear the pid.
pub open spec fn confirm_step(
    s: UiState,
    t: UiState,
    key: KeyPress,
    b: KeyBindings,
    act: Action,
) -> bool {
    if b.confirm@.contains(key) {
        &&& act == match s.pending_kill {
            Some(pid) => Action::Kill(pid),
            None => Action::Nothing,
        }
        &&& moved_to(s, t, Mode::Normal, None)
    } else if b.cancel@.contains(key) {
        act == Action::Nothing && moved_to(s, t, Mode::Normal, None)
    } else {
        act == Action::Nothing && t == s
    }
}

/// `t` is `s` with only the notification changed.
pub open spec fn notice_changed(s: UiState, t: UiState) -> bool {
    t == UiState { notice: t.notice, ..s }
}

impl UiState {
    /// The list shown matches the query, the viewport fits it, and a
    /// termination is pending exactly while it waits for confirmation.
    pub open spec fn wf(self) -> bool {
        &&& self.page_size > 0
        &&& views(self.filtered@) == record_matches(
            views(self.processes@),
            lower_of(self.filter_input@),
        )
        &&& self.view.wf(self.filtered.len() as nat, self.page_size as nat)
        &&& (self.pending_kill is Some <==> self.mode == Mode::ConfirmKill)
    }

    /// The pid of the selected row.
    pub open spec fn selected_pid(self) -> i32 {
        self.filtered@[self.view.selected_index as int].pid
    }

    /// A session over `processes` in `Normal` mode, with an empty query and the
    /// first row selected.
    pub fn new(processes: Vec<ProcessInfo>, page_size: usize) -> (s: UiState)
        requires
            page_size > 0,
        ensures
            s.wf(),
            s.mode == Mode::Normal,
            s.processes == processes,
            views(s.filtered@) == views(processes@),
            s.filter_input@.len() == 0,
            s.view == (Viewport { selected_index: 0, offset: 0 }),
            s.notice.message is None,
            s.pending_kill is None,
            s.page_size == page_size,
    {
        let filter_input = String::new();
        let filtered = apply_filter(processes.as_slice(), filter_input.as_str());
        UiState {
            mode: Mode::Normal,
            processes,
            filtered,
            view: Viewport::new(),
            filter_input,
            notice: ClipboardMessage::default(),
            pending_kill: None,
            page_size,
        }
    }

    /// Recomputes the list from the snapshot and the query, selection at the top.
    fn refilter(&mut self)
        requires
            old(self).page_size > 0,
        ensures
            *final(self) == (UiState {
                filtered: final(self).filtered,
                view: Viewport { selected_index: 0, offset: 0 },
                ..*old(self)
            }),
            views(final(self).filtered@) == record_matches(
                views(old(self).processes@),
                lower_of(old(self).filter_input@),
            ),
            old(self).filter_input@.len() == 0 ==> views(final(self).filtered@) == views(
                old(self).processes@,
            ),
            final(self).view.wf(final(self).filtered.len() as nat, final(self).page_size as nat),
    {
        self.filtered = apply_filter(self.processes.as_slice(), self.filter_input.as_str());
        self.view.reset_to_top();
    }

    /// Interprets one key press according to the current mode.
    pub fn handle_key(&mut self, key: KeyPress, bindings: &KeyBindings) -> (act: Action)
        requires
            old(self).wf(),
        ensures
            final(self).wf(),
            match old(self).mode {
                Mode::Normal => normal_step(*old(self), *final(self), key, *bindings, act),
                Mode::FilterInput => filter_step(*old(self), *final(self), key, act),
                Mode::Detail => detail_step(*old(self), *final(self), key, act),
                Mode::ConfirmKill => confirm_step(*old(self), *final(self), key, *bindings, act),
            },
    {
        match self.mode {
            Mode::Normal => self.normal_key(key, bindings),
            Mode::FilterInput => self.filter_key(key),
            Mode::Detail => {
                if key.code == KeyCode::Esc || key.code == KeyCode::Char('q') {
                    self.mode = Mode::Normal;
                }
                Action::Nothing
            },
            Mode::ConfirmKill => self.confirm_key(key, bindings),
        }
    }

    fn normal_key(&mut self, key: KeyPress, b: &KeyBindings) -> (act: Action)
        requires
            old(self).wf(),
            old(self).mode == Mode::Normal,
        ensures
            final(self).wf(),
            normal_step(*old(self), *final(self), key, *b, act),
    {
        let len = self.filtered.len();
        if b.is_quit(&key) {
            return Action::Quit;
        }
        if b.is_down(&key) {
            self.view.move_down(len, self.page_size);
            return Action::Nothing;
        }
        if b.is_up(&key) {
            self.view.move_up(len, self.page_size);
            return Action::Nothing;
        }
        if b.is_filter(&key) {
            self.mode = Mode::FilterInput;
            self.filter_input = String::new();
            self.refilter();
            return Action::Nothing;
        }
        if b.is_detail(&key) {
            self.mode = Mode::Detail;
            return Action::Nothing;
        }
        if b.is_copy(&key) {
            if len > 0 {
                return Action::CopyPid(self.filtered[self.view.selected_index].pid);
            }
            return Action::Nothing;
        }
        if b.is_kill(&key) {
            if len > 0 {
                let pid = self.filtered[self.view.selected_index].pid;
                self.pending_kill = Some(pid);
                self.mode = Mode::ConfirmKill;
            }
            return Action::Nothing;
        }
        Action::Nothing
    }

    fn filter_key(&mut self, key: KeyPress) -> (act: Action)
        requires
            old(self).wf(),
            old(self).mode == Mode::FilterInput,
        ensures
            final(self).wf(),
            filter_step(*old(self), *final(self), key, act),
    {
        match key.code {
            KeyCode::Enter | KeyCode::Esc => {
                self.mode = Mode::Normal;
            },
            KeyCode::Char(c) => {
                push_char(&mut self.filter_input, c);
                self.refilter();
            },
            KeyCode::Backspace => {
                pop_char(&mut self.filter_input);
                self.refilter();
            },
            _ => {},
        }
        Action::Nothing
    }

    fn confirm_key(&mut self, key: KeyPress, b: &KeyBindings) -> (act: Action)
        requires
            old(self).wf(),
            old(self).mode == Mode::ConfirmKill,
        ensures
            final(self).wf(),
            confirm_step(*old(self), *final(self), key, *b, act),
    {
        if b.is_confirm(&key) {
            let act = match self.pending_kill {
                Some(pid) => Action::Kill(pid),
                None => Action::Nothing,
            };
            self.pending_kill = None;
            self.mode = Mode::Normal;
            return act;
        }
        if b.is_cancel(&key) {
            self.pending_kill = None;
            self.mode = Mode::Normal;
        }
        Action::Nothing
    }

    /// Records the outcome of a copy: a notification on success, nothing on failure.
    pub fn finish_copy(&mut self, copied: bool, now_ms: u64)
        requires
            old(self).wf(),
        ensures
            final(self).wf(),
            notice_changed(*old(self), *final(self)),
            copied ==> (final(self).notice.message matches Some((text, at)) && text@
                == COPIED_NOTICE@ && at == now_ms),
            !copied ==> final(self).notice == old(self).notice,
    {
        if copied {
            self.notice.set(COPIED_NOTICE.to_owned(), now_ms);
        }
    }

    /// Records the outcome of terminating `pid`: a confirmation, or the reason
    /// it failed.
    pub fn finish_kill(&mut self, pid: i32, outcome: Result<(), String>, now_ms: u64)
        requires
            old(self).wf(),
        ensures
            final(self).wf(),
            notice_changed(*old(self), *final(self)),
            final(self).notice.message matches Some((text, at)) && at == now_ms && text@ == match outcome {
                Ok(()) => KILLED_NOTICE@ + signed_decimal(pid as int),
                Err(reason) => KILL_FAILED_NOTICE@ + reason@,
            },
    {
        let text = match outcome {
            Ok(()) => {
                let t = KILLED_NOTICE.to_owned();
                t.concat(decimal_text(pid as i64).as_str())
            },
            Err(reason) => {
                let t = KILL_FAILED_NOTICE.to_owned();
                t.concat(reason.as_str())
            },
        };
        self.notice.set(text, now_ms);
    }

    /// Replaces the snapshot, recomputes the list and brings the selection back in range.
    pub fn replace_snapshot(&mut self, processes: Vec<ProcessInfo>)
        requires
            old(self).wf(),
        ensures
            final(self).wf(),
            final(self).processes == processes,
            final(self).view == old(self).view.clamped(
                final(self).filtered.len() as nat,
                old(self).page_size as nat,
            ),
            final(self).mode == old(self).mode,
            final(self).filter_input == old(self).filter_input,
            final(self).notice == old(self).notice,
            final(self).pending_kill == old(self).pending_kill,
            final(self).page_size == old(self).page_size,
            final(self).filtered.len() > 0 ==> final(self).view.selected_index
                < final(self).filtered.len(),
    {
        self.filtered = apply_filter(processes.as_slice(), self.filter_input.as_str());
        self.processes = processes;
        let len = self.filtered.len();
        self.view.clamp_to_list(len, self.page_size);
    }

    /// Changes the rows available to the table and brings the window back in range.
    pub fn set_page_size(&mut self, page_size: usize)
        requires
            old(self).wf(),
            page_size > 0,
        ensures
            final(self).wf(),
            *final(self) == (UiState {
                page_size,
                view: old(self).view.clamped(old(self).filtered.len() as nat, page_size as nat),
                ..*old(self)
            }),
    {
        let len = self.filtered.len();
        self.view.clamp_to_list(len, page_size);
        self.page_size = page_size;
    }

    /// The selected record, if the list is not empty.
    pub fn selected(&self) -> (r: Option<&ProcessInfo>)
        requires
            self.wf(),
        ensures
            r == if self.filtered.len() > 0 {
                Some(&self.filtered@[self.view.selected_index as int])
            } else {
                None
            },
    {
        if self.filtered.len() > 0 {
            Some(&self.filtered[self.view.selected_index])
        } else {
            None
        }
    }

    /// The rows of the list on screen, as the range `start..end`.
    pub fn visible_range(&self) -> (r: (usize, usize))
        requires
            self.wf(),
        ensures
            r.0 == self.view.offset,
            r.1 == if self.view.offset + self.page_size <= self.filtered.len() {
                self.view.offset + self.page_size
            } else {
                self.filtered.len() as int
            },
            r.0 <= r.1 <= self.filtered.len(),
    {
        let len = self.filtered.len();
        let start = self.view.offset;
        let end = if self.page_size <= len - start { start + self.page_size } else { len };
        (start, end)
    }
}

/// In every well-formed state, whatever list it was last given and however
/// short, the rows that drawing, copying, the detail view and termination read
/// lie inside the list: the selected row when the list is not empty, and the
/// window of visible rows; an empty list has both at zero.
pub proof fn lemma_reads_stay_in_list(s: UiState)
    requires
        s.wf(),
    ensures
        s.filtered.len() > 0 ==> s.view.selected_index < s.filtered.len(),
        s.filtered.len() == 0 ==> s.view == (Viewport { selected_index: 0, offset: 0 }),
        s.view.offset <= s.filtered.len(),
{
}

/// When the list is replaced by one with no more rows than the selected index,
/// including an empty one, the viewport that `replace_snapshot` computes fits
/// the new list and its selection is a row of it.
pub proof fn lemma_shorter_snapshot_clamps(s: UiState, len: usize)
    requires
        s.wf(),
        len <= s.view.selected_index,
    ensures
        len > 0 ==> s.view.clamped(len as nat, s.page_size as nat).selected_index < len,
        s.view.clamped(len as nat, s.page_size as nat).wf(len as nat, s.page_size as nat),
{
}

} // verus!
