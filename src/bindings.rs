//! Key presses and the table that maps each logical action to the presses
//! that trigger it.

use vstd::prelude::*;

verus! {

/// The key of a key press.
#[derive(Clone, Copy, Debug, PartialEq, Eq, Structural)]
pub enum KeyCode {
    Backspace,
    Enter,
    Left,
    Right,
    Up,
    Down,
    Home,
    End,
    PageUp,
    PageDown,
    Tab,
    BackTab,
    Delete,
    Insert,
    F(u8),
    Char(char),
    Null,
    Esc,
    Other,
}

/// No modifier held.
pub const NO_MODIFIERS: u8 = 0;

/// Shift held.
pub const SHIFT: u8 = 1;

/// Control held.
pub const CONTROL: u8 = 2;

/// Alt held.
pub const ALT: u8 = 4;

/// A key together with the set of modifiers held, one bit each.
#[derive(Clone, Copy, Debug, PartialEq, Eq, Structural)]
pub struct KeyPress {
    pub code: KeyCode,
    pub modifiers: u8,
}

impl KeyPress {
    /// A press of `code` with the given modifiers.
    pub fn new(code: KeyCode, modifiers: u8) -> (k: KeyPress)
        ensures
            k == (KeyPress { code, modifiers }),
    {
        KeyPress { code, modifiers }
    }
}

/// For each logical action, the presses that trigger it.
#[derive(Clone, Debug)]
pub struct KeyBindings {
    pub up: Vec<KeyPress>,
    pub down: Vec<KeyPress>,
    pub quit: Vec<KeyPress>,
    pub detail: Vec<KeyPress>,
    pub filter: Vec<KeyPress>,
    pub copy: Vec<KeyPress>,
    pub kill: Vec<KeyPress>,
    pub confirm: Vec<KeyPress>,
    pub cancel: Vec<KeyPress>,
}

/// A press with no modifier held.
pub open spec fn plain(code: KeyCode) -> KeyPress {
    KeyPress { code, modifiers: NO_MODIFIERS }
}

/// The default table: up = Up / `k` / Ctrl-`p`; down = Down / `j` / Ctrl-`n`;
/// quit = `q` / Esc; detail = Tab; filter = `:`; copy = Enter; kill = `x`;
/// confirm = `y` / Enter; cancel = `n` / Esc.
pub open spec fn is_default_table(b: KeyBindings) -> bool {
    &&& b.up@ == seq![
        plain(KeyCode::Up),
        plain(KeyCode::Char('k')),
        KeyPress { code: KeyCode::Char('p'), modifiers: CONTROL },
    ]
    &&& b.down@ == seq![
        plain(KeyCode::Down),
        plain(KeyCode::Char('j')),
        KeyPress { code: KeyCode::Char('n'), modifiers: CONTROL },
    ]
    &&& b.quit@ == seq![plain(KeyCode::Char('q')), plain(KeyCode::Esc)]
    &&& b.detail@ == seq![plain(KeyCode::Tab)]
    &&& b.filter@ == seq![plain(KeyCode::Char(':'))]
    &&& b.copy@ == seq![plain(KeyCode::Enter)]
    &&& b.kill@ == seq![plain(KeyCode::Char('x'))]
    &&& b.confirm@ == seq![plain(KeyCode::Char('y')), plain(KeyCode::Enter)]
    &&& b.cancel@ == seq![plain(KeyCode::Char('n')), plain(KeyCode::Esc)]
}

impl Default for KeyBindings {
    fn default() -> (b: KeyBindings)
        ensures
            is_default_table(b),
    {
        let none = NO_MODIFIERS;
        let up = vec![
            KeyPress::new(KeyCode::Up, none),
            KeyPress::new(KeyCode::Char('k'), none),
            KeyPress::new(KeyCode::Char('p'), CONTROL),
        ];
        let down = vec![
            KeyPress::new(KeyCode::Down, none),
            KeyPress::new(KeyCode::Char('j'), none),
            KeyPress::new(KeyCode::Char('n'), CONTROL),
        ];
        let quit = vec![KeyPress::new(KeyCode::Char('q'), none), KeyPress::new(KeyCode::Esc, none)];
        let detail = vec![KeyPress::new(KeyCode::Tab, none)];
        let filter = vec![KeyPress::new(KeyCode::Char(':'), none)];
        let copy = vec![KeyPress::new(KeyCode::Enter, none)];
        let kill = vec![KeyPress::new(KeyCode::Char('x'), none)];
        let confirm = vec![KeyPress::new(KeyCode::Char('y'), none), KeyPress::new(KeyCode::Enter, none)];
        let cancel = vec![KeyPress::new(KeyCode::Char('n'), none), KeyPress::new(KeyCode::Esc, none)];
        let b = KeyBindings { up, down, quit, detail, filter, copy, kill, confirm, cancel };
        assert(b.up@ =~= seq![
            plain(KeyCode::Up),
            plain(KeyCode::Char('k')),
            KeyPress { code: KeyCode::Char('p'), modifiers: CONTROL },
        ]);
        assert(b.down@ =~= seq![
            plain(KeyCode::Down),
            plain(KeyCode::Char('j')),
            KeyPress { code: KeyCode::Char('n'), modifiers: CONTROL },
        ]);
        assert(b.quit@ =~= seq![plain(KeyCode::Char('q')), plain(KeyCode::Esc)]);
        assert(b.detail@ =~= seq![plain(KeyCode::Tab)]);
        assert(b.filter@ =~= seq![plain(KeyCode::Char(':'))]);
        assert(b.copy@ =~= seq![plain(KeyCode::Enter)]);
        assert(b.kill@ =~= seq![plain(KeyCode::Char('x'))]);
        assert(b.confirm@ =~= seq![plain(KeyCode::Char('y')), plain(KeyCode::Enter)]);
        assert(b.cancel@ =~= seq![plain(KeyCode::Char('n')), plain(KeyCode::Esc)]);
        b
    }
}

impl KeyBindings {
    /// Whether `key` is one of `bindings`.
    fn matches(key: &KeyPress, bindings: &[KeyPress]) -> (r: bool)
        ensures
            r == bindings@.contains(*key),
    {
        let mut i: usize = 0;
        while i < bindings.len()
            invariant
                i <= bindings.len(),
                forall|j: int| 0 <= j < i ==> bindings@[j] != *key,
            decreases bindings.len() - i,
        {
            if bindings[i] == *key {
                return true;
            }
            i = i + 1;
        }
        false
    }

    pub fn is_up(&self, key: &KeyPress) -> (r: bool)
        ensures
            r == self.up@.contains(*key),
    {
        Self::matches(key, self.up.as_slice())
    }

    pub fn is_down(&self, key: &KeyPress) -> (r: bool)
        ensures
            r == self.down@.contains(*key),
    {
        Self::matches(key, self.down.as_slice())
    }

    pub fn is_quit(&self, key: &KeyPress) -> (r: bool)
        ensures
            r == self.quit@.contains(*key),
    {
        Self::matches(key, self.quit.as_slice())
    }

    pub fn is_detail(&self, key: &KeyPress) -> (r: bool)
        ensures
            r == self.detail@.contains(*key),
    {
        Self::matches(key, self.detail.as_slice())
    }

    pub fn is_filter(&self, key: &KeyPress) -> (r: bool)
        ensures
            r == self.filter@.contains(*key),
    {
        Self::matches(key, self.filter.as_slice())
    }

    pub fn is_copy(&self, key: &KeyPress) -> (r: bool)
        ensures
            r == self.copy@.contains(*key),
    {
        Self::matches(key, self.copy.as_slice())
    }

    pub fn is_kill(&self, key: &KeyPress) -> (r: bool)
        ensures
            r == self.kill@.contains(*key),
    {
        Self::matches(key, self.kill.as_slice())
    }

    pub fn is_confirm(&self, key: &KeyPress) -> (r: bool)
        ensures
            r == self.confirm@.contains(*key),
    {
        Self::matches(key, self.confirm.as_slice())
    }

    pub fn is_cancel(&self, key: &KeyPress) -> (r: bool)
        ensures
            r == self.cancel@.contains(*key),
    {
        Self::matches(key, self.cancel.as_slice())
    }
}

} // verus!
