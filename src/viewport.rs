//! Selection and scroll offset over a list of known length, shown through a
//! window of `page_size` rows.

use vstd::prelude::*;

verus! {

/// The selected row and the first visible row of a list.
#[derive(Clone, Copy, Debug, PartialEq, Eq, Structural)]
pub struct Viewport {
    pub selected_index: usize,
    pub offset: usize,
}

/// The largest offset that still fills the window: `max(0, len - page_size)`.
pub open spec fn max_offset(len: nat, page_size: nat) -> nat {
    if len > page_size {
        (len - page_size) as nat
    } else {
        0
    }
}

impl Viewport {
    /// The window invariant for a list of `len` rows seen through `page_size` rows:
    /// an empty list has both at zero; otherwise the selection is a valid row,
    /// the offset stays within `[0, max(0, len - page_size)]`, and the selected
    /// row is on screen.
    pub open spec fn wf(self, len: nat, page_size: nat) -> bool {
        &&& page_size > 0
        &&& len == 0 ==> self.selected_index == 0 && self.offset == 0
        &&& len > 0 ==> {
            &&& self.selected_index < len
            &&& self.offset <= max_offset(len, page_size)
            &&& self.offset <= self.selected_index < self.offset + page_size
        }
    }

    /// One row down, scrolling by exactly one row when the selection leaves the window.
    pub open spec fn down(self, len: nat, page_size: nat) -> Viewport {
        if self.selected_index + 1 < len {
            let sel = (self.selected_index + 1) as usize;
            Viewport {
                selected_index: sel,
                offset: if sel >= self.offset + page_size {
                    (self.offset + 1) as usize
                } else {
                    self.offset
                },
            }
        } else {
            self
        }
    }

    /// One row up, scrolling by exactly one row when the selection leaves the window.
    pub open spec fn up(self) -> Viewport {
        if self.selected_index > 0 {
            let sel = (self.selected_index - 1) as usize;
            Viewport {
                selected_index: sel,
                offset: if sel < self.offset {
                    (self.offset - 1) as usize
                } else {
                    self.offset
                },
            }
        } else {
            self
        }
    }

    /// The viewport after the list is replaced by one of `len` rows.
    pub open spec fn clamped(self, len: nat, page_size: nat) -> Viewport {
        if len == 0 {
            Viewport { selected_index: 0, offset: 0 }
        } else {
            let sel = if self.selected_index < len { self.selected_index as nat } else { (len - 1) as nat };
            let off = if self.offset <= max_offset(len, page_size) {
                self.offset as nat
            } else {
                max_offset(len, page_size)
            };
            if off <= sel < off + page_size {
                Viewport { selected_index: sel as usize, offset: off as usize }
            } else {
                Viewport { selected_index: 0, offset: 0 }
            }
        }
    }

    /// Selection and offset both at the top of the list.
    pub fn new() -> (v: Viewport)
        ensures
            v == (Viewport { selected_index: 0, offset: 0 }),
            forall|page_size: nat| page_size > 0 ==> #[trigger] v.wf(0, page_size),
    {
        Viewport { selected_index: 0, offset: 0 }
    }

    /// Moves the selection one row down.
    pub fn move_down(&mut self, len: usize, page_size: usize)
        requires
            old(self).wf(len as nat, page_size as nat),
        ensures
            *final(self) == old(self).down(len as nat, page_size as nat),
            final(self).wf(len as nat, page_size as nat),
    {
        if self.selected_index + 1 < len {
            self.selected_index = self.selected_index + 1;
            if self.selected_index >= self.offset + page_size {
                self.offset = self.offset + 1;
            }
        }
    }

    /// Moves the selection one row up.
    pub fn move_up(&mut self, len: usize, page_size: usize)
        requires
            old(self).wf(len as nat, page_size as nat),
        ensures
            *final(self) == old(self).up(),
            final(self).wf(len as nat, page_size as nat),
    {
        if self.selected_index > 0 {
            self.selected_index = self.selected_index - 1;
            if self.selected_index < self.offset {
                self.offset = self.offset - 1;
            }
        }
    }

    /// Puts the selection and the window back at the first row.
    pub fn reset_to_top(&mut self)
        ensures
            *final(self) == (Viewport { selected_index: 0, offset: 0 }),
            forall|len: nat, page_size: nat| page_size > 0 ==> #[trigger] final(self).wf(len, page_size),
    {
        self.selected_index = 0;
        self.offset = 0;
    }

    /// Brings the viewport back into range after the list was replaced by one of `len` rows.
    pub fn clamp_to_list(&mut self, len: usize, page_size: usize)
        requires
            page_size > 0,
        ensures
            *final(self) == old(self).clamped(len as nat, page_size as nat),
            final(self).wf(len as nat, page_size as nat),
            len > 0 ==> final(self).selected_index < len,
    {
        if len == 0 {
            self.selected_index = 0;
            self.offset = 0;
            return;
        }
        let last = len - 1;
        let top = if len > page_size { len - page_size } else { 0 };
        let sel = if self.selected_index < len { self.selected_index } else { last };
        let off = if self.offset <= top { self.offset } else { top };
        if off <= sel && sel - off < page_size {
            self.selected_index = sel;
            self.offset = off;
        } else {
            self.selected_index = 0;
            self.offset = 0;
        }
    }
}

/// The viewport after a run of key presses: `true` moves down, `false` moves up.
pub open spec fn after_moves(v: Viewport, moves: Seq<bool>, len: nat, page_size: nat) -> Viewport
    decreases moves.len(),
{
    if moves.len() == 0 {
        v
    } else {
        let prev = after_moves(v, moves.drop_last(), len, page_size);
        if moves.last() {
            prev.down(len, page_size)
        } else {
            prev.up()
        }
    }
}

/// For any list and any run of up and down moves, the selection stays a valid
/// row and the selected row stays inside the window.
pub proof fn lemma_moves_keep_window(v: Viewport, moves: Seq<bool>, len: usize, page_size: usize)
    requires
        v.wf(len as nat, page_size as nat),
    ensures
        after_moves(v, moves, len as nat, page_size as nat).wf(len as nat, page_size as nat),
        len > 0 ==> {
            let w = after_moves(v, moves, len as nat, page_size as nat);
            &&& w.selected_index < len
            &&& w.offset <= w.selected_index < w.offset + page_size
        },
    decreases moves.len(),
{
    if moves.len() > 0 {
        lemma_moves_keep_window(v, moves.drop_last(), len, page_size);
        let prev = after_moves(v, moves.drop_last(), len as nat, page_size as nat);
        lemma_step_keeps_window(prev, len, page_size);
    }
}

/// A single move in either direction keeps the window invariant.
proof fn lemma_step_keeps_window(v: Viewport, len: usize, page_size: usize)
    requires
        v.wf(len as nat, page_size as nat),
    ensures
        v.down(len as nat, page_size as nat).wf(len as nat, page_size as nat),
        v.up().wf(len as nat, page_size as nat),
{
}

} // verus!
