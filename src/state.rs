//! Controller modes, the actions the controller asks for, and the transient
//! notification.

use vstd::prelude::*;

verus! {

/// How long a notification stays on screen, in milliseconds.
pub const NOTICE_TTL_MS: u64 = 2000;

/// The mode of the controller; each reads key presses its own way.
#[derive(Clone, Copy, Debug, PartialEq, Eq, Structural)]
pub enum Mode {
    Normal,
    FilterInput,
    Detail,
    ConfirmKill,
}

/// What the controller asks its caller to do after a key press.
#[derive(Clone, Copy, Debug, PartialEq, Eq, Structural)]
pub enum Action {
    Nothing,
    Quit,
    CopyPid(i32),
    Kill(i32),
}

/// Whether a notification created at `created_ms` is still shown at `now_ms`:
/// its age, counted as zero when the clock reads earlier, is under the TTL.
pub open spec fn is_fresh(created_ms: u64, now_ms: u64) -> bool {
    now_ms < created_ms + NOTICE_TTL_MS
}

/// At most one status message, with the time it was set in milliseconds.
pub struct ClipboardMessage {
    pub message: Option<(String, u64)>,
}

impl Default for ClipboardMessage {
    fn default() -> (m: ClipboardMessage)
        ensures
            m.message is None,
    {
        ClipboardMessage { message: None }
    }
}

/// Whether a notification created at `created_ms` is still shown at `now_ms`.
pub fn notice_is_fresh(created_ms: u64, now_ms: u64) -> (r: bool)
    ensures
        r == is_fresh(created_ms, now_ms),
{
    now_ms < created_ms || now_ms - created_ms < NOTICE_TTL_MS
}

impl ClipboardMessage {
    /// Replaces the message by `text`, set at `now_ms`.
    pub fn set(&mut self, text: String, now_ms: u64)
        ensures
            final(self).message == Some((text, now_ms)),
    {
        self.message = Some((text, now_ms));
    }

    /// The message text if one is set and still fresh at `now_ms`.
    pub fn visible_text(&self, now_ms: u64) -> (r: Option<String>)
        ensures
            r == match self.message {
                Some((text, created)) => if is_fresh(created, now_ms) {
                    Some(text)
                } else {
                    None
                },
                None => None,
            },
    {
        match &self.message {
            Some((text, created)) => {
                if notice_is_fresh(*created, now_ms) {
                    Some(text.clone())
                } else {
                    None
                }
            },
            None => None,
        }
    }

    /// Drops the message once it is no longer fresh at `now_ms`.
    pub fn expire(&mut self, now_ms: u64)
        ensures
            final(self).message == match old(self).message {
                Some((text, created)) => if is_fresh(created, now_ms) {
                    Some((text, created))
                } else {
                    None
                },
                None => None,
            },
    {
        let fresh = match &self.message {
            Some((_, created)) => notice_is_fresh(*created, now_ms),
            None => true,
        };
        if !fresh {
            self.message = None;
        }
    }
}

} // verus!
