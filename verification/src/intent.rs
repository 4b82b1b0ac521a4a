use vstd::prelude::*;

use crate::session::Mode;

verus! {

/// An abstract key press, as the dispatcher sees it: the character (with
/// whether Control was held), or one of the few special keys that are bound.
/// Anything else is `Other` and never produces an intent.
#[derive(Debug, PartialEq, Eq, Structural, Clone, Copy)]
pub enum Key {
    /// A character key; the flag says whether Control was held.
    Char(char, bool),
    Esc,
    Backspace,
    Enter,
    Other,
}

/// An abstract user intent, derived from a key press by the dispatcher and
/// applied to the session by the reducer.
#[derive(Debug, PartialEq, Eq, Structural, Clone, Copy)]
pub enum Message {
    Down,
    Up,
    Submit,
    Quit,
    NextOutput,
    PreviousOutput,
    WriteCommandChar(char),
    Normal,
    InsertBefore,
    InsertAfter,
    Backspace,
    OutCommand,
    InCommand,
    ScrollDown,
    ScrollUp,
    Left,
    Right,
    InsertBeforeLine,
    InsertAfterLine,
}

impl Message {
    /// The buffer-editing intents: those that first collapse an active
    /// history peek into the live buffer.
    pub open spec fn spec_is_editing_command(self) -> bool {
        self is Submit || self is WriteCommandChar || self is Backspace
    }

    /// Whether this intent edits the command buffer, and so collapses an
    /// active history peek before acting.
    pub fn is_editing_command(&self) -> (r: bool)
        ensures
            r == self.spec_is_editing_command(),
    {
        matches!(self, Message::Submit | Message::WriteCommandChar(_) | Message::Backspace)
    }
}

/// Which intents the dispatcher can produce in which mode. The reducer's
/// invariants rest on this: in insert mode only buffer-editing intents, quit,
/// and the switch to normal mode ever arrive, so the cursor stays on the
/// command line.
pub open spec fn allowed_in_mode(mode: Mode, msg: Message) -> bool {
    match mode {
        Mode::Insert => msg is Quit || msg is WriteCommandChar || msg is Normal || msg
            is Backspace || msg is Submit,
        Mode::Normal => !(msg is WriteCommandChar),
    }
}

/// Runtime check of [`allowed_in_mode`], for callers outside the verified
/// world.
pub fn is_allowed_in_mode(mode: &Mode, msg: &Message) -> (r: bool)
    ensures
        r == allowed_in_mode(*mode, *msg),
{
    match mode {
        Mode::Insert => matches!(
            msg,
            Message::Quit | Message::WriteCommandChar(_) | Message::Normal | Message::Backspace
                | Message::Submit
        ),
        Mode::Normal => !matches!(msg, Message::WriteCommandChar(_)),
    }
}

} // verus!
