use vstd::prelude::*;

use crate::intent::{allowed_in_mode, Key, Message};
use crate::session::{Mode, Model};

verus! {

/// The two key binding tables, as a pure mapping from mode and key press to
/// an intent. In insert mode printable characters are written to the buffer
/// (Ctrl-D quits); in normal mode `h/j/k/l` move, `i/a/I/A` enter insert
/// mode, and Control chords navigate outputs, history and scroll.
pub open spec fn spec_dispatch(mode: Mode, key: Key) -> Option<Message> {
    match mode {
        Mode::Insert => match key {
            Key::Char(c, ctrl) => if ctrl && c == 'd' {
                Some(Message::Quit)
            } else {
                Some(Message::WriteCommandChar(c))
            },
            Key::Esc => Some(Message::Normal),
            Key::Backspace => Some(Message::Backspace),
            Key::Enter => Some(Message::Submit),
            Key::Other => None,
        },
        Mode::Normal => match key {
            Key::Char(c, ctrl) => if ctrl && c == 'n' {
                Some(Message::NextOutput)
            } else if ctrl && c == 'p' {
                Some(Message::PreviousOutput)
            } else if ctrl && c == 'i' {
                Some(Message::InCommand)
            } else if ctrl && c == 'o' {
                Some(Message::OutCommand)
            } else if ctrl && c == 'u' {
                Some(Message::ScrollUp)
            } else if ctrl && c == 'd' {
                Some(Message::ScrollDown)
            } else if c == 'i' {
                Some(Message::InsertBefore)
            } else if c == 'a' {
                Some(Message::InsertAfter)
            } else if c == 'I' {
                Some(Message::InsertBeforeLine)
            } else if c == 'A' {
                Some(Message::InsertAfterLine)
            } else if c == 'h' {
                Some(Message::Left)
            } else if c == 'j' {
                Some(Message::Down)
            } else if c == 'k' {
                Some(Message::Up)
            } else if c == 'l' {
                Some(Message::Right)
            } else {
                None
            },
            _ => None,
        },
    }
}

/// Convert a key press into an intent, using the binding table of the
/// session's current mode. Stateless: it never mutates the session, and every
/// intent it produces is one the reducer accepts in that mode.
pub fn handle_key(model: &Model, key: Key) -> (r: Option<Message>)
    ensures
        r == spec_dispatch(model.mode, key),
        r matches Some(m) ==> allowed_in_mode(model.mode, m),
{
    match model.mode {
        Mode::Insert => match key {
            Key::Char(c, ctrl) => if ctrl && c == 'd' {
                Some(Message::Quit)
            } else {
                Some(Message::WriteCommandChar(c))
            },
            Key::Esc => Some(Message::Normal),
            Key::Backspace => Some(Message::Backspace),
            Key::Enter => Some(Message::Submit),
            Key::Other => None,
        },
        Mode::Normal => match key {
            Key::Char(c, ctrl) => if ctrl && c == 'n' {
                Some(Message::NextOutput)
            } else if ctrl && c == 'p' {
                Some(Message::PreviousOutput)
            } else if ctrl && c == 'i' {
                Some(Message::InCommand)
            } else if ctrl && c == 'o' {
                Some(Message::OutCommand)
            } else if ctrl && c == 'u' {
                Some(Message::ScrollUp)
            } else if ctrl && c == 'd' {
                Some(Message::ScrollDown)
            } else if c == 'i' {
                Some(Message::InsertBefore)
            } else if c == 'a' {
                Some(Message::InsertAfter)
            } else if c == 'I' {
                Some(Message::InsertBeforeLine)
            } else if c == 'A' {
                Some(Message::InsertAfterLine)
            } else if c == 'h' {
                Some(Message::Left)
            } else if c == 'j' {
                Some(Message::Down)
            } else if c == 'k' {
                Some(Message::Up)
            } else if c == 'l' {
                Some(Message::Right)
            } else {
                None
            },
            _ => None,
        },
    }
}

} // verus!
