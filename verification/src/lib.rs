//! Core of an interactive terminal session: a modal command-line editor
//! combined with a scrollback viewer over the outputs of previously run
//! commands, and linear navigation through command history.
//!
//! The state machine lives in [`reducer`]; [`dispatch`] maps key presses to
//! intents, [`session`] holds the session state, and [`text`] gives the
//! line-oriented view of captured output.

pub mod cursor;
pub mod dispatch;
pub mod intent;
pub mod reducer;
pub mod session;
pub mod text;
