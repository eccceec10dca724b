//! Core of a modal text-input terminal application: a line editor with a
//! grapheme-aware cursor, a two-state mode controller, a message history,
//! and a pure projection of the screen contents, together with the small
//! computations behind the stock-quote fetch (URL shape, status handling,
//! token cleanup). Terminal, event and network plumbing live outside.

pub mod editor;
pub mod keys;
pub mod layout;
pub mod parsing;
pub mod quote;
pub mod render;
