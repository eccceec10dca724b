use vstd::prelude::*;

verus! {

/// One discriminated key event handed in by the host's event source.
#[derive(Clone, Copy, Debug, PartialEq, Eq, Structural)]
pub enum Key {
    Enter,
    Esc,
    Backspace,
    Left,
    Right,
    Char(char),
    Other,
}

/// The two interpretation policies for key events.
#[derive(Clone, Copy, Debug, PartialEq, Eq, Structural)]
pub enum TermMode {
    Normal,
    Editing,
}

/// What the host loop should do after one key has been dispatched.
#[derive(Clone, Copy, Debug, PartialEq, Eq, Structural)]
pub enum EditorSignal {
    Continue,
    Exit,
}

} // verus!
