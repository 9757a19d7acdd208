//! What the editor is told, and what it asks for in return.

use vstd::prelude::*;

verus! {

/// The key of a key event, as far as the editor tells keys apart.
#[derive(Clone, Copy, Debug, PartialEq, Eq)]
pub enum KeyCode {
    /// A key that stands for a character.
    Char(char),
    Enter,
    Esc,
    Backspace,
    /// Any other key.
    Other,
}

/// Whether a key went down, is held, or came up.
#[derive(Clone, Copy, Debug, PartialEq, Eq)]
pub enum KeyKind {
    Press,
    Repeat,
    Release,
}

/// One key event from the terminal.
#[derive(Clone, Copy, Debug, PartialEq, Eq)]
pub struct KeyEvent {
    pub code: KeyCode,
    pub kind: KeyKind,
}

/// What the session has to do after the editor has taken a key.
#[derive(Clone, Copy, Debug, PartialEq, Eq)]
pub enum Action {
    /// Go on with the next key.
    Continue,
    /// Write the list to the todo file, then go on.
    Save,
    /// Write the list to the todo file, then end the session.
    SaveAndQuit,
    /// End the session; nothing is written.
    Quit,
}

impl Action {
    /// The session ends after this action.
    pub open spec fn quits(self) -> bool {
        self == Action::Quit || self == Action::SaveAndQuit
    }

    /// The list is written to the todo file by this action.
    pub open spec fn saves(self) -> bool {
        self == Action::Save || self == Action::SaveAndQuit
    }

    /// Whether the session ends after this action.
    pub fn ends_session(&self) -> (r: bool)
        ensures
            r == self.quits(),
    {
        match self {
            Action::Quit => true,
            Action::SaveAndQuit => true,
            _ => false,
        }
    }

    /// Whether the list is written to the todo file by this action.
    pub fn writes_file(&self) -> (r: bool)
        ensures
            r == self.saves(),
    {
        match self {
            Action::Save => true,
            Action::SaveAndQuit => true,
            _ => false,
        }
    }
}

} // verus!
