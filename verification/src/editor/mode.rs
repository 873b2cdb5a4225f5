//! The editor's mode and what a panel asks of the editor.

use vstd::prelude::*;
use vstd::string::*;

verus! {

/// Whether keys are commands or text.
#[derive(Clone, Copy, Debug, PartialEq, Eq, Structural)]
pub enum EditorMode {
    Normal,
    Insert,
}

impl EditorMode {
    /// The mode's name on the status line.
    pub open spec fn label(self) -> Seq<char> {
        match self {
            EditorMode::Insert => "INSERT"@,
            EditorMode::Normal => "NORMAL"@,
        }
    }

    /// The mode's name on the status line.
    pub fn to_string(&self) -> (r: String)
        ensures
            r@ == self.label(),
    {
        match *self {
            EditorMode::Insert => String::from_str("INSERT"),
            EditorMode::Normal => String::from_str("NORMAL"),
        }
    }
}

/// What a panel asks of the editor after an update.
#[derive(Clone, Copy, Debug, PartialEq, Eq, Structural)]
pub enum LetterCommand {
    Quit,
    Save,
    Debug,
}

} // verus!
