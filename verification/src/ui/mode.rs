//! The application's mode and what an update of a panel results in.

use vstd::prelude::*;
use vstd::string::*;

verus! {

/// Whether keys are commands or input.
#[derive(Clone, Copy, Debug, PartialEq, Eq, Structural)]
pub enum AppMode {
    NORMAL,
    INPUT,
}

impl AppMode {
    /// The mode's name.
    pub open spec fn label(self) -> Seq<char> {
        match self {
            AppMode::NORMAL => "NORMAL"@,
            AppMode::INPUT => "INPUT"@,
        }
    }

    /// The mode's name as a string.
    pub fn into(self) -> (r: String)
        ensures
            r@ == self.label(),
    {
        match self {
            AppMode::NORMAL => String::from_str("NORMAL"),
            AppMode::INPUT => String::from_str("INPUT"),
        }
    }
}

/// What an update of a panel results in.
#[derive(Clone, Copy, Debug, PartialEq, Eq, Structural)]
pub enum UpdateResult {
    Quit,
    UpdateMode(AppMode),
    Save,
    Nothing,
}

} // verus!
