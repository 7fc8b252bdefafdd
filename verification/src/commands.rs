//! The outcome a sub-command hands back to the entry point.
use vstd::prelude::*;

verus! {

/// How a sub-command ended: cleanly, with a message, or with an error,
/// possibly asking for the usage text to be shown.
pub enum CommandResult {
    Success,
    SuccessWithMessage(String),
    SuccessWithHelp,
    ErrorWithMessage(String),
    ErrorWithHelpMessage(String),
    ErrorWithHelp,
}

impl CommandResult {
    /// Whether this outcome is an error.
    pub fn is_error(&self) -> (r: bool)
        ensures
            r == (self is ErrorWithMessage || self is ErrorWithHelpMessage
                || self is ErrorWithHelp),
    {
        match self {
            CommandResult::ErrorWithMessage(_) => true,
            CommandResult::ErrorWithHelpMessage(_) => true,
            CommandResult::ErrorWithHelp => true,
            _ => false,
        }
    }
}

} // verus!
