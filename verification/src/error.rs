//! What can be wrong with a command that a user typed.

use vstd::prelude::*;

verus! {

/// A fault in a command, each answered with a short message.
#[derive(Clone, Copy, Debug, PartialEq, Eq, Structural)]
pub enum InputError {
    /// The word after the command marker names no command.
    UnknownCommand,
    /// The week asked for is neither `this` nor `next`.
    UnknownWeek,
    /// The roll limit is not an unsigned number.
    NotANumber,
    /// The roll limit is zero.
    LimitBelowOne,
}

/// The message that answers the fault.
pub open spec fn message_of(error: InputError) -> Seq<char> {
    match error {
        InputError::UnknownCommand => "Unknown command."@,
        InputError::UnknownWeek => "Use \"!affix this\" or \"!affix next\""@,
        InputError::NotANumber => "That doesn't seem to be a positive number."@,
        InputError::LimitBelowOne => "The roll limit must be at least 1."@,
    }
}

impl InputError {
    /// The message that answers the fault.
    pub fn message(&self) -> (text: &'static str)
        ensures
            text@ == message_of(*self),
    {
        match self {
            InputError::UnknownCommand => "Unknown command.",
            InputError::UnknownWeek => "Use \"!affix this\" or \"!affix next\"",
            InputError::NotANumber => "That doesn't seem to be a positive number.",
            InputError::LimitBelowOne => "The roll limit must be at least 1.",
        }
    }
}

} // verus!
