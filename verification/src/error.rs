//! What can go wrong with a command or an entry.

use crate::scale::Scale;
use vstd::prelude::*;

verus! {

/// The ways in which a command or an entry is refused.
#[derive(Debug, Clone, Copy, PartialEq, Eq, Structural)]
pub enum CommandError {
    /// The argument list holds less than one or more than three texts.
    WrongArgumentCount,
    /// The text given as degrees in this scale is no number.
    InvalidDegrees(Scale),
    /// The command's name is none of the known ones.
    UnknownCommand,
    /// The menu entry is no whole number from 0 to 255.
    InvalidChoice,
    /// No line could be read.
    InputReadFailure,
}

impl CommandError {
    /// The diagnostic that is shown for this error.
    pub open spec fn spec_message(&self) -> Seq<char> {
        match *self {
            CommandError::WrongArgumentCount => "Wrong number of arguments!"@,
            CommandError::InvalidDegrees(Scale::Fahrenheit) => {
                "Error: Could not parse degrees Fahrenheit!"@
            },
            CommandError::InvalidDegrees(Scale::Celsius) => {
                "Error: Could not parse degrees Celsius!"@
            },
            CommandError::UnknownCommand => "Error: Unknown command!"@,
            CommandError::InvalidChoice => "\nInvalid choice!\n"@,
            CommandError::InputReadFailure => "Failed to read line!"@,
        }
    }

    /// Whether the usage text is shown again along with the diagnostic.
    pub open spec fn spec_shows_usage(&self) -> bool {
        self is InvalidDegrees || self is UnknownCommand
    }

    /// The diagnostic that is shown for this error.
    pub fn message(&self) -> (text: &'static str)
        ensures
            text@ == self.spec_message(),
    {
        match self {
            CommandError::WrongArgumentCount => "Wrong number of arguments!",
            CommandError::InvalidDegrees(Scale::Fahrenheit) => {
                "Error: Could not parse degrees Fahrenheit!"
            },
            CommandError::InvalidDegrees(Scale::Celsius) => {
                "Error: Could not parse degrees Celsius!"
            },
            CommandError::UnknownCommand => "Error: Unknown command!",
            CommandError::InvalidChoice => "\nInvalid choice!\n",
            CommandError::InputReadFailure => "Failed to read line!",
        }
    }

    /// Whether the usage text is shown again along with the diagnostic.
    #[verifier::when_used_as_spec(spec_shows_usage)]
    pub fn shows_usage(&self) -> (shown: bool)
        ensures
            shown == self.spec_shows_usage(),
    {
        match self {
            CommandError::InvalidDegrees(_) => true,
            CommandError::UnknownCommand => true,
            _ => false,
        }
    }
}

} // verus!
