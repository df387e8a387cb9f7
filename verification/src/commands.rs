//! From a command to what is to be done.

use crate::command::{Command, CommandView};
use crate::degrees::{is_degree_text, Reading, ReadingView};
use crate::error::CommandError;
use crate::scale::Scale;
use crate::text::{characters, same_text};
use vstd::prelude::*;

verus! {

/// The commands that there are.
#[derive(Debug, Clone, Copy, PartialEq, Eq, Structural)]
pub enum Keyword {
    /// Show the usage text.
    Usage,
    /// Show the table of common conversions.
    Table,
    /// Start the interactive session.
    Interactive,
    /// Convert degrees Fahrenheit to degrees Celsius.
    FahrenheitToCelsius,
    /// Convert degrees Celsius to degrees Fahrenheit.
    CelsiusToFahrenheit,
}

/// What a command asks for.
#[derive(Debug, PartialEq, Eq)]
pub enum Action {
    /// Show the usage text.
    ShowUsage,
    /// Show the table of common conversions.
    ShowTable,
    /// Start the interactive session.
    Interact,
    /// Convert the reading to the other scale and show both.
    Convert(Reading),
}

/// What an `Action` stands for.
pub enum ActionView {
    ShowUsage,
    ShowTable,
    Interact,
    Convert(ReadingView),
}

impl View for Action {
    type V = ActionView;

    open spec fn view(&self) -> ActionView {
        match self {
            Action::ShowUsage => ActionView::ShowUsage,
            Action::ShowTable => ActionView::ShowTable,
            Action::Interact => ActionView::Interact,
            Action::Convert(reading) => ActionView::Convert(reading@),
        }
    }
}

impl Clone for Action {
    fn clone(&self) -> (copy: Action)
        ensures
            copy@ == self@,
    {
        match self {
            Action::ShowUsage => Action::ShowUsage,
            Action::ShowTable => Action::ShowTable,
            Action::Interact => Action::Interact,
            Action::Convert(reading) => Action::Convert(reading.clone()),
        }
    }
}

/// The conversion of `degrees` from `scale`, or the error if the text is no
/// number.
pub open spec fn conversion(scale: Scale, degrees: Seq<char>) -> Result<ActionView, CommandError> {
    if is_degree_text(degrees) {
        Ok(ActionView::Convert(ReadingView { scale, degrees }))
    } else {
        Err(CommandError::InvalidDegrees(scale))
    }
}

/// The command that `name` is the name of, if it is one: `usage` or
/// `help`, `table` or `list`, `interactive`, `ftoc` and `ctof`. Names are
/// matched letter for letter.
pub open spec fn keyword(name: Seq<char>) -> Option<Keyword> {
    if name == "help"@ || name == "usage"@ {
        Some(Keyword::Usage)
    } else if name == "table"@ || name == "list"@ {
        Some(Keyword::Table)
    } else if name == "interactive"@ {
        Some(Keyword::Interactive)
    } else if name == "ftoc"@ {
        Some(Keyword::FahrenheitToCelsius)
    } else if name == "ctof"@ {
        Some(Keyword::CelsiusToFahrenheit)
    } else {
        None
    }
}

/// What a command asks for. A name that is none of the known ones is an
/// error, and so are degrees that are no number where a conversion is asked
/// for; elsewhere the degrees are not looked at.
pub open spec fn dispatch(command: CommandView) -> Result<ActionView, CommandError> {
    match keyword(command.command) {
        Some(Keyword::Usage) => Ok(ActionView::ShowUsage),
        Some(Keyword::Table) => Ok(ActionView::ShowTable),
        Some(Keyword::Interactive) => Ok(ActionView::Interact),
        Some(Keyword::FahrenheitToCelsius) => conversion(Scale::Fahrenheit, command.degrees),
        Some(Keyword::CelsiusToFahrenheit) => conversion(Scale::Celsius, command.degrees),
        None => Err(CommandError::UnknownCommand),
    }
}

/// Whether an argument list is in the form with flags: the first argument
/// after the program's name begins with a hyphen.
pub open spec fn flagged(args: Seq<Seq<char>>) -> bool {
    args.len() > 1 && args[1].len() > 0 && args[1][0] == '-'
}

/// What the flags of a command line ask for: degrees Fahrenheit come first,
/// then degrees Celsius, then the table; with none of them, the usage text.
pub open spec fn selection(
    fahrenheit: Option<Seq<char>>,
    celsius: Option<Seq<char>>,
    table: bool,
) -> Result<ActionView, CommandError> {
    match (fahrenheit, celsius) {
        (Some(degrees), _) => conversion(Scale::Fahrenheit, degrees),
        (None, Some(degrees)) => conversion(Scale::Celsius, degrees),
        (None, None) => if table {
            Ok(ActionView::ShowTable)
        } else {
            Ok(ActionView::ShowUsage)
        },
    }
}

/// Whether `outcome` is what `expected` stands for.
pub open spec fn stands_for(
    outcome: Result<Action, CommandError>,
    expected: Result<ActionView, CommandError>,
) -> bool {
    match expected {
        Ok(view) => outcome matches Ok(action) && action@ == view,
        Err(error) => outcome == Err::<Action, CommandError>(error),
    }
}

/// The process's exit status after `outcome`.
pub open spec fn spec_exit_code(outcome: &Result<Action, CommandError>) -> u8 {
    if outcome is Ok {
        0
    } else {
        1
    }
}

/// Takes `degrees` as a reading in `scale` that is to be converted.
pub fn convert_from(scale: Scale, degrees: &str) -> (outcome: Result<Action, CommandError>)
    ensures
        stands_for(outcome, conversion(scale, degrees@)),
{
    match Reading::new(scale, degrees) {
        Some(reading) => Ok(Action::Convert(reading)),
        None => Err(CommandError::InvalidDegrees(scale)),
    }
}

impl Keyword {
    /// Reads the name of a command.
    pub fn parse(name: &str) -> (word: Option<Keyword>)
        ensures
            word == keyword(name@),
    {
        if same_text(name, "help") || same_text(name, "usage") {
            Some(Keyword::Usage)
        } else if same_text(name, "table") || same_text(name, "list") {
            Some(Keyword::Table)
        } else if same_text(name, "interactive") {
            Some(Keyword::Interactive)
        } else if same_text(name, "ftoc") {
            Some(Keyword::FahrenheitToCelsius)
        } else if same_text(name, "ctof") {
            Some(Keyword::CelsiusToFahrenheit)
        } else {
            None
        }
    }
}

/// Decides what `command` asks for.
pub fn run_command(command: Command) -> (outcome: Result<Action, CommandError>)
    ensures
        stands_for(outcome, dispatch(command@)),
{
    match Keyword::parse(command.command.as_str()) {
        Some(Keyword::Usage) => Ok(Action::ShowUsage),
        Some(Keyword::Table) => Ok(Action::ShowTable),
        Some(Keyword::Interactive) => Ok(Action::Interact),
        Some(Keyword::FahrenheitToCelsius) => convert_from(
            Scale::Fahrenheit,
            command.degrees.as_str(),
        ),
        Some(Keyword::CelsiusToFahrenheit) => convert_from(
            Scale::Celsius,
            command.degrees.as_str(),
        ),
        None => Err(CommandError::UnknownCommand),
    }
}

/// Tells whether an argument list is in the form with flags, and not in the
/// one with a command.
pub fn uses_flags(args: &[String]) -> (flags: bool)
    ensures
        flags == flagged(args.deep_view()),
{
    if args.len() > 1 {
        let first = args[1].as_str();
        first.unicode_len() > 0 && first.get_char(0) == '-'
    } else {
        false
    }
}

/// Decides what the flags of a command line ask for: the degrees given
/// with the flag for Fahrenheit and with the one for Celsius, and whether
/// the flag for the table was set.
pub fn run_flags(fahrenheit: Option<&str>, celsius: Option<&str>, table: bool) -> (outcome: Result<
    Action,
    CommandError,
>)
    ensures
        stands_for(outcome, selection(characters(fahrenheit), characters(celsius), table)),
{
    match (fahrenheit, celsius) {
        (Some(degrees), _) => convert_from(Scale::Fahrenheit, degrees),
        (None, Some(degrees)) => convert_from(Scale::Celsius, degrees),
        (None, None) => if table {
            Ok(Action::ShowTable)
        } else {
            Ok(Action::ShowUsage)
        },
    }
}

/// The process's exit status after `outcome`: 0 after success, 1 after an
/// error.
#[verifier::when_used_as_spec(spec_exit_code)]
pub fn exit_code(outcome: &Result<Action, CommandError>) -> (code: u8)
    ensures
        code == spec_exit_code(outcome),
{
    match outcome {
        Ok(_) => 0,
        Err(_) => 1,
    }
}

} // verus!
