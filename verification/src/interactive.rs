//! The interactive session: a menu is offered again and again, a line is
//! read after each prompt, and each line is answered. What is decided here is
//! how a line is answered and what is asked next; reading and showing are
//! the caller's part.

use crate::degrees::{is_degree_text, Reading, ReadingView};
use crate::error::CommandError;
use crate::number::{parse_small_number, small_number};
use crate::scale::Scale;
use crate::text::{characters, same_text, trim, trimmed};
use vstd::prelude::*;

verus! {

/// What is shown once, before the first prompt.
pub const BANNER: &'static str =
    "Temperature Converter\n\nType 'exit' or 'quit' to leave at anytime\n\n";

/// The menu with its prompt.
pub const MENU: &'static str = "Enter a number to run a function listed below.\n\n\
1: Fahrenheit to Celsius\n\
2: Celsius to Fahrenheit\n\
3: Print a list of common conversions\n\n\
Choice: ";

/// The prompt for degrees Fahrenheit.
pub const ENTER_FAHRENHEIT: &'static str = "Enter \u{ba}F: ";

/// The prompt for degrees Celsius.
pub const ENTER_CELSIUS: &'static str = "Enter \u{ba}C: ";

/// What is shown when the session is left.
pub const FAREWELL: &'static str = "Goodbye!\n";

/// What is shown after a number that the menu does not hold.
pub const REMINDER: &'static str = "\nEnter 1, 2, 3, exit, or quit!\n\n";

/// What the session waits for.
#[derive(Debug, Clone, Copy, PartialEq, Eq, Structural)]
pub enum Stage {
    /// An entry of the menu.
    Choosing,
    /// Degrees in the scale that was chosen.
    Entering(Scale),
}

/// How a line is answered.
#[derive(Debug, PartialEq, Eq)]
pub enum Reply {
    /// Take leave: the session is over.
    Farewell,
    /// Show the diagnostic of an error.
    Report(CommandError),
    /// Say which entries there are.
    Remind,
    /// Nothing is shown: degrees in this scale are asked for next.
    Ask(Scale),
    /// Convert the reading to the other scale and show both.
    Convert(Reading),
    /// Show the table of common conversions.
    ShowTable,
}

/// What a `Reply` stands for.
pub enum ReplyView {
    Farewell,
    Report(CommandError),
    Remind,
    Ask(Scale),
    Convert(ReadingView),
    ShowTable,
}

impl View for Reply {
    type V = ReplyView;

    open spec fn view(&self) -> ReplyView {
        match self {
            Reply::Farewell => ReplyView::Farewell,
            Reply::Report(error) => ReplyView::Report(*error),
            Reply::Remind => ReplyView::Remind,
            Reply::Ask(scale) => ReplyView::Ask(*scale),
            Reply::Convert(reading) => ReplyView::Convert(reading@),
            Reply::ShowTable => ReplyView::ShowTable,
        }
    }
}

impl Stage {
    /// What is shown before a line is read at this stage.
    pub open spec fn spec_prompt(&self) -> Seq<char> {
        match *self {
            Stage::Choosing => MENU@,
            Stage::Entering(Scale::Fahrenheit) => ENTER_FAHRENHEIT@,
            Stage::Entering(Scale::Celsius) => ENTER_CELSIUS@,
        }
    }

    /// What is shown before a line is read at this stage.
    pub fn prompt(&self) -> (text: &'static str)
        ensures
            text@ == self.spec_prompt(),
    {
        match self {
            Stage::Choosing => MENU,
            Stage::Entering(Scale::Fahrenheit) => ENTER_FAHRENHEIT,
            Stage::Entering(Scale::Celsius) => ENTER_CELSIUS,
        }
    }
}

/// The answer to the number of a menu entry, and what the session waits for
/// next: 1 and 2 ask for degrees Fahrenheit and Celsius, 3 shows the table,
/// and any other number is answered with the list of entries.
pub open spec fn menu_entry(choice: u8) -> (ReplyView, Option<Stage>) {
    if choice == 1 {
        (ReplyView::Ask(Scale::Fahrenheit), Some(Stage::Entering(Scale::Fahrenheit)))
    } else if choice == 2 {
        (ReplyView::Ask(Scale::Celsius), Some(Stage::Entering(Scale::Celsius)))
    } else if choice == 3 {
        (ReplyView::ShowTable, Some(Stage::Choosing))
    } else {
        (ReplyView::Remind, Some(Stage::Choosing))
    }
}

/// The answer to a line that was read for the menu. White space around the
/// entry does not count. `quit` and `exit` end the session; a whole number
/// from 0 to 255 is a menu entry; anything else is an invalid choice.
pub open spec fn choice_answer(line: Seq<char>) -> (ReplyView, Option<Stage>) {
    let entry = trimmed(line);
    if entry == "quit"@ || entry == "exit"@ {
        (ReplyView::Farewell, None)
    } else {
        match small_number(entry) {
            Some(choice) => menu_entry(choice),
            None => (ReplyView::Report(CommandError::InvalidChoice), Some(Stage::Choosing)),
        }
    }
}

/// The answer to a line that was read as degrees in `scale`. White space
/// around the entry does not count. Either way the menu comes next.
pub open spec fn degrees_answer(scale: Scale, line: Seq<char>) -> (ReplyView, Option<Stage>) {
    let entry = trimmed(line);
    if is_degree_text(entry) {
        (ReplyView::Convert(ReadingView { scale, degrees: entry }), Some(Stage::Choosing))
    } else {
        (ReplyView::Report(CommandError::InvalidDegrees(scale)), Some(Stage::Choosing))
    }
}

/// The answer to what was read at `stage`, and what the session waits for
/// next; `None` for that if the session is over. Where no line could be
/// read, `input` is `None`: that is reported, and the session is over.
pub open spec fn answer(stage: Stage, input: Option<Seq<char>>) -> (ReplyView, Option<Stage>) {
    match input {
        None => (ReplyView::Report(CommandError::InputReadFailure), None),
        Some(line) => match stage {
            Stage::Choosing => choice_answer(line),
            Stage::Entering(scale) => degrees_answer(scale, line),
        },
    }
}

/// The session ends in two ways only: by `quit` or `exit` where the menu
/// waits for an entry, and where no line could be read. After anything
/// else, errors included, it goes on.
pub proof fn lemma_session_ends(stage: Stage, input: Option<Seq<char>>)
    ensures
        answer(stage, input).1 is None <==> input is None || (stage is Choosing && (trimmed(
            input->0,
        ) == "quit"@ || trimmed(input->0) == "exit"@)),
        input is Some && answer(stage, input).1 is None ==> answer(stage, input).0
            == ReplyView::Farewell,
{
}

/// After degrees were read, the menu comes next, whatever was entered.
pub proof fn lemma_menu_follows_degrees(scale: Scale, line: Seq<char>)
    ensures
        answer(Stage::Entering(scale), Some(line)).1 == Some(Stage::Choosing),
{
}

/// Answers the number of a menu entry.
pub fn match_user_choice(choice: u8) -> (turn: (Reply, Option<Stage>))
    ensures
        (turn.0@, turn.1) == menu_entry(choice),
{
    match choice {
        1 => (Reply::Ask(Scale::Fahrenheit), Some(Stage::Entering(Scale::Fahrenheit))),
        2 => (Reply::Ask(Scale::Celsius), Some(Stage::Entering(Scale::Celsius))),
        3 => (Reply::ShowTable, Some(Stage::Choosing)),
        _ => (Reply::Remind, Some(Stage::Choosing)),
    }
}

/// Answers what was read at `stage`: the line as it was read, its end of
/// line included, or `None` where no line could be read.
pub fn step(stage: Stage, input: Option<&str>) -> (turn: (Reply, Option<Stage>))
    ensures
        (turn.0@, turn.1) == answer(stage, characters(input)),
{
    let line = match input {
        Some(line) => line,
        None => {
            return (Reply::Report(CommandError::InputReadFailure), None);
        },
    };
    let entry = trim(line);
    match stage {
        Stage::Choosing => {
            if same_text(entry, "quit") || same_text(entry, "exit") {
                (Reply::Farewell, None)
            } else {
                match parse_small_number(entry) {
                    Some(choice) => match_user_choice(choice),
                    None => (Reply::Report(CommandError::InvalidChoice), Some(Stage::Choosing)),
                }
            }
        },
        Stage::Entering(scale) => match Reading::new(scale, entry) {
            Some(reading) => (Reply::Convert(reading), Some(Stage::Choosing)),
            None => (Reply::Report(CommandError::InvalidDegrees(scale)), Some(Stage::Choosing)),
        },
    }
}

} // verus!
