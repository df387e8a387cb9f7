//! A command as it is given on the command line.

use crate::error::CommandError;
use vstd::prelude::*;

verus! {

/// A command's name and the degrees that came with it, both as given.
/// Neither is checked here.
#[derive(Debug, PartialEq, Eq)]
pub struct Command {
    pub command: String,
    pub degrees: String,
}

/// What a `Command` stands for.
pub struct CommandView {
    pub command: Seq<char>,
    pub degrees: Seq<char>,
}

impl View for Command {
    type V = CommandView;

    open spec fn view(&self) -> CommandView {
        CommandView { command: self.command@, degrees: self.degrees@ }
    }
}

impl Clone for Command {
    fn clone(&self) -> (copy: Command)
        ensures
            copy@ == self@,
    {
        Command { command: self.command.clone(), degrees: self.degrees.clone() }
    }
}

/// The command that an argument list asks for. The list begins with the
/// program's name. Alone, that asks for the usage text; one more text is the
/// command's name, and a third one its degrees.
pub open spec fn parsed(args: Seq<Seq<char>>) -> Result<CommandView, CommandError> {
    if args.len() == 1 {
        Ok(CommandView { command: "usage"@, degrees: Seq::empty() })
    } else if args.len() == 2 {
        Ok(CommandView { command: args[1], degrees: Seq::empty() })
    } else if args.len() == 3 {
        Ok(CommandView { command: args[1], degrees: args[2] })
    } else {
        Err(CommandError::WrongArgumentCount)
    }
}

impl Command {
    /// Reads a command from the argument list of the program, its own name
    /// included.
    pub fn new(args: &[String]) -> (command: Result<Command, CommandError>)
        ensures
            match parsed(args.deep_view()) {
                Ok(view) => command matches Ok(c) && c@ == view,
                Err(error) => command == Err::<Command, CommandError>(error),
            },
    {
        match args.len() {
            1 => Ok(Command { command: String::from_str("usage"), degrees: String::new() }),
            2 => Ok(Command { command: args[1].clone(), degrees: String::new() }),
            3 => Ok(Command { command: args[1].clone(), degrees: args[2].clone() }),
            _ => Err(CommandError::WrongArgumentCount),
        }
    }
}

} // verus!
