//! The usage text.

use crate::text::characters;
use vstd::prelude::*;

verus! {

/// The usage text that is built in, for a program called `program`: the
/// commands, each with what it does.
pub open spec fn builtin_usage(program: Seq<char>) -> Seq<char> {
    "Valid commands\n\n"@ + program
        + " ftoc degrees_fahrenheit\n\tConvert given degrees Fahrenheit to Celsius\n\n"@ + program
        + " ctof degrees_celsius\n\tConvert given degrees Celsius to Fahrenheit\n\n"@ + program
        + " table\n\tPrint a list of common conversions\n\n"@ + program
        + " interactive\n\tRun interactive program\n\n"@ + program
        + " help or usage\n\tThis help message\n"@
}

/// The usage text to show: `external` with an end of line, where there is
/// one, and else the text that is built in.
pub open spec fn usage_text(program: Seq<char>, external: Option<Seq<char>>) -> Seq<char> {
    match external {
        Some(text) => text + "\n"@,
        None => builtin_usage(program),
    }
}

/// The usage text for a program called `program`. `external` is a text
/// that is to be shown in place of the one built in, if there is one.
pub fn usage(program: &str, external: Option<&str>) -> (text: String)
    ensures
        text@ == usage_text(program@, characters(external)),
{
    match external {
        Some(given) => {
            let mut text = String::from_str(given);
            text.append("\n");
            text
        },
        None => {
            let mut text = String::from_str("Valid commands\n\n");
            text.append(program);
            text.append(
                " ftoc degrees_fahrenheit\n\tConvert given degrees Fahrenheit to Celsius\n\n",
            );
            text.append(program);
            text.append(" ctof degrees_celsius\n\tConvert given degrees Celsius to Fahrenheit\n\n");
            text.append(program);
            text.append(" table\n\tPrint a list of common conversions\n\n");
            text.append(program);
            text.append(" interactive\n\tRun interactive program\n\n");
            text.append(program);
            text.append(" help or usage\n\tThis help message\n");
            text
        },
    }
}

} // verus!
