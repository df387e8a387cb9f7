use temperature_converter::command::Command;
use temperature_converter::error::CommandError;

fn texts(items: &[&str]) -> Vec<String> {
    items.iter().map(|item| item.to_string()).collect()
}

#[test]
fn test_new_command() -> Result<(), CommandError> {
    let args: Vec<String> = vec![String::from("test")];
    Command::new(&args)?;
    Ok(())
}

#[test]
fn program_name_alone_asks_for_usage() {
    let command = Command::new(&texts(&["prog"])).unwrap();
    assert_eq!(command.command, "usage");
    assert_eq!(command.degrees, "");
}

#[test]
fn one_argument_is_the_name() {
    let command = Command::new(&texts(&["prog", "table"])).unwrap();
    assert_eq!(command.command, "table");
    assert_eq!(command.degrees, "");
}

#[test]
fn two_arguments_are_name_and_degrees() {
    let command = Command::new(&texts(&["prog", "ftoc", "32"])).unwrap();
    assert_eq!(command, Command { command: "ftoc".to_string(), degrees: "32".to_string() });
}

#[test]
fn name_and_degrees_are_not_checked() {
    let command = Command::new(&texts(&["prog", "no such thing", " x "])).unwrap();
    assert_eq!(command.command, "no such thing");
    assert_eq!(command.degrees, " x ");
}

#[test]
fn three_arguments_are_too_many() {
    let outcome = Command::new(&texts(&["prog", "a", "b", "c"]));
    assert_eq!(outcome, Err(CommandError::WrongArgumentCount));
}

#[test]
fn no_argument_at_all_is_refused() {
    let outcome = Command::new(&[]);
    assert_eq!(outcome, Err(CommandError::WrongArgumentCount));
}

#[test]
fn a_copy_holds_the_same_texts() {
    let command = Command::new(&texts(&["prog", "ctof", "-40"])).unwrap();
    assert_eq!(command.clone(), command);
}
