use bawawa::{Command, Program};

#[test]
fn command_collects_arguments_in_order() {
    let mut cmd = Command::new(Program::new_unchecked("tool".to_owned()));
    cmd.argument("--first".to_owned());
    cmd.arguments(&vec!["--second".to_owned(), "--third".to_owned()]);

    assert_eq!(
        cmd.arguments,
        vec!["--first".to_owned(), "--second".to_owned(), "--third".to_owned()]
    );
    assert_eq!(cmd.program.as_str(), "tool");
    assert!(cmd.current_working_directory.is_none());
}

#[test]
fn command_sets_working_directory() {
    let mut cmd = Command::new(Program::new_unchecked("tool".to_owned()));
    cmd.current_working_directory("/tmp".to_owned());
    assert_eq!(cmd.current_working_directory, Some("/tmp".to_owned()));
}

#[test]
fn command_clone_preserves_content() {
    let mut cmd = Command::new(Program::new_unchecked("tool".to_owned()));
    cmd.current_working_directory("/tmp".to_owned());
    cmd.argument("--flag".to_owned());
    let copy = cmd.clone();
    assert_eq!(copy.program.as_str(), cmd.program.as_str());
    assert_eq!(copy.current_working_directory, cmd.current_working_directory);
    assert_eq!(copy.arguments, cmd.arguments);
}

#[test]
fn command_displays_all_parts() {
    let mut cmd = Command::new(Program::new_unchecked("tool".to_owned()));
    assert_eq!(cmd.display_string(), "tool");

    cmd.argument("--first".to_owned());
    cmd.argument("--second".to_owned());
    assert_eq!(cmd.display_string(), "tool --first --second");

    cmd.current_working_directory("/tmp".to_owned());
    assert_eq!(cmd.display_string(), "CWD=/tmp tool --first --second");
}

#[test]
fn program_new_unchecked_keeps_name() {
    let prog = Program::new_unchecked("anything".to_owned());
    assert_eq!(prog.as_str(), "anything");
}
