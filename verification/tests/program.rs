use bawawa::{ErrorKind, Program};

#[test]
fn program_exists() {
    match Program::new("sh".to_owned()) {
        Err(error) => {
            println!("{:?}", error);
            panic!("The program does not seem to exist, we are expected it to");
        }
        Ok(_) => {
            // success
        }
    }
}

#[test]
fn program_does_not_exists() {
    let error = Program::new("the-impossible-program-that-does-not-exist".to_owned())
        .expect_err("program should not exist");

    match error.kind() {
        ErrorKind::InvalidProgramName(program) => {
            assert_eq!(program.as_str(), "the-impossible-program-that-does-not-exist")
        }
        _ => panic!("unexpected error: {}", error.cause()),
    }
}
