use bawawa::{
    Capture, Command, Control, ErrorKind, Inject, LinesCodec, Process, Produce, Program,
    SendStdin, StandardOutput,
};

fn spawn_args(program: &str, args: &[&str]) -> Process {
    let prog = Program::new(program.to_owned()).expect("program should exist");
    let mut cmd = Command::new(prog);
    for arg in args {
        cmd.argument((*arg).to_owned());
    }
    Process::spawn(cmd).expect("spawn should succeed")
}

/// What /proc reports about the process, read through a fresh shell so the
/// test itself does no file I/O. After a kill the entry either shows a
/// zombie or is gone altogether.
fn process_state(id: u32) -> String {
    let process = spawn_args("sh", &["-c", &format!("cat /proc/{}/status 2>&1 || true", id)]);
    let mut captured = Capture::new_stdout(process, LinesCodec::new());
    let mut all = String::new();
    while let Some(item) = captured.next_item() {
        match item {
            Ok(line) => {
                all.push_str(&line);
                all.push('\n');
            }
            Err(_) => break,
        }
    }
    all
}

#[test]
fn echo_stdout_single_line() {
    let process = spawn_args("echo", &["Hello World!"]);
    let mut captured = Capture::new_stdout(process, LinesCodec::new());

    match captured.next_item() {
        Some(Ok(line)) => assert_eq!(line, "Hello World!"),
        other => panic!("expected exactly one line, got {:?}", other),
    }
    assert!(captured.next_item().is_none());
    assert!(captured.next_item().is_none());
}

#[test]
fn cat_missing_file_stderr() {
    let process = spawn_args("cat", &["missing-file"]);
    let mut captured = Capture::new_stderr(process, LinesCodec::new());

    let line = match captured.next_item() {
        Some(Ok(line)) => line,
        other => panic!("expected exactly one diagnostic line, got {:?}", other),
    };
    assert!(line.contains("o such file"), "unexpected diagnostic: {}", line);
    assert!(captured.next_item().is_none());
}

#[test]
fn unix_cat_stdin_stdout() {
    let process = spawn_args("cat", &[]);
    let captured = Capture::new_stdout(process, LinesCodec::new());
    let mut chain = SendStdin::new(captured, LinesCodec::new());

    chain.send_item(&"Hello World!".to_owned()).expect("send should succeed");
    match chain.next_item() {
        Some(Ok(line)) => assert_eq!(line, "Hello World!"),
        other => panic!("expected the first line back, got {:?}", other),
    }

    chain.send_item(&"Bawawa".to_owned()).expect("send should succeed");
    match chain.next_item() {
        Some(Ok(line)) => assert_eq!(line, "Bawawa"),
        other => panic!("expected the second line back, got {:?}", other),
    }
}

#[test]
fn teardown_kills_process_on_drop() {
    let process = spawn_args("sleep", &["60"]);
    let id = process.id();
    drop(process);

    let state = process_state(id);
    assert!(
        state.contains("zombie") || state.contains("o such file") || state.is_empty(),
        "process still alive:\n{}",
        state
    );
}

#[test]
fn teardown_kills_process_when_adapter_chain_dropped() {
    let process = spawn_args("sleep", &["60"]);
    let id = process.id();
    let captured = Capture::new_stdout(process, LinesCodec::new());
    let chain = Capture::new_stderr(captured, LinesCodec::new());
    drop(chain);

    let state = process_state(id);
    assert!(
        state.contains("zombie") || state.contains("o such file") || state.is_empty(),
        "process still alive:\n{}",
        state
    );
}

#[test]
fn kill_then_wait_reports_signal_exit() {
    let mut process = spawn_args("sleep", &["60"]);
    process.kill().expect("kill should succeed");
    let code = process.wait_exit().expect("wait should succeed");
    assert_eq!(code, None);
}

#[test]
fn exit_code_of_finished_process() {
    let mut process = spawn_args("sh", &["-c", "exit 7"]);
    let code = process.wait_exit().expect("wait should succeed");
    assert_eq!(code, Some(7));
}

#[test]
fn spawn_error_carries_command() {
    let prog = Program::new_unchecked("the-impossible-program-that-does-not-exist".to_owned());
    let cmd = Command::new(prog);
    let error = match Process::spawn(cmd) {
        Err(e) => e,
        Ok(_) => panic!("spawn should fail"),
    };
    match error.kind() {
        ErrorKind::CannotSpawnCommand(c) => {
            assert_eq!(c.program.as_str(), "the-impossible-program-that-does-not-exist")
        }
        _ => panic!("unexpected error kind: {:?}", error),
    }
}

#[test]
fn capture_error_on_invalid_utf8() {
    let process = spawn_args("sh", &["-c", "printf '\\377\\n'"]);
    let mut captured = Capture::new_stdout(process, LinesCodec::new());

    match captured.next_item() {
        Some(Err(error)) => match error.kind() {
            ErrorKind::Capture(_) => {}
            _ => panic!("unexpected error kind: {:?}", error),
        },
        other => panic!("expected a capture error, got {:?}", other),
    }
    // a failed decode ends the sequence
    assert!(captured.next_item().is_none());
}

#[test]
fn send_stdin_rejects_item_with_separator() {
    let process = spawn_args("cat", &[]);
    let mut chain = SendStdin::new(process, LinesCodec::new());
    let error = chain.send_item(&"two\nlines".to_owned()).expect_err("item should be rejected");
    match error.kind() {
        ErrorKind::SendStdin(_) => {}
        _ => panic!("unexpected error kind: {:?}", error),
    }
}

#[test]
fn composed_chain_forwards_control_and_streams() {
    let process = spawn_args("cat", &[]);
    let id = process.id();
    let errs = Capture::new_stderr(process, LinesCodec::new());
    let outs = Capture::new_stdout(errs, LinesCodec::new());
    let mut chain = SendStdin::new(outs, LinesCodec::new());

    assert_eq!(chain.id(), id);
    assert_eq!(chain.command().program.as_str(), "cat");

    chain.send_item(&"ping".to_owned()).expect("send should succeed");
    chain.flush().expect("flush should succeed");
    match chain.next_item() {
        Some(Ok(line)) => assert_eq!(line, "ping"),
        other => panic!("expected the line back, got {:?}", other),
    }

    chain.kill().expect("kill through the chain should succeed");
}

#[test]
fn send_through_outer_capture_layer() {
    let process = spawn_args("cat", &[]);
    let sender = SendStdin::new(process, LinesCodec::new());
    let mut chain = Capture::new_stdout(sender, LinesCodec::new());

    chain.send_item(&"ping".to_owned()).expect("send should succeed");
    match chain.next_item() {
        Some(Ok(line)) => assert_eq!(line, "ping"),
        other => panic!("expected the line back, got {:?}", other),
    }
}

#[test]
fn stream_pipe_is_extracted_exactly_once() {
    let mut process = spawn_args("cat", &[]);
    assert!(process.take_stdout_pipe().is_some());
    assert!(process.take_stdout_pipe().is_none());
    let _ = process.kill();
}

#[test]
fn spawn_respects_working_directory() {
    let prog = Program::new("sh".to_owned()).expect("sh should exist");
    let mut cmd = Command::new(prog);
    cmd.current_working_directory("/tmp".to_owned());
    cmd.argument("-c".to_owned());
    cmd.argument("pwd".to_owned());
    let process = Process::spawn(cmd).expect("spawn should succeed");
    let mut captured = Capture::new_stdout(process, LinesCodec::new());
    match captured.next_item() {
        Some(Ok(line)) => assert_eq!(line, "/tmp"),
        other => panic!("expected the working directory, got {:?}", other),
    }
}
