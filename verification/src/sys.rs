use vstd::prelude::*;

verus! {

#[verifier::external_type_specification]
#[verifier::external_body]
pub struct ExPipeReader(os_pipe::PipeReader);

#[verifier::external_type_specification]
#[verifier::external_body]
pub struct ExPipeWriter(os_pipe::PipeWriter);

#[verifier::external_type_specification]
#[verifier::external_body]
pub struct ExRuntime(tokio::runtime::Runtime);

#[verifier::external_type_specification]
#[verifier::external_body]
pub struct ExChild(tokio::process::Child);

/// Relies on tokio's current-thread runtime builder with I/O enabled: the
/// returned runtime can spawn child processes and wait for them.
#[verifier::external_body]
pub(crate) fn new_runtime() -> (r: Result<tokio::runtime::Runtime, String>) {
    match tokio::runtime::Builder::new_current_thread().enable_io().build() {
        Ok(rt) => Ok(rt),
        Err(e) => Err(e.to_string()),
    }
}

/// Relies on os_pipe::pipe: creates one pipe and hands back its read and
/// write ends.
#[verifier::external_body]
pub(crate) fn make_pipe() -> (r: Result<(os_pipe::PipeReader, os_pipe::PipeWriter), String>) {
    match os_pipe::pipe() {
        Ok((reader, writer)) => Ok((reader, writer)),
        Err(e) => Err(e.to_string()),
    }
}

/// Relies on tokio::process::Command: spawns the program with the given
/// working directory and arguments, wiring the three standard streams to the
/// given pipe ends, with kill-on-drop set so that dropping the returned
/// Child sends the forced-termination signal if the process still runs. The
/// returned id is the OS-assigned process identifier.
#[verifier::external_body]
pub(crate) fn spawn_child(
    rt: &tokio::runtime::Runtime,
    program: &String,
    cwd: &Option<String>,
    args: &Vec<String>,
    child_stdin: os_pipe::PipeReader,
    child_stdout: os_pipe::PipeWriter,
    child_stderr: os_pipe::PipeWriter,
) -> (r: Result<(tokio::process::Child, u32), String>) {
    let _guard = rt.enter();
    let mut cmd = tokio::process::Command::new(program);
    if let Some(dir) = cwd {
        cmd.current_dir(dir);
    }
    cmd.args(args).stdin(child_stdin).stdout(child_stdout).stderr(child_stderr).kill_on_drop(true);
    match cmd.spawn() {
        Ok(child) => match child.id() {
            Some(id) => Ok((child, id)),
            None => Err("spawned process was already reaped".to_string()),
        },
        Err(e) => Err(e.to_string()),
    }
}

/// Relies on tokio::process::Child::start_kill: sends the forced-termination
/// signal (SIGKILL on unix) without waiting; trivially succeeds if the child
/// was already reaped.
#[verifier::external_body]
pub(crate) fn child_kill(child: &mut tokio::process::Child) -> (r: Result<(), String>) {
    match child.start_kill() {
        Ok(()) => Ok(()),
        Err(e) => Err(e.to_string()),
    }
}

/// Relies on tokio::process::Child::wait driven by Runtime::block_on: blocks
/// until the process exits and returns its exit code, `None` when a signal
/// terminated it.
#[verifier::external_body]
pub(crate) fn child_wait(
    rt: &tokio::runtime::Runtime,
    child: &mut tokio::process::Child,
) -> (r: Result<Option<i32>, String>) {
    match rt.block_on(child.wait()) {
        Ok(status) => Ok(status.code()),
        Err(e) => Err(e.to_string()),
    }
}

/// Relies on std::io::Read::read on an os_pipe::PipeReader: blocks until
/// bytes arrive (returned), every write end has closed (empty result), or an
/// I/O error occurs.
#[verifier::external_body]
pub(crate) fn read_chunk(reader: &mut os_pipe::PipeReader) -> (r: Result<Vec<u8>, String>) {
    let mut buf = vec![0u8; 4096];
    match std::io::Read::read(reader, &mut buf) {
        Ok(n) => {
            buf.truncate(n);
            Ok(buf)
        },
        Err(e) => Err(e.to_string()),
    }
}

/// Relies on std::io::Write::write_all on an os_pipe::PipeWriter: on success
/// the whole buffer was handed to the OS pipe.
#[verifier::external_body]
pub(crate) fn write_all_bytes(writer: &mut os_pipe::PipeWriter, bytes: &Vec<u8>) -> (r: Result<
    (),
    String,
>) {
    match std::io::Write::write_all(writer, bytes.as_slice()) {
        Ok(()) => Ok(()),
        Err(e) => Err(e.to_string()),
    }
}

/// Relies on std::io::Write::flush on an os_pipe::PipeWriter.
#[verifier::external_body]
pub(crate) fn flush_writer(writer: &mut os_pipe::PipeWriter) -> (r: Result<(), String>) {
    match std::io::Write::flush(writer) {
        Ok(()) => Ok(()),
        Err(e) => Err(e.to_string()),
    }
}

} // verus!
