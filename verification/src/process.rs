use vstd::prelude::*;
use crate::command::Command;
use crate::command::CommandView;
use crate::control::{Control, StandardError, StandardInput, StandardOutput};
use crate::errors::{Error, ErrorKind};
use crate::sys::{child_kill, child_wait, make_pipe, new_runtime, spawn_child};

verus! {

/// One live operating-system process together with the pipe endpoints of its
/// three standard streams, all of which are created in pipe mode.
///
/// The spawning command is retained for diagnostics. Each pipe endpoint can
/// be extracted at most once; the adapters built around a process take the
/// endpoint they need and forward the remaining capabilities.
///
/// Dropping a `Process` — or any adapter that transitively owns it — drops
/// the child handle, which kills the process if it is still running (see
/// `spawn_child`).
pub struct Process {
    command: Command,
    id: u32,
    runtime: tokio::runtime::Runtime,
    child: tokio::process::Child,
    stdin: Option<os_pipe::PipeWriter>,
    stdout: Option<os_pipe::PipeReader>,
    stderr: Option<os_pipe::PipeReader>,
}

impl Process {
    /// Attempt to run the given command. On success all three stream
    /// capabilities are present on the returned process.
    pub fn spawn(command: Command) -> (r: Result<Process, Error>)
        ensures
            r matches Ok(p) ==> (p.spec_command() == command@ && p.has_stdin_cap()
                && p.has_stdout_cap() && p.has_stderr_cap()),
            r matches Err(e) ==> (e.kind matches ErrorKind::CannotSpawnCommand(c) && c@
                == command@),
    {
        let rt = match new_runtime() {
            Ok(v) => v,
            Err(cause) => {
                return Err(Error { kind: ErrorKind::CannotSpawnCommand(command), cause });
            },
        };
        let (in_r, in_w) = match make_pipe() {
            Ok(v) => v,
            Err(cause) => {
                return Err(Error { kind: ErrorKind::CannotSpawnCommand(command), cause });
            },
        };
        let (out_r, out_w) = match make_pipe() {
            Ok(v) => v,
            Err(cause) => {
                return Err(Error { kind: ErrorKind::CannotSpawnCommand(command), cause });
            },
        };
        let (err_r, err_w) = match make_pipe() {
            Ok(v) => v,
            Err(cause) => {
                return Err(Error { kind: ErrorKind::CannotSpawnCommand(command), cause });
            },
        };
        let spawned = spawn_child(
            &rt,
            &command.program.name,
            &command.current_working_directory,
            &command.arguments,
            in_r,
            out_w,
            err_w,
        );
        match spawned {
            Ok((child, id)) => Ok(
                Process {
                    command,
                    id,
                    runtime: rt,
                    child,
                    stdin: Some(in_w),
                    stdout: Some(out_r),
                    stderr: Some(err_r),
                },
            ),
            Err(cause) => Err(Error { kind: ErrorKind::CannotSpawnCommand(command), cause }),
        }
    }

    /// Wait for the process to exit and hand back its exit code, `None` when
    /// a signal terminated it.
    pub fn wait_exit(&mut self) -> (r: Result<Option<i32>, Error>)
        ensures
            final(self).spec_command() == old(self).spec_command(),
            final(self).spec_id() == old(self).spec_id(),
            final(self).has_stdin_cap() == old(self).has_stdin_cap(),
            final(self).has_stdout_cap() == old(self).has_stdout_cap(),
            final(self).has_stderr_cap() == old(self).has_stderr_cap(),
            r matches Err(e) ==> (e.kind matches ErrorKind::Poll(c) && c@ == old(
                self,
            ).spec_command()),
    {
        match child_wait(&self.runtime, &mut self.child) {
            Ok(code) => Ok(code),
            Err(cause) => Err(Error { kind: ErrorKind::Poll(self.command.clone()), cause }),
        }
    }
}

impl Control for Process {
    closed spec fn spec_command(&self) -> CommandView {
        self.command@
    }

    closed spec fn spec_id(&self) -> u32 {
        self.id
    }

    closed spec fn has_stdin_cap(&self) -> bool {
        self.stdin is Some
    }

    closed spec fn has_stdout_cap(&self) -> bool {
        self.stdout is Some
    }

    closed spec fn has_stderr_cap(&self) -> bool {
        self.stderr is Some
    }

    fn command(&self) -> (r: &Command) {
        &self.command
    }

    fn id(&self) -> (r: u32) {
        self.id
    }

    fn kill(&mut self) -> (r: Result<(), Error>) {
        match child_kill(&mut self.child) {
            Ok(()) => Ok(()),
            Err(cause) => Err(
                Error {
                    kind: ErrorKind::CannotKillProcess(self.command.clone(), self.id),
                    cause,
                },
            ),
        }
    }
}

impl StandardInput for Process {
    fn take_stdin_pipe(&mut self) -> (r: Option<os_pipe::PipeWriter>) {
        self.stdin.take()
    }
}

impl StandardOutput for Process {
    fn take_stdout_pipe(&mut self) -> (r: Option<os_pipe::PipeReader>) {
        self.stdout.take()
    }
}

impl StandardError for Process {
    fn take_stderr_pipe(&mut self) -> (r: Option<os_pipe::PipeReader>) {
        self.stderr.take()
    }
}

} // verus!
