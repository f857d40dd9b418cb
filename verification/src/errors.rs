use vstd::prelude::*;
use crate::command::Command;
use crate::program::Program;

verus! {

/// What went wrong, together with the command or program it concerns.
#[derive(Debug)]
pub enum ErrorKind {
    /// The existence probe could not spawn the named program.
    InvalidProgramName(Program),
    /// The operating system refused to spawn the command.
    CannotSpawnCommand(Command),
    /// The kill signal could not be delivered to the running process.
    CannotKillProcess(Command, u32),
    /// Waiting for the process to finish failed.
    Poll(Command),
    /// Decoding or reading a captured output stream failed.
    Capture(Command),
    /// Encoding or writing to the standard input failed.
    SendStdin(Command),
}

/// An error of this library: a kind plus the underlying cause, kept as text
/// for diagnostics.
#[derive(Debug)]
pub struct Error {
    pub kind: ErrorKind,
    pub cause: String,
}

impl Error {
    pub fn kind(&self) -> (r: &ErrorKind)
        ensures
            r == &self.kind,
    {
        &self.kind
    }

    pub fn cause(&self) -> (r: &String)
        ensures
            r == &self.cause,
    {
        &self.cause
    }
}

} // verus!
