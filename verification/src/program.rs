use vstd::prelude::*;
use crate::command::Command;
use crate::errors::{Error, ErrorKind};
use crate::process::Process;

verus! {

/// A program name or path, as handed to the operating system when spawning.
///
/// `Program::new` probes the environment before returning, so a value built
/// through it is believed to name a runnable executable; `new_unchecked`
/// skips the probe.
#[derive(Debug)]
pub struct Program {
    pub name: String,
}

impl View for Program {
    type V = Seq<char>;

    open spec fn view(&self) -> Seq<char> {
        self.name@
    }
}

impl Program {
    /// Create a program reference without checking that the program exists
    /// or that we have permission to execute it.
    pub fn new_unchecked(program: String) -> (r: Program)
        ensures
            r.name == program,
    {
        Program { name: program }
    }

    /// The program name as text.
    pub fn as_str(&self) -> (r: &str)
        ensures
            r@ == self.name@,
    {
        self.name.as_str()
    }

    /// Decide validation from the probe's outcome: a probe that spawned
    /// makes the program valid — the probe's own exit code is never
    /// consulted — and one that did not spawn makes the name invalid.
    /// Consumes the probe handle, which terminates the probe process if it
    /// is still running.
    pub fn from_probe(program: Program, probe: Result<Process, Error>) -> (r: Result<
        Program,
        Error,
    >)
        ensures
            probe matches Ok(_) ==> (r matches Ok(p) && p == program),
            probe matches Err(_) ==> (r matches Err(e) && e.kind
                matches ErrorKind::InvalidProgramName(q) && q == program),
    {
        match probe {
            Ok(_probe_process) => Ok(program),
            Err(e) => Err(Error { kind: ErrorKind::InvalidProgramName(program), cause: e.cause }),
        }
    }

    /// Create a new `Program` from the given name, checking that it can
    /// actually be spawned before returning it.
    ///
    /// The check is an observable probe: the program is spawned once with a
    /// harmless flag and the probe process is terminated right away. Whether
    /// the probe itself exits well or badly plays no part: only whether it
    /// could be spawned.
    pub fn new(program: String) -> (r: Result<Program, Error>)
        ensures
            r matches Ok(p) ==> p@ == program@,
            r matches Err(e) ==> (e.kind matches ErrorKind::InvalidProgramName(q) && q@
                == program@),
    {
        let prog = Program::new_unchecked(program);
        let mut cmd = Command::new(prog.clone());
        cmd.argument("--help".to_owned());
        let probe = cmd.spawn();
        Program::from_probe(prog, probe)
    }
}

impl Clone for Program {
    fn clone(&self) -> (r: Self)
        ensures
            r == *self,
    {
        Program { name: self.name.clone() }
    }
}

} // verus!
