use vstd::prelude::*;
use vstd::string::StringExecFns;
use crate::control::Control;
use crate::errors::{Error, ErrorKind};
use crate::process::Process;
use crate::program::Program;

verus! {

/// The mathematical content of a `Command`: the optional working directory,
/// the program name and the ordered arguments, all as character sequences.
#[verifier::ext_equal]
pub ghost struct CommandView {
    pub cwd: Option<Seq<char>>,
    pub program: Seq<char>,
    pub arguments: Seq<Seq<char>>,
}

/// The text a working directory contributes to the command's display form.
pub open spec fn cwd_text(cwd: Option<Seq<char>>) -> Seq<char> {
    match cwd {
        Some(d) => "CWD="@ + d + " "@,
        None => Seq::empty(),
    }
}

/// The text a command's arguments contribute to its display form: each one
/// preceded by one space.
pub open spec fn arguments_text(args: Seq<Seq<char>>) -> Seq<char>
    decreases args.len(),
{
    if args.len() == 0 {
        Seq::empty()
    } else {
        " "@ + args[0] + arguments_text(args.drop_first())
    }
}

proof fn lemma_arguments_text_push(args: Seq<Seq<char>>, x: Seq<char>)
    ensures
        arguments_text(args.push(x)) == arguments_text(args) + " "@ + x,
    decreases args.len(),
{
    if args.len() == 0 {
        assert(args.push(x).drop_first() =~= Seq::<Seq<char>>::empty());
        assert(args.push(x)[0] == x);
        assert(" "@ + x + arguments_text(Seq::<Seq<char>>::empty()) =~= arguments_text(args)
            + " "@ + x);
    } else {
        assert(args.push(x).drop_first() =~= args.drop_first().push(x));
        assert(args.push(x)[0] == args[0]);
        lemma_arguments_text_push(args.drop_first(), x);
        assert(" "@ + args[0] + (arguments_text(args.drop_first()) + " "@ + x) =~= (" "@ + args[0]
            + arguments_text(args.drop_first())) + " "@ + x);
    }
}

/// A command line: the program, its ordered arguments and an optional
/// working directory, kept as plain readable values so it can be shown in
/// diagnostics and retained in errors.
///
/// A command is not active; spawning it yields a `Process`.
#[derive(Debug)]
pub struct Command {
    pub current_working_directory: Option<String>,
    pub program: Program,
    pub arguments: Vec<String>,
}

impl View for Command {
    type V = CommandView;

    open spec fn view(&self) -> CommandView {
        CommandView {
            cwd: match self.current_working_directory {
                Some(d) => Some(d@),
                None => None,
            },
            program: self.program@,
            arguments: self.arguments.deep_view(),
        }
    }
}

impl Command {
    /// Create a new command with no arguments, executed in the current
    /// working directory.
    pub fn new(program: Program) -> (r: Command)
        ensures
            r@.cwd is None,
            r@.program == program@,
            r@.arguments == Seq::<Seq<char>>::empty(),
    {
        let r = Command { current_working_directory: None, program, arguments: Vec::new() };
        proof {
            assert(r@.arguments =~= Seq::<Seq<char>>::empty());
        }
        r
    }

    /// Set the working directory: the directory in which the command will
    /// be executed.
    pub fn current_working_directory(&mut self, cwd: String)
        ensures
            final(self)@.cwd == Some(cwd@),
            final(self)@.program == old(self)@.program,
            final(self)@.arguments == old(self)@.arguments,
    {
        self.current_working_directory = Some(cwd);
    }

    /// Append one argument to the command.
    pub fn argument(&mut self, argument: String)
        ensures
            final(self)@.arguments == old(self)@.arguments.push(argument@),
            final(self)@.program == old(self)@.program,
            final(self)@.cwd == old(self)@.cwd,
    {
        self.arguments.push(argument);
        proof {
            assert(self@.arguments =~= old(self)@.arguments.push(argument@));
        }
    }

    /// Append all the given arguments to the command, in order.
    pub fn arguments(&mut self, arguments: &Vec<String>)
        ensures
            final(self)@.arguments == old(self)@.arguments + arguments.deep_view(),
            final(self)@.program == old(self)@.program,
            final(self)@.cwd == old(self)@.cwd,
    {
        let n = arguments.len();
        let mut i: usize = 0;
        while i < n
            invariant
                i <= n,
                n == arguments.len(),
                self@.arguments == old(self)@.arguments + arguments.deep_view().take(i as int),
                self@.program == old(self)@.program,
                self@.cwd == old(self)@.cwd,
            decreases n - i,
        {
            let ghost before = self@.arguments;
            let arg = arguments[i].clone();
            proof {
                assert(arg@ == arguments.deep_view()[i as int]);
            }
            self.arguments.push(arg);
            i = i + 1;
            proof {
                assert(self@.arguments =~= before.push(arg@));
                assert(old(self)@.arguments + arguments.deep_view().take(i as int) =~= (old(
                    self,
                )@.arguments + arguments.deep_view().take(i as int - 1)).push(
                    arguments.deep_view()[i as int - 1],
                ));
            }
        }
        proof {
            assert(arguments.deep_view().take(n as int) =~= arguments.deep_view());
        }
    }

    /// The command line as text: the working directory first when one is
    /// set, then the program, then each argument, space-separated.
    pub open spec fn display_text(&self) -> Seq<char> {
        cwd_text(self@.cwd) + self@.program + arguments_text(self@.arguments)
    }

    /// Render the command for diagnostics, exactly as `display_text` says.
    pub fn display_string(&self) -> (r: String)
        ensures
            r@ == self.display_text(),
    {
        let mut out = String::new();
        match &self.current_working_directory {
            Some(d) => {
                out.append("CWD=");
                out.append(d.as_str());
                out.append(" ");
                proof {
                    assert(out@ =~= cwd_text(self@.cwd));
                }
            },
            None => {
                proof {
                    assert(out@ =~= cwd_text(self@.cwd));
                }
            },
        }
        out.append(self.program.as_str());
        let n = self.arguments.len();
        let mut i: usize = 0;
        while i < n
            invariant
                i <= n,
                n == self.arguments.len(),
                out@ == cwd_text(self@.cwd) + self@.program + arguments_text(
                    self@.arguments.take(i as int),
                ),
            decreases n - i,
        {
            let ghost before = self@.arguments.take(i as int);
            out.append(" ");
            out.append(self.arguments[i].as_str());
            proof {
                assert(self.arguments[i as int]@ == self@.arguments[i as int]);
            }
            i = i + 1;
            proof {
                lemma_arguments_text_push(before, self@.arguments[i as int - 1]);
                assert(self@.arguments.take(i as int) =~= before.push(
                    self@.arguments[i as int - 1],
                ));
                assert(out@ =~= cwd_text(self@.cwd) + self@.program + arguments_text(
                    self@.arguments.take(i as int),
                ));
            }
        }
        proof {
            assert(self@.arguments.take(n as int) =~= self@.arguments);
        }
        out
    }

    /// Spawn the command into a new process. The command itself stays
    /// usable: a copy is handed to the process for diagnostics.
    pub fn spawn(&self) -> (r: Result<Process, Error>)
        ensures
            r matches Ok(p) ==> (p.spec_command() == self@ && p.has_stdin_cap()
                && p.has_stdout_cap() && p.has_stderr_cap()),
            r matches Err(e) ==> (e.kind matches ErrorKind::CannotSpawnCommand(c) && c@ == self@),
    {
        Process::spawn(self.clone())
    }
}

impl Clone for Command {
    fn clone(&self) -> (r: Self)
        ensures
            r@ == self@,
    {
        let cwd = match &self.current_working_directory {
            Some(d) => Some(d.clone()),
            None => None,
        };
        let mut args: Vec<String> = Vec::new();
        let n = self.arguments.len();
        let mut i: usize = 0;
        while i < n
            invariant
                i <= n,
                n == self.arguments.len(),
                args.deep_view() == self.arguments.deep_view().take(i as int),
            decreases n - i,
        {
            let ghost before = args.deep_view();
            let arg = self.arguments[i].clone();
            proof {
                assert(arg@ == self.arguments.deep_view()[i as int]);
            }
            args.push(arg);
            i = i + 1;
            proof {
                assert(args.deep_view() =~= before.push(arg@));
                assert(self.arguments.deep_view().take(i as int) =~= self.arguments.deep_view()
                    .take(i as int - 1).push(self.arguments.deep_view()[i as int - 1]));
            }
        }
        let r = Command {
            current_working_directory: cwd,
            program: self.program.clone(),
            arguments: args,
        };
        proof {
            assert(self.arguments.deep_view().take(n as int) =~= self.arguments.deep_view());
            assert(r@ =~= self@);
        }
        r
    }
}

} // verus!
