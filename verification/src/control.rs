use vstd::prelude::*;
use crate::command::{Command, CommandView};
use crate::errors::Error;
use crate::errors::ErrorKind;

verus! {

/// Control over a spawned process through any layer of adapters: read the
/// command line, read the process identifier, or kill the process.
///
/// The three `has_*_cap` spec functions say which stream capabilities are
/// still reachable through the value: each one is consumed by at most one
/// adapter in a chain and, once consumed, is absent from every wrapper built
/// on top.
pub trait Control: Sized {
    /// The command this process was spawned from.
    spec fn spec_command(&self) -> CommandView;

    /// The OS-assigned process identifier.
    spec fn spec_id(&self) -> u32;

    /// Whether the stdin-injection capability is still reachable here.
    spec fn has_stdin_cap(&self) -> bool;

    /// Whether the stdout-capture capability is still reachable here.
    spec fn has_stdout_cap(&self) -> bool;

    /// Whether the stderr-capture capability is still reachable here.
    spec fn has_stderr_cap(&self) -> bool;

    /// Access the underlying command settings.
    fn command(&self) -> (r: &Command)
        ensures
            r@ == self.spec_command(),
    ;

    /// Retrieve the process identifier of the running program.
    fn id(&self) -> (r: u32)
        ensures
            r == self.spec_id(),
    ;

    /// Force the process to finish; equivalent to SIGKILL on unix platforms.
    fn kill(&mut self) -> (r: Result<(), Error>)
        ensures
            final(self).spec_command() == old(self).spec_command(),
            final(self).spec_id() == old(self).spec_id(),
            final(self).has_stdin_cap() == old(self).has_stdin_cap(),
            final(self).has_stdout_cap() == old(self).has_stdout_cap(),
            final(self).has_stderr_cap() == old(self).has_stderr_cap(),
            r matches Err(e) ==> (e.kind matches ErrorKind::CannotKillProcess(c, i) && c@ == old(
                self,
            ).spec_command() && i == old(self).spec_id()),
    ;
}

/// Access to the standard input of a running process: the write end of its
/// stdin pipe can be extracted here, exactly once.
pub trait StandardInput: Control {
    /// Extract the write end of the process's stdin pipe. Returns the pipe
    /// exactly once: afterwards the capability is gone from this value.
    fn take_stdin_pipe(&mut self) -> (r: Option<os_pipe::PipeWriter>)
        ensures
            r is Some <==> old(self).has_stdin_cap(),
            !final(self).has_stdin_cap(),
            final(self).has_stdout_cap() == old(self).has_stdout_cap(),
            final(self).has_stderr_cap() == old(self).has_stderr_cap(),
            final(self).spec_command() == old(self).spec_command(),
            final(self).spec_id() == old(self).spec_id(),
    ;
}

/// Access to the standard output of a running process: the read end of its
/// stdout pipe can be extracted here, exactly once.
pub trait StandardOutput: Control {
    /// Extract the read end of the process's stdout pipe. Returns the pipe
    /// exactly once: afterwards the capability is gone from this value.
    fn take_stdout_pipe(&mut self) -> (r: Option<os_pipe::PipeReader>)
        ensures
            r is Some <==> old(self).has_stdout_cap(),
            !final(self).has_stdout_cap(),
            final(self).has_stdin_cap() == old(self).has_stdin_cap(),
            final(self).has_stderr_cap() == old(self).has_stderr_cap(),
            final(self).spec_command() == old(self).spec_command(),
            final(self).spec_id() == old(self).spec_id(),
    ;
}

/// Access to the standard error output of a running process: the read end of
/// its stderr pipe can be extracted here, exactly once.
pub trait StandardError: Control {
    /// Extract the read end of the process's stderr pipe. Returns the pipe
    /// exactly once: afterwards the capability is gone from this value.
    fn take_stderr_pipe(&mut self) -> (r: Option<os_pipe::PipeReader>)
        ensures
            r is Some <==> old(self).has_stderr_cap(),
            !final(self).has_stderr_cap(),
            final(self).has_stdin_cap() == old(self).has_stdin_cap(),
            final(self).has_stdout_cap() == old(self).has_stdout_cap(),
            final(self).spec_command() == old(self).spec_command(),
            final(self).spec_id() == old(self).spec_id(),
    ;
}

/// A consumer of typed items wired to a process's standard input: each
/// accepted item is encoded and written whole. The surface is forwarded by
/// read-side adapters, so injection and capture compose in either order.
pub trait Inject: Control {
    type Input: View;

    /// The byte frame an accepted item is written as; `None` means the
    /// encoder refuses the item.
    spec fn spec_input_encoding(item: <Self::Input as View>::V) -> Option<Seq<u8>>;

    /// Encode one item and write its whole frame to the process's standard
    /// input, blocking until the OS pipe has accepted it. An item the
    /// encoder refuses is never partially written.
    fn send_item(&mut self, item: &Self::Input) -> (r: Result<(), Error>)
        ensures
            final(self).spec_command() == old(self).spec_command(),
            final(self).spec_id() == old(self).spec_id(),
            final(self).has_stdin_cap() == old(self).has_stdin_cap(),
            final(self).has_stdout_cap() == old(self).has_stdout_cap(),
            final(self).has_stderr_cap() == old(self).has_stderr_cap(),
            Self::spec_input_encoding(item@) is None ==> r matches Err(_),
            r matches Err(e) ==> (e.kind matches ErrorKind::SendStdin(c) && c@ == old(
                self,
            ).spec_command()),
    ;

    /// Flush the standard-input writer: on success everything submitted so
    /// far has reached the OS pipe.
    fn flush(&mut self) -> (r: Result<(), Error>)
        ensures
            final(self).spec_command() == old(self).spec_command(),
            final(self).spec_id() == old(self).spec_id(),
            final(self).has_stdin_cap() == old(self).has_stdin_cap(),
            final(self).has_stdout_cap() == old(self).has_stdout_cap(),
            final(self).has_stderr_cap() == old(self).has_stderr_cap(),
            r matches Err(e) ==> (e.kind matches ErrorKind::SendStdin(c) && c@ == old(
                self,
            ).spec_command()),
    ;
}

/// A single-pass producer of decoded items: each pull yields the next item,
/// a terminal error, or the end of the sequence. Once the sequence is done
/// it stays done.
pub trait Produce: Sized {
    type Item: View;

    /// Whether the sequence has ended; an ended sequence yields nothing
    /// further.
    spec fn stream_done(&self) -> bool;

    /// Everything the sequence has yielded so far, in order. Each successful
    /// pull appends exactly one item; nothing is ever dropped, repeated or
    /// reordered between yields.
    spec fn produced_items(&self) -> Seq<<Self::Item as View>::V>;

    /// Pull the next decoded item, blocking until one is available, the
    /// stream ends, or reading or decoding fails. A failure ends the
    /// sequence (the underlying process is left running; killing it is the
    /// owner's choice, made when the chain is dropped).
    fn next_item(&mut self) -> (r: Option<Result<Self::Item, Error>>)
        ensures
            old(self).stream_done() ==> r is None,
            r is None ==> final(self).stream_done(),
            (r matches Some(Err(_))) ==> final(self).stream_done(),
            (match r {
                Some(Ok(item)) => final(self).produced_items() == old(
                    self,
                ).produced_items().push(item@),
                _ => final(self).produced_items() == old(self).produced_items(),
            }),
    ;
}

} // verus!
