use vstd::prelude::*;
use crate::codec::Encode;
use crate::command::Command;
use crate::command::CommandView;
use crate::control::{Control, Inject, Produce, StandardError, StandardInput, StandardOutput};
use crate::errors::{Error, ErrorKind};
use crate::sys::{flush_writer, write_all_bytes};

verus! {

/// Sends typed items to a running process's standard input through an
/// encoder.
///
/// The adapter owns the value it wraps — a `Process` or another adapter —
/// and the write end of the stdin pipe, extracted from the owner at
/// construction. The stdin-injection capability is absent from the adapter's
/// own surface, so structured input can be wired at most once per chain; the
/// capabilities it did not consume, including item production of an owner
/// that is itself a capture, are forwarded unchanged.
///
/// Dropping the adapter drops the owner, which transitively kills the
/// wrapped process if it is still running.
pub struct SendStdin<C, E: Encode> {
    owner: C,
    writer: os_pipe::PipeWriter,
    encoder: E,
}

impl<C: StandardInput, E: Encode> SendStdin<C, E> {
    /// Wire structured input to the owner's standard input through the given
    /// encoder, taking ownership of the owner. The stdin-injection
    /// capability is consumed: it is absent from the new adapter's surface.
    pub fn new(owner: C, encoder: E) -> (r: Self)
        requires
            owner.has_stdin_cap(),
        ensures
            r.spec_command() == owner.spec_command(),
            r.spec_id() == owner.spec_id(),
            !r.has_stdin_cap(),
            r.has_stdout_cap() == owner.has_stdout_cap(),
            r.has_stderr_cap() == owner.has_stderr_cap(),
    {
        let mut owner = owner;
        let writer = owner.take_stdin_pipe().unwrap();
        SendStdin { owner, writer, encoder }
    }
}

impl<C: Control, E: Encode> Inject for SendStdin<C, E> {
    type Input = E::Item;

    open spec fn spec_input_encoding(item: <E::Item as View>::V) -> Option<Seq<u8>> {
        E::spec_encoding(item)
    }

    fn send_item(&mut self, item: &E::Item) -> (r: Result<(), Error>) {
        let mut bytes: Vec<u8> = Vec::new();
        match self.encoder.encode(item, &mut bytes) {
            Err(cause) => Err(
                Error { kind: ErrorKind::SendStdin(self.owner.command().clone()), cause },
            ),
            Ok(_) => {
                match write_all_bytes(&mut self.writer, &bytes) {
                    Ok(_) => Ok(()),
                    Err(cause) => Err(
                        Error { kind: ErrorKind::SendStdin(self.owner.command().clone()), cause },
                    ),
                }
            },
        }
    }

    fn flush(&mut self) -> (r: Result<(), Error>) {
        match flush_writer(&mut self.writer) {
            Ok(_) => Ok(()),
            Err(cause) => Err(
                Error { kind: ErrorKind::SendStdin(self.owner.command().clone()), cause },
            ),
        }
    }
}

impl<C: Control, E: Encode> Control for SendStdin<C, E> {
    closed spec fn spec_command(&self) -> CommandView {
        self.owner.spec_command()
    }

    closed spec fn spec_id(&self) -> u32 {
        self.owner.spec_id()
    }

    closed spec fn has_stdin_cap(&self) -> bool {
        false
    }

    closed spec fn has_stdout_cap(&self) -> bool {
        self.owner.has_stdout_cap()
    }

    closed spec fn has_stderr_cap(&self) -> bool {
        self.owner.has_stderr_cap()
    }

    fn command(&self) -> (r: &Command) {
        self.owner.command()
    }

    fn id(&self) -> (r: u32) {
        self.owner.id()
    }

    fn kill(&mut self) -> (r: Result<(), Error>) {
        self.owner.kill()
    }
}

impl<C: StandardOutput, E: Encode> StandardOutput for SendStdin<C, E> {
    fn take_stdout_pipe(&mut self) -> (r: Option<os_pipe::PipeReader>) {
        self.owner.take_stdout_pipe()
    }
}

impl<C: StandardError, E: Encode> StandardError for SendStdin<C, E> {
    fn take_stderr_pipe(&mut self) -> (r: Option<os_pipe::PipeReader>) {
        self.owner.take_stderr_pipe()
    }
}

impl<C: Produce + Control, E: Encode> Produce for SendStdin<C, E> {
    type Item = C::Item;

    closed spec fn stream_done(&self) -> bool {
        self.owner.stream_done()
    }

    closed spec fn produced_items(&self) -> Seq<<C::Item as View>::V> {
        self.owner.produced_items()
    }

    fn next_item(&mut self) -> (r: Option<Result<C::Item, Error>>) {
        self.owner.next_item()
    }
}

} // verus!
