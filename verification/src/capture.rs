use vstd::prelude::*;
use core::marker::PhantomData;
use crate::codec::Decode;
use crate::command::Command;
use crate::command::CommandView;
use crate::control::{Control, Inject, Produce, StandardError, StandardInput, StandardOutput};
use crate::errors::{Error, ErrorKind};
use crate::sys::read_chunk;
use vstd::string::StringExecFns;

verus! {

/// Marker: the capture is bound to its owner's standard output.
pub struct FromStdout;

/// Marker: the capture is bound to its owner's standard error output.
pub struct FromStderr;

/// Captures one output stream of a running process as a lazy, single-pass
/// sequence of decoded items.
///
/// A capture owns the value it wraps — a `Process` or another adapter — and
/// the read end of the one pipe it captured, extracted from the owner at
/// construction. The marker type records which stream that was: the
/// corresponding capability is absent from the adapter's own surface, so the
/// same stream can never be captured twice through one chain, while every
/// capability the adapter did not consume is forwarded to the owner.
///
/// Dropping a capture drops the owner, which transitively kills the wrapped
/// process if it is still running.
pub struct Capture<C, D: Decode, M> {
    owner: C,
    reader: os_pipe::PipeReader,
    decoder: D,
    buffer: Vec<u8>,
    saw_eof: bool,
    finished: bool,
    produced: Ghost<Seq<<D::Item as View>::V>>,
    marker: PhantomData<M>,
}

/// The most bytes a single frame may span. A stream whose decoder finds no
/// frame boundary within this many bytes ends with an error rather than
/// buffering without bound.
pub const MAX_FRAME_LENGTH: usize = 8 * 1024 * 1024;

/// One unit of the pull loop's termination measure: reading end-of-stream is
/// a step forward.
spec fn eof_measure(saw_eof: bool) -> int {
    if saw_eof {
        0
    } else {
        1
    }
}

/// The other unit: room left in the frame-size budget.
spec fn space_measure(len: nat) -> int {
    if len > MAX_FRAME_LENGTH + 4096 {
        0
    } else {
        MAX_FRAME_LENGTH + 4096 - len
    }
}

/// The whole byte stream a pull has seen: what was already buffered followed
/// by what arrived during the pull.
spec fn arrived(buffered: Seq<u8>, fresh: Seq<u8>) -> Seq<u8> {
    buffered + fresh
}

/// Pull the next decoded item out of `reader`: drain complete frames from
/// `buffer` first, read more bytes as needed, and at end of stream hand the
/// unterminated rest to the decoder once. A yielded item is the decode of
/// exactly the bytes that arrived, in arrival order: the first complete
/// frame of buffered-plus-read bytes, with the remainder kept buffered, or
/// at end of stream the unterminated rest.
fn pull_decoded<D: Decode>(
    reader: &mut os_pipe::PipeReader,
    decoder: &mut D,
    buffer: &mut Vec<u8>,
    saw_eof: &mut bool,
    finished: &mut bool,
) -> (r: Option<Result<D::Item, String>>)
    ensures
        *old(finished) ==> (r is None && *final(finished)),
        r is None ==> *final(finished),
        (r matches Some(Err(_))) ==> *final(finished),
        (match r {
            Some(Ok(item)) => exists|fresh: Seq<u8>|
                {
                    let stream = #[trigger] arrived(old(buffer)@, fresh);
                    ||| (exists|n: int|
                        D::spec_frame_len(stream) == Some(n) && D::spec_frame_item(
                            stream.take(n),
                        ) == Some(item@) && final(buffer)@ == stream.skip(n))
                    ||| (D::spec_frame_len(stream) is None && D::spec_tail_item(stream) == Some(
                        item@,
                    ) && final(buffer)@.len() == 0)
                },
            _ => true,
        }),
{
    if *finished {
        return None;
    }
    let ghost mut fresh: Seq<u8> = Seq::empty();
    proof {
        assert(buffer@ =~= arrived(old(buffer)@, fresh));
    }
    loop
        invariant
            !*old(finished),
            buffer@ == arrived(old(buffer)@, fresh),
        decreases eof_measure(*saw_eof), space_measure(buffer@.len()),
    {
        let step = decoder.decode(buffer);
        match step {
            Err(msg) => {
                *finished = true;
                return Some(Err(msg));
            },
            Ok(Some(item)) => {
                proof {
                    let stream = arrived(old(buffer)@, fresh);
                    let n = D::spec_frame_len(stream)->Some_0;
                    assert(D::spec_frame_item(stream.take(n)) == Some(item@) && buffer@
                        == stream.skip(n));
                }
                return Some(Ok(item));
            },
            Ok(None) => {
                if *saw_eof {
                    if buffer.len() == 0 {
                        *finished = true;
                        return None;
                    }
                    match decoder.decode_eof(buffer) {
                        Err(msg) => {
                            *finished = true;
                            return Some(Err(msg));
                        },
                        Ok(Some(item)) => {
                            proof {
                                let stream = arrived(old(buffer)@, fresh);
                                assert(D::spec_frame_len(stream) is None && D::spec_tail_item(
                                    stream,
                                ) == Some(item@) && buffer@.len() == 0);
                            }
                            return Some(Ok(item));
                        },
                        Ok(None) => {
                            *finished = true;
                            return None;
                        },
                    }
                } else {
                    if buffer.len() >= MAX_FRAME_LENGTH {
                        *finished = true;
                        return Some(Err(<String as StringExecFns>::from_str(
                            "captured frame exceeds the maximum frame length",
                        )));
                    }
                    match read_chunk(reader) {
                        Err(msg) => {
                            *finished = true;
                            return Some(Err(msg));
                        },
                        Ok(chunk) => {
                            if chunk.len() == 0 {
                                *saw_eof = true;
                            } else {
                                let ghost arriving = chunk@;
                                let mut incoming = chunk;
                                buffer.append(&mut incoming);
                                proof {
                                    fresh = fresh + arriving;
                                    assert(buffer@ =~= arrived(old(buffer)@, fresh));
                                }
                            }
                        },
                    }
                }
            },
        }
    }
}

impl<C: StandardOutput, D: Decode> Capture<C, D, FromStdout> {
    /// Capture the owner's standard output through the given decoder, taking
    /// ownership of the owner. The stdout-capture capability is consumed: it
    /// is absent from the new adapter's surface.
    pub fn new_stdout(owner: C, decoder: D) -> (r: Self)
        requires
            owner.has_stdout_cap(),
        ensures
            r.spec_command() == owner.spec_command(),
            r.spec_id() == owner.spec_id(),
            r.has_stdin_cap() == owner.has_stdin_cap(),
            r.has_stderr_cap() == owner.has_stderr_cap(),
            !r.has_stdout_cap(),
            !r.stream_done(),
            r.produced_items() == Seq::<<D::Item as View>::V>::empty(),
    {
        let mut owner = owner;
        let reader = owner.take_stdout_pipe().unwrap();
        Capture {
            owner,
            reader,
            decoder,
            buffer: Vec::new(),
            saw_eof: false,
            finished: false,
            produced: Ghost(Seq::empty()),
            marker: PhantomData,
        }
    }
}

impl<C: StandardError, D: Decode> Capture<C, D, FromStderr> {
    /// Capture the owner's standard error output through the given decoder,
    /// taking ownership of the owner. The stderr-capture capability is
    /// consumed: it is absent from the new adapter's surface.
    pub fn new_stderr(owner: C, decoder: D) -> (r: Self)
        requires
            owner.has_stderr_cap(),
        ensures
            r.spec_command() == owner.spec_command(),
            r.spec_id() == owner.spec_id(),
            r.has_stdin_cap() == owner.has_stdin_cap(),
            r.has_stdout_cap() == owner.has_stdout_cap(),
            !r.has_stderr_cap(),
            !r.stream_done(),
            r.produced_items() == Seq::<<D::Item as View>::V>::empty(),
    {
        let mut owner = owner;
        let reader = owner.take_stderr_pipe().unwrap();
        Capture {
            owner,
            reader,
            decoder,
            buffer: Vec::new(),
            saw_eof: false,
            finished: false,
            produced: Ghost(Seq::empty()),
            marker: PhantomData,
        }
    }
}

impl<C: Control, D: Decode> Control for Capture<C, D, FromStdout> {
    closed spec fn spec_command(&self) -> CommandView {
        self.owner.spec_command()
    }

    closed spec fn spec_id(&self) -> u32 {
        self.owner.spec_id()
    }

    closed spec fn has_stdin_cap(&self) -> bool {
        self.owner.has_stdin_cap()
    }

    closed spec fn has_stdout_cap(&self) -> bool {
        false
    }

    closed spec fn has_stderr_cap(&self) -> bool {
        self.owner.has_stderr_cap()
    }

    fn command(&self) -> (r: &Command) {
        self.owner.command()
    }

    fn id(&self) -> (r: u32) {
        self.owner.id()
    }

    fn kill(&mut self) -> (r: Result<(), Error>) {
        self.owner.kill()
    }
}

impl<C: Control, D: Decode> Control for Capture<C, D, FromStderr> {
    closed spec fn spec_command(&self) -> CommandView {
        self.owner.spec_command()
    }

    closed spec fn spec_id(&self) -> u32 {
        self.owner.spec_id()
    }

    closed spec fn has_stdin_cap(&self) -> bool {
        self.owner.has_stdin_cap()
    }

    closed spec fn has_stdout_cap(&self) -> bool {
        self.owner.has_stdout_cap()
    }

    closed spec fn has_stderr_cap(&self) -> bool {
        false
    }

    fn command(&self) -> (r: &Command) {
        self.owner.command()
    }

    fn id(&self) -> (r: u32) {
        self.owner.id()
    }

    fn kill(&mut self) -> (r: Result<(), Error>) {
        self.owner.kill()
    }
}

impl<C: StandardInput, D: Decode> StandardInput for Capture<C, D, FromStdout> {
    fn take_stdin_pipe(&mut self) -> (r: Option<os_pipe::PipeWriter>) {
        self.owner.take_stdin_pipe()
    }
}

impl<C: StandardInput, D: Decode> StandardInput for Capture<C, D, FromStderr> {
    fn take_stdin_pipe(&mut self) -> (r: Option<os_pipe::PipeWriter>) {
        self.owner.take_stdin_pipe()
    }
}

impl<C: StandardError, D: Decode> StandardError for Capture<C, D, FromStdout> {
    fn take_stderr_pipe(&mut self) -> (r: Option<os_pipe::PipeReader>) {
        self.owner.take_stderr_pipe()
    }
}

impl<C: StandardOutput, D: Decode> StandardOutput for Capture<C, D, FromStderr> {
    fn take_stdout_pipe(&mut self) -> (r: Option<os_pipe::PipeReader>) {
        self.owner.take_stdout_pipe()
    }
}

impl<C: Inject, D: Decode> Inject for Capture<C, D, FromStdout> {
    type Input = C::Input;

    open spec fn spec_input_encoding(item: <C::Input as View>::V) -> Option<Seq<u8>> {
        C::spec_input_encoding(item)
    }

    fn send_item(&mut self, item: &C::Input) -> (r: Result<(), Error>) {
        self.owner.send_item(item)
    }

    fn flush(&mut self) -> (r: Result<(), Error>) {
        self.owner.flush()
    }
}

impl<C: Inject, D: Decode> Inject for Capture<C, D, FromStderr> {
    type Input = C::Input;

    open spec fn spec_input_encoding(item: <C::Input as View>::V) -> Option<Seq<u8>> {
        C::spec_input_encoding(item)
    }

    fn send_item(&mut self, item: &C::Input) -> (r: Result<(), Error>) {
        self.owner.send_item(item)
    }

    fn flush(&mut self) -> (r: Result<(), Error>) {
        self.owner.flush()
    }
}

impl<C: Control, D: Decode> Produce for Capture<C, D, FromStdout> {
    type Item = D::Item;

    closed spec fn stream_done(&self) -> bool {
        self.finished
    }

    closed spec fn produced_items(&self) -> Seq<<D::Item as View>::V> {
        self.produced@
    }

    fn next_item(&mut self) -> (r: Option<Result<D::Item, Error>>) {
        let pulled = pull_decoded(
            &mut self.reader,
            &mut self.decoder,
            &mut self.buffer,
            &mut self.saw_eof,
            &mut self.finished,
        );
        match pulled {
            None => None,
            Some(Ok(item)) => {
                proof {
                    self.produced@ = self.produced@.push(item@);
                }
                Some(Ok(item))
            },
            Some(Err(cause)) => Some(
                Err(Error { kind: ErrorKind::Capture(self.owner.command().clone()), cause }),
            ),
        }
    }
}

impl<C: Control, D: Decode> Produce for Capture<C, D, FromStderr> {
    type Item = D::Item;

    closed spec fn stream_done(&self) -> bool {
        self.finished
    }

    closed spec fn produced_items(&self) -> Seq<<D::Item as View>::V> {
        self.produced@
    }

    fn next_item(&mut self) -> (r: Option<Result<D::Item, Error>>) {
        let pulled = pull_decoded(
            &mut self.reader,
            &mut self.decoder,
            &mut self.buffer,
            &mut self.saw_eof,
            &mut self.finished,
        );
        match pulled {
            None => None,
            Some(Ok(item)) => {
                proof {
                    self.produced@ = self.produced@.push(item@);
                }
                Some(Ok(item))
            },
            Some(Err(cause)) => Some(
                Err(Error { kind: ErrorKind::Capture(self.owner.command().clone()), cause }),
            ),
        }
    }
}

} // verus!
