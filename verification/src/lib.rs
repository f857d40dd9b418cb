//! Spawn external executables as child processes and get structured,
//! composable access to their standard streams.
//!
//! A [`Program`] names an executable whose existence has been probed; a
//! [`Command`] adds arguments and a working directory; spawning yields a
//! [`Process`] owning the live child and its three pipe endpoints. Adapters
//! wrap a process (or another adapter), consume exactly one of its stream
//! capabilities, and forward the rest, so no two live values ever hold the
//! same pipe.

mod capture;
mod codec;
mod command;
mod control;
mod errors;
mod process;
mod program;
mod send_stdin;
mod sys;

pub use crate::capture::{Capture, FromStderr, FromStdout, MAX_FRAME_LENGTH};
pub use crate::codec::{
    decode_lines, encode_lines, first_newline, lemma_first_newline, lemma_first_newline_at,
    lemma_first_newline_none, lemma_line_step, lemma_lines_round_trip, line_encodable,
    line_encoding, line_frame_item, line_frame_len, line_tail_item, Decode, Encode, LinesCodec,
    LINE_SEPARATOR,
};
pub use crate::command::{arguments_text, cwd_text, Command, CommandView};
pub use crate::control::{Control, Inject, Produce, StandardError, StandardInput, StandardOutput};
pub use crate::errors::{Error, ErrorKind};
pub use crate::process::Process;
pub use crate::program::Program;
pub use crate::send_stdin::SendStdin;
