use vstd::prelude::*;
use vstd::string::{StrSliceExecFns, StringExecFns};
use vstd::utf8::{decode_utf8, encode_utf8, valid_utf8};

verus! {

/// Turns the raw bytes of a captured output stream into typed items, one
/// complete frame at a time. Decoding is incremental: a decoder is handed a
/// growing buffer and takes frames off its front as they become complete.
///
/// The three spec functions fix the decoder's semantics; the executable
/// methods are bound to them, so anything proved against the specification
/// holds of what the decoder actually does.
pub trait Decode: Sized {
    type Item: View;

    /// How many leading bytes of `input` form the first complete frame, if
    /// one is present.
    spec fn spec_frame_len(input: Seq<u8>) -> Option<int>;

    /// The item a complete leading frame decodes to; `None` is a decode
    /// failure.
    spec fn spec_frame_item(frame: Seq<u8>) -> Option<<Self::Item as View>::V>;

    /// The item the unterminated bytes left at end of stream decode to;
    /// `None` is a decode failure.
    spec fn spec_tail_item(rest: Seq<u8>) -> Option<<Self::Item as View>::V>;

    /// A complete frame is non-empty and lies within the input.
    proof fn lemma_frame_len_in_range(input: Seq<u8>)
        ensures
            Self::spec_frame_len(input) matches Some(n) ==> 0 < n <= input.len(),
    ;

    /// Take the first complete frame off the front of `buffer` and decode
    /// it; leave the buffer alone when no complete frame has arrived yet.
    fn decode(&mut self, buffer: &mut Vec<u8>) -> (r: Result<Option<Self::Item>, String>)
        ensures
            Self::spec_frame_len(old(buffer)@) is None ==> (r matches Ok(i) && i is None
                && final(buffer)@ == old(buffer)@),
            Self::spec_frame_len(old(buffer)@) matches Some(n) ==> final(buffer)@
                == old(buffer)@.skip(n) && (match Self::spec_frame_item(old(buffer)@.take(n)) {
                Some(v) => r matches Ok(Some(item)) && item@ == v,
                None => r matches Err(_),
            }),
    ;

    /// Decode whatever is left in `buffer` once the stream has ended and no
    /// complete frame remains.
    fn decode_eof(&mut self, buffer: &mut Vec<u8>) -> (r: Result<Option<Self::Item>, String>)
        requires
            Self::spec_frame_len(old(buffer)@) is None,
        ensures
            final(buffer)@.len() == 0,
            old(buffer)@.len() == 0 ==> (r matches Ok(i) && i is None),
            old(buffer)@.len() > 0 ==> (match Self::spec_tail_item(old(buffer)@) {
                Some(v) => r matches Ok(Some(item)) && item@ == v,
                None => r matches Err(_),
            }),
    ;
}

/// Turns typed items into byte frames for a process's standard input.
pub trait Encode: Sized {
    type Item: View;

    /// The byte frame an item encodes to; `None` means the item cannot be
    /// framed.
    spec fn spec_encoding(item: <Self::Item as View>::V) -> Option<Seq<u8>>;

    /// Append the encoding of `item` to `dst`, or reject the item and leave
    /// `dst` alone.
    fn encode(&mut self, item: &Self::Item, dst: &mut Vec<u8>) -> (r: Result<(), String>)
        ensures
            Self::spec_encoding(item@) matches Some(bytes) ==> (r matches Ok(_) && final(dst)@
                == old(dst)@ + bytes),
            Self::spec_encoding(item@) is None ==> (r matches Err(_) && final(dst)@ == old(
                dst)@),
    ;
}

/// The byte that separates lines.
pub const LINE_SEPARATOR: u8 = 10;

/// Index of the first line separator in `input`, if any.
pub open spec fn first_newline(input: Seq<u8>) -> Option<nat>
    decreases input.len(),
{
    if input.len() == 0 {
        None
    } else if input[0] == LINE_SEPARATOR {
        Some(0nat)
    } else {
        match first_newline(input.drop_first()) {
            Some(i) => Some(i + 1),
            None => None,
        }
    }
}

/// `first_newline` finds the least index holding the separator.
pub proof fn lemma_first_newline(input: Seq<u8>)
    ensures
        match first_newline(input) {
            Some(i) => i < input.len() && input[i as int] == LINE_SEPARATOR && (forall|j: int|
                0 <= j < i ==> input[j] != LINE_SEPARATOR),
            None => forall|j: int| 0 <= j < input.len() ==> input[j] != LINE_SEPARATOR,
        },
    decreases input.len(),
{
    if input.len() == 0 {
    } else if input[0] == LINE_SEPARATOR {
    } else {
        let rest = input.drop_first();
        lemma_first_newline(rest);
        match first_newline(rest) {
            Some(i) => {
                assert(input[i + 1 as int] == rest[i as int]);
                assert forall|j: int| 0 <= j < i + 1 implies input[j] != LINE_SEPARATOR by {
                    if j > 0 {
                        assert(input[j] == rest[j - 1]);
                    }
                }
            },
            None => {
                assert forall|j: int| 0 <= j < input.len() implies input[j] != LINE_SEPARATOR by {
                    if j > 0 {
                        assert(input[j] == rest[j - 1]);
                    }
                }
            },
        }
    }
}

/// Conversely, the least index holding the separator is what
/// `first_newline` returns.
pub proof fn lemma_first_newline_at(input: Seq<u8>, i: int)
    requires
        0 <= i < input.len(),
        input[i] == LINE_SEPARATOR,
        forall|j: int| 0 <= j < i ==> input[j] != LINE_SEPARATOR,
    ensures
        first_newline(input) == Some(i as nat),
    decreases i,
{
    if i == 0 {
    } else {
        let rest = input.drop_first();
        assert(rest[i - 1] == input[i]);
        assert forall|j: int| 0 <= j < i - 1 implies rest[j] != LINE_SEPARATOR by {
            assert(rest[j] == input[j + 1]);
        }
        lemma_first_newline_at(rest, i - 1);
    }
}

/// When no separator occurs, `first_newline` finds none.
pub proof fn lemma_first_newline_none(input: Seq<u8>)
    requires
        forall|j: int| 0 <= j < input.len() ==> input[j] != LINE_SEPARATOR,
    ensures
        first_newline(input) is None,
    decreases input.len(),
{
    if input.len() == 0 {
    } else {
        let rest = input.drop_first();
        assert forall|j: int| 0 <= j < rest.len() implies rest[j] != LINE_SEPARATOR by {
            assert(rest[j] == input[j + 1]);
        }
        lemma_first_newline_none(rest);
    }
}

/// A line's frame runs up to and including the first separator.
pub open spec fn line_frame_len(input: Seq<u8>) -> Option<int> {
    match first_newline(input) {
        Some(i) => Some(i as int + 1),
        None => None,
    }
}

/// A complete frame decodes to the text before its separator.
pub open spec fn line_frame_item(frame: Seq<u8>) -> Option<Seq<char>> {
    if valid_utf8(frame.drop_last()) {
        Some(decode_utf8(frame.drop_last()))
    } else {
        None
    }
}

/// Unterminated trailing bytes decode to one final line.
pub open spec fn line_tail_item(rest: Seq<u8>) -> Option<Seq<char>> {
    if valid_utf8(rest) {
        Some(decode_utf8(rest))
    } else {
        None
    }
}

/// A line can be framed exactly when its encoding is free of the separator.
pub open spec fn line_encodable(item: Seq<char>) -> bool {
    forall|j: int| 0 <= j < encode_utf8(item).len() ==> encode_utf8(item)[j] != LINE_SEPARATOR
}

/// The frame a line encodes to: its UTF-8 bytes followed by the separator.
pub open spec fn line_encoding(item: Seq<char>) -> Option<Seq<u8>> {
    if line_encodable(item) {
        Some(encode_utf8(item).push(LINE_SEPARATOR))
    } else {
        None
    }
}

/// A codec that frames UTF-8 text line by line: decoding splits a byte
/// stream at each separator byte, encoding appends one separator to each
/// item and refuses items whose encoding already contains it.
pub struct LinesCodec;

impl LinesCodec {
    pub fn new() -> LinesCodec {
        LinesCodec
    }
}

/// Relies on `String::from_utf8`: it succeeds exactly on valid UTF-8 input
/// and decodes the bytes it was given.
#[verifier::external_body]
fn bytes_to_string(bytes: Vec<u8>) -> (r: Option<String>)
    ensures
        r is Some <==> valid_utf8(bytes@),
        r matches Some(s) ==> s@ == decode_utf8(bytes@),
{
    match String::from_utf8(bytes) {
        Ok(s) => Some(s),
        Err(_) => None,
    }
}

impl Decode for LinesCodec {
    type Item = String;

    open spec fn spec_frame_len(input: Seq<u8>) -> Option<int> {
        line_frame_len(input)
    }

    open spec fn spec_frame_item(frame: Seq<u8>) -> Option<Seq<char>> {
        line_frame_item(frame)
    }

    open spec fn spec_tail_item(rest: Seq<u8>) -> Option<Seq<char>> {
        line_tail_item(rest)
    }

    proof fn lemma_frame_len_in_range(input: Seq<u8>) {
        lemma_first_newline(input);
    }

    fn decode(&mut self, buffer: &mut Vec<u8>) -> (r: Result<Option<String>, String>) {
        let n = buffer.len();
        let mut i: usize = 0;
        while i < n && buffer[i] != LINE_SEPARATOR
            invariant
                i <= n,
                n == buffer.len(),
                forall|j: int| 0 <= j < i ==> buffer@[j] != LINE_SEPARATOR,
            decreases n - i,
        {
            i = i + 1;
        }
        if i == n {
            proof {
                lemma_first_newline_none(buffer@);
            }
            Ok(None)
        } else {
            proof {
                lemma_first_newline_at(buffer@, i as int);
            }
            let mut rest = buffer.split_off(i + 1);
            buffer.truncate(i);
            core::mem::swap(buffer, &mut rest);
            proof {
                assert(buffer@ =~= old(buffer)@.skip(i as int + 1));
                assert(rest@ =~= old(buffer)@.take(i as int + 1).drop_last());
            }
            match bytes_to_string(rest) {
                Some(item) => Ok(Some(item)),
                None => Err(<String as StringExecFns>::from_str("captured line is not valid UTF-8")),
            }
        }
    }

    fn decode_eof(&mut self, buffer: &mut Vec<u8>) -> (r: Result<Option<String>, String>) {
        if buffer.len() == 0 {
            return Ok(None);
        }
        let mut rest: Vec<u8> = Vec::new();
        core::mem::swap(buffer, &mut rest);
        match bytes_to_string(rest) {
            Some(item) => Ok(Some(item)),
            None => Err(<String as StringExecFns>::from_str("captured line is not valid UTF-8")),
        }
    }
}

impl Encode for LinesCodec {
    type Item = String;

    open spec fn spec_encoding(item: Seq<char>) -> Option<Seq<u8>> {
        line_encoding(item)
    }

    fn encode(&mut self, item: &String, dst: &mut Vec<u8>) -> (r: Result<(), String>) {
        let mut bytes = item.as_str().as_bytes_vec();
        let n = bytes.len();
        let mut i: usize = 0;
        while i < n && bytes[i] != LINE_SEPARATOR
            invariant
                i <= n,
                n == bytes.len(),
                forall|j: int| 0 <= j < i ==> bytes@[j] != LINE_SEPARATOR,
            decreases n - i,
        {
            i = i + 1;
        }
        if i < n {
            assert(!line_encodable(item@));
            Err(<String as StringExecFns>::from_str("line must not contain the separator"))
        } else {
            assert(line_encodable(item@));
            let ghost dst0 = dst@;
            dst.append(&mut bytes);
            dst.push(LINE_SEPARATOR);
            proof {
                assert(dst@ =~= dst0 + encode_utf8(item@).push(LINE_SEPARATOR));
            }
            Ok(())
        }
    }
}

/// The byte stream that a sequence of lines encodes to: each line's frame,
/// in submission order.
pub open spec fn encode_lines(items: Seq<Seq<char>>) -> Seq<u8>
    decreases items.len(),
{
    if items.len() == 0 {
        Seq::empty()
    } else {
        encode_utf8(items[0]).push(LINE_SEPARATOR) + encode_lines(items.drop_first())
    }
}

/// The lines a whole byte stream decodes to, complete frames first and one
/// trailing unterminated line last; `None` is a decode failure.
pub open spec fn decode_lines(bytes: Seq<u8>) -> Option<Seq<Seq<char>>>
    decreases bytes.len(),
{
    if bytes.len() == 0 {
        Some(Seq::empty())
    } else {
        match first_newline(bytes) {
            None => match line_tail_item(bytes) {
                Some(v) => Some(seq![v]),
                None => None,
            },
            Some(i) => if i + 1 <= bytes.len() {
                match line_frame_item(bytes.take(i as int + 1)) {
                    Some(v) => match decode_lines(bytes.skip(i as int + 1)) {
                        Some(rest) => Some(seq![v] + rest),
                        None => None,
                    },
                    None => None,
                }
            } else {
                None
            },
        }
    }
}

/// One encoded line followed by anything decodes back to that line: the
/// first frame boundary falls exactly on the separator the encoder appended.
pub proof fn lemma_line_step(item: Seq<char>, rest: Seq<u8>)
    requires
        line_encodable(item),
    ensures
        first_newline(encode_utf8(item).push(LINE_SEPARATOR) + rest) == Some(encode_utf8(item).len()),
        line_frame_item((encode_utf8(item).push(LINE_SEPARATOR) + rest).take(
            encode_utf8(item).len() as int + 1,
        )) == Some(item),
        (encode_utf8(item).push(LINE_SEPARATOR) + rest).skip(encode_utf8(item).len() as int + 1)
            == rest,
{
    broadcast use vstd::utf8::encode_utf8_valid_utf8, vstd::utf8::encode_utf8_decode_utf8;

    let enc = encode_utf8(item);
    let stream = enc.push(LINE_SEPARATOR) + rest;
    let n = enc.len() as int;
    assert(stream[n] == LINE_SEPARATOR);
    assert forall|j: int| 0 <= j < n implies stream[j] != LINE_SEPARATOR by {
        assert(stream[j] == enc[j]);
    }
    lemma_first_newline_at(stream, n);
    assert(stream.take(n + 1).drop_last() =~= enc);
    assert(line_frame_item(stream.take(n + 1)) == Some(item));
    assert(stream.skip(n + 1) =~= rest);
}

/// Round trip: a sequence of encodable lines, encoded in submission order
/// and decoded again, comes back unchanged — the same lines, in the same
/// order. An item whose encoding contains the separator is not encodable
/// and is refused by the encoder instead.
pub proof fn lemma_lines_round_trip(items: Seq<Seq<char>>)
    requires
        forall|k: int| 0 <= k < items.len() ==> line_encodable(#[trigger] items[k]),
    ensures
        decode_lines(encode_lines(items)) == Some(items),
    decreases items.len(),
{
    if items.len() == 0 {
        assert(items =~= Seq::<Seq<char>>::empty());
    } else {
        let first = items[0];
        let rest_items = items.drop_first();
        let rest = encode_lines(rest_items);
        let stream = encode_lines(items);
        lemma_line_step(first, rest);
        assert forall|k: int| 0 <= k < rest_items.len() implies line_encodable(
            #[trigger] rest_items[k],
        ) by {
            assert(rest_items[k] == items[k + 1]);
        }
        lemma_lines_round_trip(rest_items);
        assert(stream.len() > 0);
        assert(decode_lines(stream) == Some(seq![first] + rest_items));
        assert(seq![first] + rest_items =~= items);
    }
}

} // verus!
