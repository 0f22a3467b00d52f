//! The wire: commands go out as lines of text, replies and events come in
//! as lines of JSON. Every line ends with carriage return and line feed.

use vstd::prelude::*;
use vstd::string::*;
use vstd::utf8::{decode_utf8, encode_utf8, valid_utf8};
use crate::command::raw::{command_text, RawCommand};

verus! {

/// Carriage return.
pub const CR: u8 = 13;

/// Line feed.
pub const LF: u8 = 10;

/// `String::from_utf8`: the text that the bytes encode, `None` where the
/// bytes are no valid UTF-8.
#[verifier::external_body]
fn text_from_utf8(bytes: Vec<u8>) -> (r: Option<String>)
    ensures
        match r {
            Some(text) => valid_utf8(bytes@) && text@ == decode_utf8(bytes@),
            None => !valid_utf8(bytes@),
        },
{
    String::from_utf8(bytes).ok()
}

/// The bytes of a command on the wire: its text, then the line end.
pub open spec fn framed(text: Seq<char>) -> Seq<u8> {
    encode_utf8(text) + seq![CR, LF]
}

/// The bytes of a command on the wire.
pub fn frame(command: &RawCommand) -> (bytes: Vec<u8>)
    ensures
        bytes@ == framed(command_text(command@)),
{
    let text = command.to_string();
    let mut bytes = text.as_str().as_bytes_vec();
    bytes.push(CR);
    bytes.push(LF);
    assert(bytes@ =~= framed(command_text(command@)));
    bytes
}

/// Whether a line end stands at `i`.
pub open spec fn line_end_at(bytes: Seq<u8>, i: int) -> bool {
    0 <= i && i + 1 < bytes.len() && bytes[i] == CR && bytes[i + 1] == LF
}

/// Where the first line end at or after `from` stands.
pub open spec fn first_line_end(bytes: Seq<u8>, from: int) -> Option<int>
    decreases bytes.len() - from,
{
    if from < 0 || from + 1 >= bytes.len() {
        None
    } else if line_end_at(bytes, from) {
        Some(from)
    } else {
        first_line_end(bytes, from + 1)
    }
}

/// Where the first line end stands, told by what stands before it.
pub proof fn lemma_first_line_end(bytes: Seq<u8>, from: int, at: int)
    requires
        0 <= from <= at,
        forall|k: int| from <= k < at ==> !line_end_at(bytes, k),
        line_end_at(bytes, at) || at + 1 >= bytes.len(),
    ensures
        first_line_end(bytes, from) == if line_end_at(bytes, at) {
            Some(at)
        } else {
            None
        },
    decreases at - from,
{
    if from < at && from + 1 < bytes.len() {
        lemma_first_line_end(bytes, from + 1, at);
    }
}

/// Where the first line end of `buffer` stands.
pub fn find_line_end(buffer: &Vec<u8>) -> (r: Option<usize>)
    ensures
        match r {
            Some(at) => first_line_end(buffer@, 0) == Some(at as int) && at + 1 < buffer.len(),
            None => first_line_end(buffer@, 0) is None,
        },
{
    if buffer.len() < 2 {
        return None;
    }
    let mut at: usize = 0;
    while at < buffer.len() - 1
        invariant
            buffer.len() >= 2,
            at <= buffer.len() - 1,
            forall|k: int| 0 <= k < at ==> !line_end_at(buffer@, k),
        decreases buffer.len() - at,
    {
        if buffer[at] == CR && buffer[at + 1] == LF {
            proof {
                lemma_first_line_end(buffer@, 0, at as int);
            }
            return Some(at);
        }
        at += 1;
    }
    proof {
        lemma_first_line_end(buffer@, 0, at as int);
    }
    None
}

/// Why a line is no frame.
#[derive(Clone, Copy, Debug, PartialEq, Eq, Structural)]
pub enum FrameError {
    /// The line is no valid UTF-8.
    InvalidUtf8,
}

/// What the next line of a buffer holds: nothing while no line is
/// complete; else the text of the first line, or that the line is no text.
pub open spec fn next_line(buffer: Seq<u8>) -> Option<Result<Seq<char>, FrameError>> {
    match first_line_end(buffer, 0) {
        None => None,
        Some(at) => {
            let line = buffer.take(at);
            if valid_utf8(line) {
                Some(Ok(decode_utf8(line)))
            } else {
                Some(Err(FrameError::InvalidUtf8))
            }
        },
    }
}

/// What is left of a buffer once its first line is taken: what stands
/// behind the first line end. A buffer without a complete line stays whole.
pub open spec fn after_line(buffer: Seq<u8>) -> Seq<u8> {
    match first_line_end(buffer, 0) {
        None => buffer,
        Some(at) => buffer.skip(at + 2),
    }
}

/// Takes the first complete line out of the buffer. A line that is no text
/// is taken out all the same: reading goes on behind its line end.
pub fn next_frame(buffer: &mut Vec<u8>) -> (r: Option<Result<String, FrameError>>)
    ensures
        final(buffer)@ == after_line(old(buffer)@),
        match r {
            None => next_line(old(buffer)@) is None,
            Some(Ok(text)) => next_line(old(buffer)@) == Some(
                Ok::<Seq<char>, FrameError>(text@),
            ),
            Some(Err(e)) => next_line(old(buffer)@) == Some(Err::<Seq<char>, FrameError>(e)),
        },
{
    let at = match find_line_end(buffer) {
        Some(at) => at,
        None => return None,
    };
    let rest = buffer.split_off(at + 2);
    let mut line = Vec::new();
    std::mem::swap(buffer, &mut line);
    line.truncate(at);
    *buffer = rest;
    proof {
        assert(line@ =~= old(buffer)@.take(at as int));
        assert(buffer@ =~= old(buffer)@.skip(at + 2));
    }
    match text_from_utf8(line) {
        Some(text) => Some(Ok(text)),
        None => Some(Err(FrameError::InvalidUtf8)),
    }
}

/// Framing round trip. The bytes of a command, read back as a line, give
/// the text of the command, provided the text holds no line end itself.
pub proof fn lemma_frame_round_trip(text: Seq<char>)
    requires
        forall|k: int| !line_end_at(encode_utf8(text), k),
    ensures
        next_line(framed(text)) == Some(Ok::<Seq<char>, FrameError>(text)),
        after_line(framed(text)) == Seq::<u8>::empty(),
{
    let bytes = framed(text);
    let n = encode_utf8(text).len() as int;
    assert forall|k: int| 0 <= k < n implies !line_end_at(bytes, k) by {
        if line_end_at(bytes, k) {
            if k + 1 < n {
                assert(bytes[k] == encode_utf8(text)[k]);
                assert(bytes[k + 1] == encode_utf8(text)[k + 1]);
                assert(line_end_at(encode_utf8(text), k));
            } else {
                assert(bytes[k + 1] == CR);
            }
        }
    }
    assert(line_end_at(bytes, n));
    lemma_first_line_end(bytes, 0, n);
    assert(bytes.take(n) =~= encode_utf8(text));
    assert(bytes.skip(n + 2) =~= Seq::<u8>::empty());
    vstd::utf8::encode_utf8_valid_utf8(text);
    vstd::utf8::encode_utf8_decode_utf8(text);
}

} // verus!
