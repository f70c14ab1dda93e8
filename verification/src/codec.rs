//! The wire codec: a frame is a four-byte big-endian length followed by that
//! many bytes of payload.
//!
//! A payload is the text of one serialized message, in UTF-8. The codec works
//! on bytes and text: reading from a socket, and turning the text into a
//! message and back, is left to the caller.

use vstd::prelude::*;
use vstd::slice::{slice_subrange, slice_to_vec};
use vstd::utf8::{
    decode_utf8,
    encode_utf8,
    encode_utf8_decode_utf8,
    encode_utf8_valid_utf8,
    valid_utf8,
};
use crate::error::RelayError;

verus! {

/// The largest payload, in bytes, that a receiver accepts.
pub const MAX_FRAME_LEN: u32 = 10_000_000;

/// The number of bytes of the length prefix.
pub const HEADER_LEN: usize = 4;

/// The four bytes of `n`, most significant first.
pub open spec fn be32(n: u32) -> Seq<u8> {
    seq![
        (n / 0x100_0000) as u8,
        (n / 0x1_0000 % 0x100) as u8,
        (n / 0x100 % 0x100) as u8,
        (n % 0x100) as u8,
    ]
}

/// The number that the first four bytes of `bytes` hold, most significant
/// byte first.
pub open spec fn declared_len(bytes: Seq<u8>) -> int
    recommends
        bytes.len() >= 4,
{
    bytes[0] * 0x100_0000 + bytes[1] * 0x1_0000 + bytes[2] * 0x100 + bytes[3]
}

/// The frame that carries `payload`. The length field has 32 bits: of a
/// longer payload it holds the low 32 bits of the length.
pub open spec fn frame(payload: Seq<u8>) -> Seq<u8> {
    be32(payload.len() as u32) + payload
}

/// What decoding makes of the bytes at the start of a stream.
///
/// The length is judged before the payload is looked at: a frame that
/// declares too much is refused whether or not its payload is there.
pub open spec fn decoded(input: Seq<u8>) -> Result<Seq<u8>, RelayError> {
    if input.len() < 4 {
        Err(RelayError::ConnectionClosed)
    } else if declared_len(input) > MAX_FRAME_LEN {
        Err(RelayError::FrameTooLarge(declared_len(input) as u32))
    } else if input.len() < 4 + declared_len(input) {
        Err(RelayError::ConnectionClosed)
    } else {
        Ok(input.subrange(4, 4 + declared_len(input)))
    }
}

/// The frame that carries a text.
pub open spec fn text_frame(text: Seq<char>) -> Seq<u8> {
    frame(encode_utf8(text))
}

/// The text that a payload holds, if it holds one.
pub open spec fn payload_as_text(payload: Seq<u8>) -> Result<Seq<char>, RelayError> {
    if valid_utf8(payload) {
        Ok(decode_utf8(payload))
    } else {
        Err(RelayError::MalformedFrame)
    }
}

/// What decoding makes of the bytes at the start of a stream, down to the
/// text of the payload.
pub open spec fn decoded_text(input: Seq<u8>) -> Result<Seq<char>, RelayError> {
    match decoded(input) {
        Ok(payload) => payload_as_text(payload),
        Err(e) => Err(e),
    }
}

/// The outcome of reading bytes, as a mathematical value.
pub open spec fn bytes_outcome(r: Result<Vec<u8>, RelayError>) -> Result<Seq<u8>, RelayError> {
    match r {
        Ok(bytes) => Ok(bytes@),
        Err(e) => Err(e),
    }
}

/// The outcome of reading a text, as a mathematical value.
pub open spec fn text_outcome(r: Result<String, RelayError>) -> Result<Seq<char>, RelayError> {
    match r {
        Ok(text) => Ok(text@),
        Err(e) => Err(e),
    }
}

/// The length prefix names the number it was made from.
pub proof fn lemma_be32_declares(n: u32)
    ensures
        be32(n).len() == 4,
        declared_len(be32(n)) == n,
{
}

/// Round trip: a payload within the limit comes back from its frame, whatever
/// follows the frame in the stream.
pub proof fn lemma_frame_round_trip(payload: Seq<u8>, rest: Seq<u8>)
    requires
        payload.len() <= MAX_FRAME_LEN,
    ensures
        decoded(frame(payload) + rest) == Ok::<Seq<u8>, RelayError>(payload),
{
    lemma_be32_declares(payload.len() as u32);
    assert((frame(payload) + rest).subrange(4, 4 + payload.len() as int) =~= payload);
}

/// Round trip: a text whose encoding is within the limit comes back from its
/// frame, whatever follows the frame in the stream.
pub proof fn lemma_text_round_trip(text: Seq<char>, rest: Seq<u8>)
    requires
        encode_utf8(text).len() <= MAX_FRAME_LEN,
    ensures
        decoded_text(text_frame(text) + rest) == Ok::<Seq<char>, RelayError>(text),
{
    lemma_frame_round_trip(encode_utf8(text), rest);
    encode_utf8_valid_utf8(text);
    encode_utf8_decode_utf8(text);
}

/// A frame that declares more than the limit is refused on its first four
/// bytes alone: nothing that follows them changes the verdict.
pub proof fn lemma_oversized_refused(header: Seq<u8>, rest: Seq<u8>)
    requires
        header.len() == 4,
        declared_len(header) > MAX_FRAME_LEN,
    ensures
        decoded(header + rest) == Err::<Seq<u8>, RelayError>(
            RelayError::FrameTooLarge(declared_len(header) as u32),
        ),
{
}

/// Frames a payload: its length in four bytes, most significant first, then
/// the payload itself.
pub fn encode_frame(payload: &[u8]) -> (out: Vec<u8>)
    ensures
        out@ == frame(payload@),
{
    let n: u32 = #[verifier::truncate] (payload.len() as u32);
    let mut out: Vec<u8> = Vec::new();
    out.push((n / 0x100_0000) as u8);
    out.push((n / 0x1_0000 % 0x100) as u8);
    out.push((n / 0x100 % 0x100) as u8);
    out.push((n % 0x100) as u8);
    let mut body = slice_to_vec(payload);
    out.append(&mut body);
    out
}

/// Reads a length prefix: how many bytes of payload follow, or that the
/// frame is too large to be read at all.
pub fn payload_length(header: &[u8; 4]) -> (r: Result<u32, RelayError>)
    ensures
        r == if declared_len(header@) > MAX_FRAME_LEN {
            Err::<u32, RelayError>(RelayError::FrameTooLarge(declared_len(header@) as u32))
        } else {
            Ok::<u32, RelayError>(declared_len(header@) as u32)
        },
{
    let n: u32 = (header[0] as u32) * 0x100_0000 + (header[1] as u32) * 0x1_0000 + (header[2] as u32)
        * 0x100 + (header[3] as u32);
    if n > MAX_FRAME_LEN {
        Err(RelayError::FrameTooLarge(n))
    } else {
        Ok(n)
    }
}

/// Takes one frame off the start of `input` and hands back its payload.
pub fn decode_frame(input: &[u8]) -> (r: Result<Vec<u8>, RelayError>)
    ensures
        bytes_outcome(r) == decoded(input@),
{
    if input.len() < HEADER_LEN {
        return Err(RelayError::ConnectionClosed);
    }
    let header: [u8; 4] = [input[0], input[1], input[2], input[3]];
    match payload_length(&header) {
        Err(e) => Err(e),
        Ok(n) => {
            let len = n as usize;
            if input.len() - HEADER_LEN < len {
                Err(RelayError::ConnectionClosed)
            } else {
                let body = slice_subrange(input, HEADER_LEN, HEADER_LEN + len);
                Ok(slice_to_vec(body))
            }
        },
    }
}

/// Reads a payload as UTF-8 text.
///
/// Trusted: the body calls `std::str::from_utf8` and copies the text that it
/// gives. The contract claims what the function's documentation says: the
/// call succeeds exactly on well-formed UTF-8, and the text it gives is made
/// of the very bytes it was given.
#[verifier::external_body]
fn utf8_text(bytes: &[u8]) -> (text: Option<String>)
    ensures
        match text {
            Some(s) => valid_utf8(bytes@) && encode_utf8(s@) == bytes@,
            None => !valid_utf8(bytes@),
        },
{
    match std::str::from_utf8(bytes) {
        Ok(s) => Some(s.to_owned()),
        Err(_) => None,
    }
}

/// Frames the text of a serialized message.
pub fn encode(payload: &str) -> (out: Vec<u8>)
    ensures
        out@ == text_frame(payload@),
{
    encode_frame(payload.as_bytes())
}

/// Reads a payload that has arrived in full as text; a payload that is not
/// UTF-8 is malformed.
pub fn payload_text(payload: &[u8]) -> (r: Result<String, RelayError>)
    ensures
        text_outcome(r) == payload_as_text(payload@),
{
    match utf8_text(payload) {
        Some(text) => {
            proof {
                encode_utf8_decode_utf8(text@);
            }
            Ok(text)
        },
        None => Err(RelayError::MalformedFrame),
    }
}

/// Takes one frame off the start of `input` and hands back the text of its
/// payload.
pub fn decode(input: &[u8]) -> (r: Result<String, RelayError>)
    ensures
        text_outcome(r) == decoded_text(input@),
{
    match decode_frame(input) {
        Ok(payload) => payload_text(payload.as_slice()),
        Err(e) => Err(e),
    }
}

/// What a read brought, as a mathematical value.
pub open spec fn chunk_bytes(chunk: Option<&[u8]>) -> Option<Seq<u8>> {
    match chunk {
        Some(bytes) => Some(bytes@),
        None => None,
    }
}

/// What a decoder hands back for a chunk, as a mathematical value.
pub open spec fn chunk_outcome(outcome: Option<Result<String, RelayError>>) -> Option<
    Result<Seq<char>, RelayError>,
> {
    match outcome {
        Some(r) => Some(text_outcome(r)),
        None => None,
    }
}

/// What a decoder does with one chunk: the number of payload bytes that it
/// waits for afterwards, if it then waits for a payload, and the outcome, if
/// the chunk has settled one.
///
/// `pending` is the number of payload bytes that the decoder waits for, or
/// `None` while it waits for a header. `chunk` is what a read brought, or
/// `None` if the read failed. A chunk of another length than the one asked
/// for counts as a failed read.
pub open spec fn accepted(pending: Option<u32>, chunk: Option<Seq<u8>>) -> (
    Option<u32>,
    Option<Result<Seq<char>, RelayError>>,
) {
    match (pending, chunk) {
        (None, Some(header)) => if header.len() != 4 {
            (None, Some(Err(RelayError::ConnectionClosed)))
        } else if declared_len(header) > MAX_FRAME_LEN {
            (None, Some(Err(RelayError::FrameTooLarge(declared_len(header) as u32))))
        } else {
            (Some(declared_len(header) as u32), None)
        },
        (Some(n), Some(payload)) => if payload.len() != n {
            (None, Some(Err(RelayError::ConnectionClosed)))
        } else {
            (None, Some(payload_as_text(payload)))
        },
        (_, None) => (None, Some(Err(RelayError::ConnectionClosed))),
    }
}

/// Reading a frame in two chunks, the header and then the payload that the
/// header declares, comes to what decoding the stream at once comes to; and
/// where the header declares too much, the outcome is there after the header,
/// with no payload asked for.
pub proof fn lemma_chunks_agree(input: Seq<u8>)
    requires
        input.len() >= 4,
        declared_len(input) <= MAX_FRAME_LEN ==> input.len() >= 4 + declared_len(input),
    ensures
        ({
            let first = accepted(None, Some(input.subrange(0, 4)));
            if declared_len(input) > MAX_FRAME_LEN {
                first == (None::<u32>, Some(decoded_text(input)))
            } else {
                &&& first == (
                    Some(declared_len(input) as u32),
                    None::<Result<Seq<char>, RelayError>>,
                )
                &&& accepted(first.0, Some(input.subrange(4, 4 + declared_len(input)))) == (
                    None::<u32>,
                    Some(decoded_text(input)),
                )
            }
        }),
{
}

/// Reads frames off a stream, chunk by chunk: it says how many bytes it wants
/// next, and is given what a read of exactly that many bytes brought.
///
/// It never asks for more payload than the codec accepts.
pub struct FrameDecoder {
    pending: Option<u32>,
}

impl View for FrameDecoder {
    type V = Option<u32>;

    closed spec fn view(&self) -> Option<u32> {
        self.pending
    }
}

impl FrameDecoder {
    #[verifier::type_invariant]
    spec fn within_limit(self) -> bool {
        match self.pending {
            Some(n) => n <= MAX_FRAME_LEN,
            None => true,
        }
    }

    /// A decoder at the start of a frame.
    pub fn new() -> (decoder: FrameDecoder)
        ensures
            decoder@.is_none(),
    {
        FrameDecoder { pending: None }
    }

    /// How many bytes the decoder wants next: the four of a header, or the
    /// payload that the last header declared.
    pub fn wanted(&self) -> (n: usize)
        ensures
            n == match self@ {
                Some(len) => len as usize,
                None => HEADER_LEN,
            },
            n <= MAX_FRAME_LEN,
    {
        proof {
            use_type_invariant(self);
        }
        match self.pending {
            Some(len) => len as usize,
            None => HEADER_LEN,
        }
    }

    /// Takes what the read brought, or `None` if it failed, and hands back
    /// the outcome once there is one: the text of a payload, or why the
    /// frame cannot be had. After an outcome the decoder is at the start of
    /// the next frame.
    pub fn accept(&mut self, chunk: Option<&[u8]>) -> (outcome: Option<Result<String, RelayError>>)
        ensures
            (final(self)@, chunk_outcome(outcome)) == accepted(old(self)@, chunk_bytes(chunk)),
    {
        let pending = self.pending;
        self.pending = None;
        let bytes = match chunk {
            Some(bytes) => bytes,
            None => {
                return Some(Err(RelayError::ConnectionClosed));
            },
        };
        match pending {
            None => {
                if bytes.len() != HEADER_LEN {
                    return Some(Err(RelayError::ConnectionClosed));
                }
                let header: [u8; 4] = [bytes[0], bytes[1], bytes[2], bytes[3]];
                match payload_length(&header) {
                    Ok(n) => {
                        self.pending = Some(n);
                        None
                    },
                    Err(e) => Some(Err(e)),
                }
            },
            Some(n) => {
                if bytes.len() != n as usize {
                    return Some(Err(RelayError::ConnectionClosed));
                }
                Some(payload_text(bytes))
            },
        }
    }
}

} // verus!
