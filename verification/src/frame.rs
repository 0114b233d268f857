//! Message framing: every message on the wire is an 8-byte little-endian
//! header (opcode, then payload byte length) followed by exactly that many
//! payload bytes, which encode UTF-8 text.

use vstd::prelude::*;
use vstd::utf8::{decode_utf8, encode_utf8, valid_utf8};

verus! {

/// The four bytes of a 32-bit word, least significant first.
pub open spec fn u32_le(x: u32) -> Seq<u8> {
    seq![
        (x % 256) as u8,
        ((x / 256) % 256) as u8,
        ((x / 65536) % 256) as u8,
        ((x / 16777216) % 256) as u8,
    ]
}

/// The 32-bit word read from four bytes, least significant first.
pub open spec fn u32_from_le(b: Seq<u8>) -> u32
    recommends
        b.len() == 4,
{
    (b[0] + b[1] * 256 + b[2] * 65536 + b[3] * 16777216) as u32
}

/// Reading back the four little-endian bytes of a word gives the word.
pub proof fn lemma_u32_le_round_trip(x: u32)
    ensures
        u32_le(x).len() == 4,
        u32_from_le(u32_le(x)) == x,
{
    assert(x == (x % 256) + ((x / 256) % 256) * 256 + ((x / 65536) % 256) * 65536 + ((x
        / 16777216) % 256) * 16777216) by (nonlinear_arith);
}

pub fn u32_to_le_bytes(x: u32) -> (r: Vec<u8>)
    ensures
        r@ == u32_le(x),
{
    let mut r: Vec<u8> = Vec::new();
    r.push((x % 256) as u8);
    r.push(((x / 256) % 256) as u8);
    r.push(((x / 65536) % 256) as u8);
    r.push(((x / 16777216) % 256) as u8);
    proof {
        assert(r@ =~= u32_le(x));
    }
    r
}

pub fn u32_from_le_bytes(b: &[u8]) -> (r: u32)
    requires
        b@.len() == 4,
    ensures
        r == u32_from_le(b@),
{
    let r: u32 = b[0] as u32 + (b[1] as u32) * 256 + (b[2] as u32) * 65536 + (b[3] as u32)
        * 16777216;
    r
}

/// A whole frame: opcode and payload byte length as little-endian words,
/// then the payload bytes themselves.
pub open spec fn spec_frame(opcode: u32, payload: Seq<u8>) -> Seq<u8>
    recommends
        payload.len() <= u32::MAX,
{
    u32_le(opcode) + u32_le(payload.len() as u32) + payload
}

/// The header fields decoded from the first 8 bytes of a frame.
pub struct FrameHeader {
    pub opcode: u32,
    pub length: u32,
}

/// Encode one message as a frame ready to be written to the channel.
pub fn encode_frame(opcode: u32, payload: &[u8]) -> (r: Vec<u8>)
    requires
        payload@.len() <= u32::MAX,
    ensures
        r@ == spec_frame(opcode, payload@),
        r@.len() == 8 + payload@.len(),
{
    let mut r = u32_to_le_bytes(opcode);
    let mut len_bytes = u32_to_le_bytes(payload.len() as u32);
    r.append(&mut len_bytes);
    r.extend_from_slice(payload);
    proof {
        assert(r@ =~= spec_frame(opcode, payload@));
    }
    r
}

/// Encode one message, rejecting a payload whose length does not fit in the
/// 32-bit length field instead of demanding that of the caller.
pub fn try_encode_frame(opcode: u32, payload: &[u8]) -> (r: Option<Vec<u8>>)
    ensures
        r is Some <==> payload@.len() <= u32::MAX,
        r is Some ==> r.unwrap()@ == spec_frame(opcode, payload@),
{
    if payload.len() <= u32::MAX as usize {
        Some(encode_frame(opcode, payload))
    } else {
        None
    }
}

/// Decode the 8 header bytes of a frame into opcode and payload length.
pub fn decode_header(h: &[u8]) -> (r: FrameHeader)
    requires
        h@.len() == 8,
    ensures
        r.opcode == u32_from_le(h@.subrange(0, 4)),
        r.length == u32_from_le(h@.subrange(4, 8)),
{
    let opcode = u32_from_le_bytes(vstd::slice::slice_subrange(h, 0, 4));
    let length = u32_from_le_bytes(vstd::slice::slice_subrange(h, 4, 8));
    FrameHeader { opcode, length }
}

/// Whether a frame with this header carries payload bytes at all: when the
/// length field is zero the frame is the header alone, and the reader must
/// not attempt a payload read.
pub fn needs_payload_read(h: &FrameHeader) -> (r: bool)
    ensures
        r <==> h.length > 0,
{
    h.length > 0
}

/// A received message: opcode plus the payload decoded as text.
#[derive(Debug)]
pub struct Message {
    pub opcode: u32,
    pub payload: String,
}

/// How a read or write on the channel failed at the transport level,
/// as classified by the caller that performed the raw I/O.
#[derive(Clone, Copy, PartialEq, Eq, Structural, Debug)]
pub enum TransportKind {
    BrokenPipe,
    ConnectionReset,
    UnexpectedEof,
    Other,
}

/// A failure while receiving one message.
#[derive(Clone, Copy, PartialEq, Eq, Structural, Debug)]
pub enum ChannelError {
    /// The payload bytes were not valid text.
    MalformedPayload,
    /// The channel itself failed while reading or writing.
    Transport(TransportKind),
}

/// Relies on String::from_utf8: it returns a string built from the given
/// bytes exactly when they are valid UTF-8, and fails otherwise.
#[verifier::external_body]
fn utf8_to_string(bytes: Vec<u8>) -> (r: Option<String>)
    ensures
        r is Some <==> valid_utf8(bytes@),
        r is Some ==> r.unwrap()@ == decode_utf8(bytes@),
{
    String::from_utf8(bytes).ok()
}

/// Assemble a received message from its decoded header and the exact
/// payload bytes that followed it. Fails only when the payload is not
/// valid text; the channel itself stays healthy in that case.
pub fn decode_message(header: FrameHeader, payload: Vec<u8>) -> (r: Result<Message, ChannelError>)
    requires
        payload@.len() == header.length,
    ensures
        r is Ok <==> valid_utf8(payload@),
        r is Ok ==> r.unwrap().opcode == header.opcode && r.unwrap().payload@ == decode_utf8(
            payload@,
        ),
        r is Err ==> r == Err::<Message, ChannelError>(ChannelError::MalformedPayload),
{
    match utf8_to_string(payload) {
        Some(text) => Ok(Message { opcode: header.opcode, payload: text }),
        None => Err(ChannelError::MalformedPayload),
    }
}

/// Decoding the header of any frame gives back the opcode and the exact
/// payload length, and the bytes after the header are the payload,
/// unchanged.
pub proof fn lemma_frame_header_round_trip(opcode: u32, payload: Seq<u8>)
    requires
        payload.len() <= u32::MAX,
    ensures
        ({
            let f = spec_frame(opcode, payload);
            &&& f.len() == 8 + payload.len()
            &&& u32_from_le(f.subrange(0, 4)) == opcode
            &&& u32_from_le(f.subrange(4, 8)) == payload.len()
            &&& f.subrange(8, f.len() as int) == payload
        }),
{
    let f = spec_frame(opcode, payload);
    lemma_u32_le_round_trip(opcode);
    lemma_u32_le_round_trip(payload.len() as u32);
    assert(f.subrange(0, 4) =~= u32_le(opcode));
    assert(f.subrange(4, 8) =~= u32_le(payload.len() as u32));
    assert(f.subrange(8, f.len() as int) =~= payload);
}

/// Framing round trip: a frame encoded for an opcode and a text payload
/// decodes back to the same opcode, the payload's exact byte length, and
/// payload bytes that are valid text and decode to the same text. A frame
/// for an empty payload is the 8 header bytes alone, so reading it demands
/// no payload bytes at all.
pub proof fn lemma_frame_round_trip(opcode: u32, text: Seq<char>)
    requires
        encode_utf8(text).len() <= u32::MAX,
    ensures
        ({
            let f = spec_frame(opcode, encode_utf8(text));
            &&& f.len() == 8 + encode_utf8(text).len()
            &&& u32_from_le(f.subrange(0, 4)) == opcode
            &&& u32_from_le(f.subrange(4, 8)) == encode_utf8(text).len()
            &&& valid_utf8(f.subrange(8, f.len() as int))
            &&& decode_utf8(f.subrange(8, f.len() as int)) == text
            &&& (text.len() == 0 ==> f.len() == 8)
        }),
{
    lemma_frame_header_round_trip(opcode, encode_utf8(text));
    vstd::utf8::encode_utf8_valid_utf8(text);
    vstd::utf8::encode_utf8_decode_utf8(text);
    if text.len() == 0 {
        assert(encode_utf8(text).len() == 0);
    }
}

} // verus!
