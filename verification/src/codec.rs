//! The frame codec: the 8-byte-header opcode-length framing of the wire.
//!
//! Wire format, bit-exact: offset 0 holds the opcode as a little-endian
//! `u32`, offset 4 the payload length as a little-endian `u32`, offset 8 the
//! payload itself, UTF-8 encoded.  No terminator, no checksum, no escape.

use vstd::prelude::*;
use vstd::bytes::{
    lemma_auto_spec_u32_to_from_le_bytes, spec_u32_from_le_bytes, spec_u32_to_le_bytes,
    u32_from_le_bytes, u32_to_le_bytes,
};
use vstd::slice::{slice_subrange, slice_to_vec};
use vstd::string::StrSliceExecFns;
use vstd::utf8::{
    decode_utf8, decode_utf8_encode_utf8, encode_utf8, encode_utf8_decode_utf8,
    encode_utf8_valid_utf8, valid_utf8,
};

use crate::error::IpcError;
use crate::fits_u32;
use crate::opcode::{spec_opcode_from_u32, spec_opcode_u32, OpCode};

verus! {

/// The unit of message exchange on every endpoint: an opcode plus a UTF-8
/// payload.  Immutable after construction.
#[derive(Clone, Debug)]
pub struct Data {
    pub opcode: OpCode,
    pub msg: String,
}

/// The UTF-8 bytes of a frame's payload.
pub open spec fn payload_bytes(msg: Seq<char>) -> Seq<u8> {
    encode_utf8(msg)
}

/// A frame is well formed when its payload's byte length fits the wire
/// format's 32-bit length field.
pub open spec fn frame_wf(d: Data) -> bool {
    fits_u32(payload_bytes(d.msg@).len())
}

/// The exact bytes a frame puts on the wire.
pub open spec fn frame_bytes(op: OpCode, msg: Seq<char>) -> Seq<u8> {
    spec_u32_to_le_bytes(spec_opcode_u32(op)) + spec_u32_to_le_bytes(
        payload_bytes(msg).len() as u32,
    ) + payload_bytes(msg)
}

/// What decoding an 8-byte header yields: the opcode, validated against the
/// enumeration, and the payload length.
pub open spec fn spec_decode_header(h: Seq<u8>) -> Result<(OpCode, u32), IpcError> {
    match spec_opcode_from_u32(spec_u32_from_le_bytes(h.subrange(0, 4))) {
        Option::None => Err(IpcError::InvalidOpCode),
        Option::Some(op) => Ok((op, spec_u32_from_le_bytes(h.subrange(4, 8)))),
    }
}

/// What decoding a buffer holding exactly one frame yields: the opcode and
/// the payload characters, or the first error the read side meets (opcode
/// before length, length before payload).
pub open spec fn spec_decode(buf: Seq<u8>) -> Result<(OpCode, Seq<char>), IpcError> {
    if buf.len() < 8 {
        Err(IpcError::DecodeError)
    } else {
        match spec_decode_header(buf.subrange(0, 8)) {
            Err(e) => Err(e),
            Ok((op, len)) => {
                if len != buf.len() - 8 {
                    Err(IpcError::DecodeError)
                } else if !valid_utf8(buf.subrange(8, buf.len() as int)) {
                    Err(IpcError::DecodeError)
                } else {
                    Ok((op, decode_utf8(buf.subrange(8, buf.len() as int))))
                }
            },
        }
    }
}

impl Data {
    /// The payload length in bytes: the value of the wire's length field.
    pub fn len(&self) -> (n: usize)
        ensures
            n == payload_bytes(self.msg@).len() as usize,
            fits_u32(payload_bytes(self.msg@).len()) ==> n == payload_bytes(self.msg@).len(),
    {
        self.msg.as_str().len()
    }

    /// Encodes this frame as the concatenation of header and payload, ready
    /// for a single logical write.
    pub fn to_buf(&self) -> (buf: Vec<u8>)
        requires
            frame_wf(*self),
        ensures
            buf@ == frame_bytes(self.opcode, self.msg@),
    {
        let length = self.len();
        let mut buf = u32_to_le_bytes(self.opcode.as_u32());
        let mut len_bytes = u32_to_le_bytes(length as u32);
        buf.append(&mut len_bytes);
        let mut payload = self.msg.as_str().as_bytes_vec();
        buf.append(&mut payload);
        buf
    }
}

/// Relies on `alloc::string::String::from_utf8`: it succeeds exactly on
/// valid UTF-8 input and returns the string those bytes encode.
#[verifier::external_body]
fn utf8_to_string(bytes: Vec<u8>) -> (r: Option<String>)
    ensures
        r is Some <==> valid_utf8(bytes@),
        r matches Some(s) ==> s@ == decode_utf8(bytes@),
{
    String::from_utf8(bytes).ok()
}

/// Decodes an 8-byte frame header: the opcode (validated) and the length of
/// the payload that follows.
pub fn decode_header(hdr: &[u8]) -> (r: Result<(OpCode, u32), IpcError>)
    requires
        hdr@.len() == 8,
    ensures
        r == spec_decode_header(hdr@),
{
    let op_word = u32_from_le_bytes(slice_subrange(hdr, 0, 4));
    let len_word = u32_from_le_bytes(slice_subrange(hdr, 4, 8));
    match OpCode::from_u32(op_word) {
        Ok(op) => Ok((op, len_word)),
        Err(e) => Err(e),
    }
}

/// Builds a frame from a decoded header's opcode and the payload bytes read
/// after it: succeeds exactly when the payload is valid UTF-8.
pub fn decode_payload(op: OpCode, payload: Vec<u8>) -> (r: Result<Data, IpcError>)
    ensures
        r is Ok <==> valid_utf8(payload@),
        r matches Ok(d) ==> d.opcode == op && d.msg@ == decode_utf8(payload@),
        r is Err ==> r == Err::<Data, IpcError>(IpcError::DecodeError),
{
    match utf8_to_string(payload) {
        Option::Some(msg) => Ok(Data { opcode: op, msg }),
        Option::None => Err(IpcError::DecodeError),
    }
}

/// Decodes a buffer holding exactly one frame: header, then payload.
pub fn decode(buf: &[u8]) -> (r: Result<Data, IpcError>)
    ensures
        r is Ok <==> spec_decode(buf@) is Ok,
        r matches Ok(d) ==> spec_decode(buf@) == Ok::<(OpCode, Seq<char>), IpcError>(
            (d.opcode, d.msg@),
        ),
        r matches Err(e) ==> spec_decode(buf@) == Err::<(OpCode, Seq<char>), IpcError>(e),
    {
    if buf.len() < 8 {
        return Err(IpcError::DecodeError);
    }
    let header = slice_subrange(buf, 0, 8);
    match decode_header(header) {
        Err(e) => Err(e),
        Ok((op, len)) => {
            if len as usize != buf.len() - 8 {
                Err(IpcError::DecodeError)
            } else {
                let payload = slice_to_vec(slice_subrange(buf, 8, buf.len()));
                decode_payload(op, payload)
            }
        },
    }
}

/// Framing round-trip: every frame with a valid opcode and a UTF-8 payload
/// whose byte length fits 32 bits decodes, from its own encoding, back to
/// itself.
pub proof fn lemma_frame_round_trip(op: OpCode, msg: Seq<char>)
    requires
        fits_u32(payload_bytes(msg).len()),
    ensures
        spec_decode(frame_bytes(op, msg)) == Ok::<(OpCode, Seq<char>), IpcError>((op, msg)),
{
    lemma_auto_spec_u32_to_from_le_bytes();
    let buf = frame_bytes(op, msg);
    let pb = payload_bytes(msg);
    assert(buf.subrange(0, 8).subrange(0, 4) =~= spec_u32_to_le_bytes(spec_opcode_u32(op)));
    assert(buf.subrange(0, 8).subrange(4, 8) =~= spec_u32_to_le_bytes(pb.len() as u32));
    assert(buf.subrange(8, buf.len() as int) =~= pb);
    encode_utf8_valid_utf8(msg);
    encode_utf8_decode_utf8(msg);
}

/// The inverse direction: whatever a buffer decodes to encodes back to the
/// very same bytes, so a relayed frame is forwarded bit-exactly.
pub proof fn lemma_decode_then_encode(buf: Seq<u8>)
    requires
        spec_decode(buf) is Ok,
    ensures
        ({
            let (op, msg) = spec_decode(buf)->Ok_0;
            frame_bytes(op, msg) == buf
        }),
{
    lemma_auto_spec_u32_to_from_le_bytes();
    let (op, msg) = spec_decode(buf)->Ok_0;
    let payload = buf.subrange(8, buf.len() as int);
    decode_utf8_encode_utf8(payload);
    assert(spec_opcode_u32(op) == spec_u32_from_le_bytes(buf.subrange(0, 8).subrange(0, 4)));
    assert(buf.subrange(0, 8).subrange(0, 4) =~= buf.subrange(0, 4));
    assert(buf.subrange(0, 8).subrange(4, 8) =~= buf.subrange(4, 8));
    assert(frame_bytes(op, msg) =~= buf);
}

} // verus!
