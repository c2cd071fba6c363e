//! The opcode taxonomy of the Discord IPC wire protocol.

use vstd::prelude::*;
use crate::error::IpcError;

verus! {

/// The five opcodes of the protocol, with their stable numeric identity
/// given by [`OpCode::as_u32`]; any other value on the wire is a protocol
/// error.
#[derive(Clone, Copy, Debug, PartialEq, Eq, Structural)]
pub enum OpCode {
    Handshake,
    Frame,
    Close,
    Ping,
    Pong,
}

/// The numeric identity of an opcode on the wire.
pub open spec fn spec_opcode_u32(op: OpCode) -> u32 {
    match op {
        OpCode::Handshake => 0,
        OpCode::Frame => 1,
        OpCode::Close => 2,
        OpCode::Ping => 3,
        OpCode::Pong => 4,
    }
}

/// The opcode a wire value stands for, if any: defined exactly on 0 through 4.
pub open spec fn spec_opcode_from_u32(n: u32) -> Option<OpCode> {
    if n == 0 {
        Some(OpCode::Handshake)
    } else if n == 1 {
        Some(OpCode::Frame)
    } else if n == 2 {
        Some(OpCode::Close)
    } else if n == 3 {
        Some(OpCode::Ping)
    } else if n == 4 {
        Some(OpCode::Pong)
    } else {
        None
    }
}

impl OpCode {
    /// The numeric identity of this opcode.
    pub fn as_u32(&self) -> (n: u32)
        ensures
            n == spec_opcode_u32(*self),
    {
        match self {
            OpCode::Handshake => 0,
            OpCode::Frame => 1,
            OpCode::Close => 2,
            OpCode::Ping => 3,
            OpCode::Pong => 4,
        }
    }

    /// Decodes a wire value: succeeds exactly on 0 through 4, and returns
    /// `InvalidOpCode` on everything else.
    pub fn from_u32(n: u32) -> (r: Result<OpCode, IpcError>)
        ensures
            r matches Ok(op) ==> spec_opcode_from_u32(n) == Some(op),
            r is Ok <==> n <= 4,
            r is Err ==> r == Err::<OpCode, IpcError>(IpcError::InvalidOpCode),
    {
        match n {
            0 => Ok(OpCode::Handshake),
            1 => Ok(OpCode::Frame),
            2 => Ok(OpCode::Close),
            3 => Ok(OpCode::Ping),
            4 => Ok(OpCode::Pong),
            _ => Err(IpcError::InvalidOpCode),
        }
    }
}

/// Opcode totality: every wire value in 0 through 4 stands for exactly one
/// opcode, every other value for none, and decoding inverts the numeric
/// identity.
pub proof fn lemma_opcode_totality(n: u32)
    ensures
        n <= 4 <==> spec_opcode_from_u32(n) is Some,
        spec_opcode_from_u32(n) matches Some(op) ==> spec_opcode_u32(op) == n,
{
}

/// The numeric identity is injective: distinct opcodes have distinct wire
/// values, and encoding then decoding gives the opcode back.
pub proof fn lemma_opcode_round_trip(op: OpCode)
    ensures
        spec_opcode_from_u32(spec_opcode_u32(op)) == Some(op),
{
}

} // verus!
