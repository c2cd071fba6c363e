//! The error kinds of the relay core.

use vstd::prelude::*;

verus! {

/// Errors of the IPC layer: a wire opcode outside 0 through 4, a malformed
/// frame (bad length or payload that is not UTF-8), or all ten endpoint
/// slots taken at startup.
#[derive(Clone, Copy, Debug, PartialEq, Eq, Structural)]
pub enum IpcError {
    InvalidOpCode,
    DecodeError,
    NoNameAvailable,
}

impl IpcError {
    /// A human-readable description of the error.
    pub fn message(&self) -> (r: &'static str)
        ensures
            *self is InvalidOpCode ==> r@ == "invalid opcode"@,
            *self is DecodeError ==> r@ == "malformed frame"@,
            *self is NoNameAvailable ==> r@ == "no name available"@,
    {
        match self {
            IpcError::InvalidOpCode => "invalid opcode",
            IpcError::DecodeError => "malformed frame",
            IpcError::NoNameAvailable => "no name available",
        }
    }
}

/// Errors of the relay session layer: a handshake during which not one
/// peer host could be connected.
#[derive(Clone, Copy, Debug, PartialEq, Eq, Structural)]
pub enum SwitchError {
    NoDiscords,
}

impl SwitchError {
    /// A human-readable description of the error.
    pub fn message(&self) -> (r: &'static str)
        ensures
            r@ == "no Discord IPCs available"@,
    {
        match self {
            SwitchError::NoDiscords => "no Discord IPCs available",
        }
    }
}

} // verus!
