//! A local IPC multiplexing relay for the Discord Rich Presence protocol.
//!
//! One local endpoint (`discord-ipc-0` … `discord-ipc-9`) is claimed and
//! advertised to Rich-Presence clients; every frame a client sends is fanned
//! out to all other Discord-compatible endpoints on the host, and their
//! replies are funnelled back.  This crate holds the verified core: the
//! opcode taxonomy, the frame codec, endpoint-name allocation, handshake
//! `client_id` extraction, the per-session state machine, and the
//! application-name cache.  Platform I/O lives outside.

use vstd::prelude::*;

pub mod cache;
pub mod codec;
pub mod error;
pub mod handshake;
pub mod naming;
pub mod opcode;
pub mod session;

verus! {

/// The relay never interprets payloads beyond framing; this bound is the
/// wire format's own: a frame's length field is an unsigned 32-bit integer.
pub open spec fn fits_u32(n: nat) -> bool {
    n <= u32::MAX
}

} // verus!
