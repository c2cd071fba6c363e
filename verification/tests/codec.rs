use ipc_relay::codec::{decode, decode_header, decode_payload, Data};
use ipc_relay::error::IpcError;
use ipc_relay::opcode::OpCode;

#[test]
fn encode_exact_bytes() {
    let d = Data { opcode: OpCode::Frame, msg: String::from("hi") };
    assert_eq!(d.len(), 2);
    let buf = d.to_buf();
    assert_eq!(buf, vec![1, 0, 0, 0, 2, 0, 0, 0, b'h', b'i']);
}

#[test]
fn encode_empty_payload() {
    let d = Data { opcode: OpCode::Ping, msg: String::new() };
    assert_eq!(d.len(), 0);
    let buf = d.to_buf();
    assert_eq!(buf, vec![3, 0, 0, 0, 0, 0, 0, 0]);
}

#[test]
fn round_trip_handshake() {
    let d = Data { opcode: OpCode::Handshake, msg: String::from("{\"v\":1,\"client_id\":\"123456\"}") };
    let buf = d.to_buf();
    let back = decode(&buf).unwrap();
    assert_eq!(back.opcode, OpCode::Handshake);
    assert_eq!(back.msg, d.msg);
}

#[test]
fn round_trip_non_ascii() {
    let d = Data { opcode: OpCode::Frame, msg: String::from("h\u{e9}llo \u{2713}") };
    // one two-byte and one three-byte scalar beside five ASCII bytes
    assert_eq!(d.len(), 10);
    let buf = d.to_buf();
    assert_eq!(buf.len(), 18);
    let back = decode(&buf).unwrap();
    assert_eq!(back.opcode, OpCode::Frame);
    assert_eq!(back.msg, d.msg);
}

#[test]
fn decode_header_valid() {
    let hdr = [4u8, 0, 0, 0, 7, 0, 0, 0];
    let (op, len) = decode_header(&hdr).unwrap();
    assert_eq!(op, OpCode::Pong);
    assert_eq!(len, 7);
}

#[test]
fn decode_header_invalid_opcode() {
    let hdr = [5u8, 0, 0, 0, 0, 0, 0, 0];
    assert_eq!(decode_header(&hdr).unwrap_err(), IpcError::InvalidOpCode);
}

#[test]
fn decode_short_buffer() {
    let buf = [0u8, 0, 0, 0, 0, 0, 0];
    assert_eq!(decode(&buf).unwrap_err(), IpcError::DecodeError);
}

#[test]
fn decode_length_mismatch() {
    // length field says 3, but only 2 payload bytes follow
    let buf = [1u8, 0, 0, 0, 3, 0, 0, 0, b'a', b'b'];
    assert_eq!(decode(&buf).unwrap_err(), IpcError::DecodeError);
}

#[test]
fn decode_invalid_opcode_wins_over_length() {
    // the read side decodes the opcode before it reads any payload
    let buf = [9u8, 0, 0, 0, 3, 0, 0, 0];
    assert_eq!(decode(&buf).unwrap_err(), IpcError::InvalidOpCode);
}

#[test]
fn decode_bad_utf8() {
    let buf = [1u8, 0, 0, 0, 1, 0, 0, 0, 0xff];
    assert_eq!(decode(&buf).unwrap_err(), IpcError::DecodeError);
}

#[test]
fn decode_payload_keeps_opcode_and_text() {
    let d = decode_payload(OpCode::Close, b"bye".to_vec()).unwrap();
    assert_eq!(d.opcode, OpCode::Close);
    assert_eq!(d.msg, "bye");
}

#[test]
fn decode_payload_rejects_bad_utf8() {
    assert_eq!(decode_payload(OpCode::Frame, vec![0xc0]).unwrap_err(), IpcError::DecodeError);
}

#[test]
fn error_messages() {
    assert_eq!(IpcError::InvalidOpCode.message(), "invalid opcode");
    assert_eq!(IpcError::DecodeError.message(), "malformed frame");
    assert_eq!(IpcError::NoNameAvailable.message(), "no name available");
}
