use ipc_relay::codec::Data;
use ipc_relay::error::SwitchError;
use ipc_relay::opcode::OpCode;
use ipc_relay::session::{Action, ClientSession, SessionState};

fn frame(opcode: OpCode, msg: &str) -> Data {
    Data { opcode, msg: String::from(msg) }
}

fn handshake_to_relaying(session: &mut ClientSession, payload: &str, hosts: usize) -> Vec<Action> {
    let actions = session.handle(frame(OpCode::Handshake, payload));
    assert!(matches!(actions.last(), Some(Action::ConnectHosts)));
    session.hosts_connected(hosts).unwrap()
}

#[test]
fn single_host_happy_path() {
    // the relay took discord-ipc-0; one peer lives on discord-ipc-1
    let mut session = ClientSession::new();
    let payload = "{\"v\":1,\"client_id\":\"123456\"}";

    let actions = session.handle(frame(OpCode::Handshake, payload));
    assert_eq!(actions.len(), 2);
    match &actions[0] {
        Action::LookupApp(id) => assert_eq!(id, "123456"),
        _ => panic!("expected the app lookup first"),
    }
    assert!(matches!(actions[1], Action::ConnectHosts));

    let replay = session.hosts_connected(1).unwrap();
    assert_eq!(session.state, SessionState::Relaying);
    assert_eq!(replay.len(), 1);
    match &replay[0] {
        Action::Broadcast(d) => {
            assert_eq!(d.opcode, OpCode::Handshake);
            assert_eq!(d.msg, payload);
        },
        _ => panic!("expected the handshake replay broadcast"),
    }

    let relayed = session.handle(frame(OpCode::Frame, "{\"cmd\":\"X\"}"));
    assert_eq!(relayed.len(), 1);
    match &relayed[0] {
        Action::Broadcast(d) => {
            assert_eq!(d.opcode, OpCode::Frame);
            assert_eq!(d.msg, "{\"cmd\":\"X\"}");
        },
        _ => panic!("expected the frame to be broadcast"),
    }
}

#[test]
fn ping_earns_exactly_one_pong_and_reaches_no_host() {
    let mut session = ClientSession::new();
    handshake_to_relaying(&mut session, "{\"client_id\":\"1\"}", 1);

    let actions = session.handle(frame(OpCode::Ping, ""));
    assert_eq!(actions.len(), 1);
    match &actions[0] {
        Action::SendClient(d) => {
            assert_eq!(d.opcode, OpCode::Pong);
            assert_eq!(d.msg, "\"4\"");
        },
        _ => panic!("a ping must earn a pong to the client, nothing else"),
    }
    assert_eq!(session.state, SessionState::Relaying);
}

#[test]
fn zero_hosts_close_the_session() {
    let mut session = ClientSession::new();
    let actions = session.handle(frame(OpCode::Handshake, "{\"client_id\":\"9\"}"));
    assert!(matches!(actions.last(), Some(Action::ConnectHosts)));
    assert_eq!(session.hosts_connected(0).unwrap_err(), SwitchError::NoDiscords);
    assert_eq!(session.state, SessionState::Closing);
    assert!(session.closed);
}

#[test]
fn fan_out_two_hosts_in_order() {
    let mut session = ClientSession::new();
    let replay = handshake_to_relaying(&mut session, "{\"client_id\":\"7\"}", 2);
    assert!(matches!(&replay[0], Action::Broadcast(d) if d.opcode == OpCode::Handshake));

    let mut seen = Vec::new();
    for msg in ["A", "B", "C"] {
        let actions = session.handle(frame(OpCode::Frame, msg));
        assert_eq!(actions.len(), 1);
        match &actions[0] {
            Action::Broadcast(d) => {
                assert_eq!(d.opcode, OpCode::Frame);
                seen.push(d.msg.clone());
            },
            _ => panic!("frames must be broadcast"),
        }
    }
    // one bus feeds every host, so each surviving host sees A, B, C in order
    assert_eq!(seen, vec!["A", "B", "C"]);
}

#[test]
fn host_failure_mid_session_keeps_the_session_open() {
    let mut session = ClientSession::new();
    handshake_to_relaying(&mut session, "{\"client_id\":\"7\"}", 2);

    session.host_closed();
    assert_eq!(session.state, SessionState::Relaying);
    assert_eq!(session.hosts, 1);

    let actions = session.handle(frame(OpCode::Frame, "A"));
    assert!(matches!(&actions[0], Action::Broadcast(d) if d.msg == "A"));
}

#[test]
fn last_host_gone_closes_the_session() {
    let mut session = ClientSession::new();
    handshake_to_relaying(&mut session, "{\"client_id\":\"7\"}", 1);
    session.host_closed();
    assert_eq!(session.state, SessionState::Closing);
    assert!(session.closed);
}

#[test]
fn cancellation_closes_an_idle_session() {
    let mut session = ClientSession::new();
    handshake_to_relaying(&mut session, "{\"client_id\":\"7\"}", 1);
    session.close();
    assert_eq!(session.state, SessionState::Closing);
    assert!(session.closed);
}

#[test]
fn close_opcode_ends_the_relaying_state() {
    let mut session = ClientSession::new();
    handshake_to_relaying(&mut session, "{\"client_id\":\"7\"}", 1);
    let actions = session.handle(frame(OpCode::Close, ""));
    assert!(actions.is_empty());
    assert!(session.closed);
}

#[test]
fn non_handshake_first_frame_closes_the_session() {
    let mut session = ClientSession::new();
    let actions = session.handle(frame(OpCode::Frame, "too early"));
    assert!(actions.is_empty());
    assert_eq!(session.state, SessionState::Closing);
}

#[test]
fn handshake_without_client_id_still_connects() {
    let mut session = ClientSession::new();
    let actions = session.handle(frame(OpCode::Handshake, "{\"v\":1}"));
    assert_eq!(actions.len(), 1);
    assert!(matches!(actions[0], Action::ConnectHosts));
    assert_eq!(session.client_id, None);
}

#[test]
fn handshake_while_relaying_is_broadcast_not_reparsed() {
    let mut session = ClientSession::new();
    handshake_to_relaying(&mut session, "{\"client_id\":\"7\"}", 1);
    let actions = session.handle(frame(OpCode::Handshake, "{\"client_id\":\"8\"}"));
    assert_eq!(actions.len(), 1);
    assert!(matches!(&actions[0], Action::Broadcast(d) if d.opcode == OpCode::Handshake));
    assert_eq!(session.handshake_msg.as_deref(), Some("{\"client_id\":\"7\"}"));
}

#[test]
fn display_identity_prefers_app_name_then_client_id() {
    let mut session = ClientSession::new();
    assert_eq!(session.id(), "Unidentified");
    session.handle(frame(OpCode::Handshake, "{\"client_id\":\"123\"}"));
    assert_eq!(session.id(), "123");
    session.app_resolved(Some(String::from("My Game")));
    assert_eq!(session.id(), "My Game");
}

#[test]
fn failed_lookup_keeps_client_id_as_identity() {
    let mut session = ClientSession::new();
    session.handle(frame(OpCode::Handshake, "{\"client_id\":\"123\"}"));
    session.app_resolved(None);
    assert_eq!(session.id(), "123");
}
