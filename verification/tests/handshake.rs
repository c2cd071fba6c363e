use ipc_relay::handshake::extract_client_id;

#[test]
fn extracts_client_id_from_handshake_json() {
    let payload = "{\"v\":1,\"client_id\":\"123456\"}";
    assert_eq!(extract_client_id(payload).unwrap(), "123456");
}

#[test]
fn missing_field_yields_nothing() {
    assert_eq!(extract_client_id("{\"v\":1}"), None);
    assert_eq!(extract_client_id(""), None);
}

#[test]
fn empty_digits_do_not_match() {
    assert_eq!(extract_client_id("{\"client_id\":\"\"}"), None);
}

#[test]
fn unterminated_digits_do_not_match() {
    assert_eq!(extract_client_id("{\"client_id\":\"123"), None);
}

#[test]
fn leftmost_whole_match_wins() {
    // the first occurrence is not followed by digits and a quote; the
    // second is, and its digits are captured
    let payload = "{\"client_id\":\"x\",\"client_id\":\"42\"}";
    assert_eq!(extract_client_id(payload).unwrap(), "42");
}

#[test]
fn digits_stop_at_first_non_digit() {
    assert_eq!(extract_client_id("\"client_id\":\"007\" trailing"), Some(String::from("007")));
}

#[test]
fn survives_non_ascii_text_around_the_field() {
    let payload = "{\"name\":\"caf\u{e9} \u{2713}\",\"client_id\":\"55\"}";
    assert_eq!(extract_client_id(payload).unwrap(), "55");
}
