use ipc_relay::error::IpcError;
use ipc_relay::naming::{
    get_discord_pipes, get_next_available_pipe, names, next_name, other_ipc_names, path,
    pipe_name, slot_name,
};

#[test]
fn slot_names_follow_the_pattern() {
    assert_eq!(slot_name(0), "discord-ipc-0");
    assert_eq!(slot_name(9), "discord-ipc-9");
}

#[test]
fn names_of_empty_directory() {
    let present = [false; 10];
    assert!(names(&present).is_empty());
}

#[test]
fn names_lists_live_slots_in_order() {
    let mut present = [false; 10];
    present[0] = true;
    present[3] = true;
    present[9] = true;
    assert_eq!(names(&present), vec!["discord-ipc-0", "discord-ipc-3", "discord-ipc-9"]);
}

#[test]
fn next_name_fresh_directory_prefers_slot_zero() {
    let present = [false; 10];
    assert_eq!(next_name(&present).unwrap(), "discord-ipc-0");
}

#[test]
fn next_name_skips_taken_slots() {
    let mut present = [false; 10];
    present[0] = true;
    present[1] = true;
    present[3] = true;
    assert_eq!(next_name(&present).unwrap(), "discord-ipc-2");
}

#[test]
fn next_name_fails_when_all_ten_taken() {
    let present = [true; 10];
    assert_eq!(next_name(&present).unwrap_err(), IpcError::NoNameAvailable);
}

#[test]
fn other_names_exclude_our_own() {
    let mut present = [false; 10];
    present[0] = true;
    present[1] = true;
    present[3] = true;
    assert_eq!(other_ipc_names(&present, 0), vec!["discord-ipc-1", "discord-ipc-3"]);
}

#[test]
fn other_names_of_lonely_server_are_empty() {
    let mut present = [false; 10];
    present[2] = true;
    assert!(other_ipc_names(&present, 2).is_empty());
}

#[test]
fn pipe_paths_carry_the_namespace() {
    assert_eq!(pipe_name(0), r"\\.\pipe\discord-ipc-0");
    let mut present = [false; 10];
    present[1] = true;
    assert_eq!(get_discord_pipes(&present), vec![r"\\.\pipe\discord-ipc-1"]);
}

#[test]
fn next_available_pipe_is_lowest_free() {
    let mut present = [false; 10];
    present[0] = true;
    assert_eq!(get_next_available_pipe(&present), r"\\.\pipe\discord-ipc-1");
}

#[test]
fn path_joins_directory_and_name() {
    assert_eq!(path("/tmp", "discord-ipc-0"), "/tmp/discord-ipc-0");
}
