use rumpv::codec::encode_commands;
use rumpv::config::{parse_conf, DEFAULT_LOADFILE_FLAG, DEFAULT_SOCKET_PATH};

#[test]
fn empty_configuration_gives_defaults() {
    let (socket, flag) = parse_conf("");
    assert_eq!(socket, "\\\\.\\pipe\\umpv");
    assert_eq!(flag, "replace");
    assert_eq!(socket, DEFAULT_SOCKET_PATH);
    assert_eq!(flag, DEFAULT_LOADFILE_FLAG);
}

#[test]
fn keys_are_read_and_trimmed() {
    let (socket, flag) = parse_conf("[umpv]\nSocket_Path = \\\\.\\pipe\\other \nLoadfile_Flag=\tappend-play\n");
    assert_eq!(socket, "\\\\.\\pipe\\other");
    assert_eq!(flag, "append-play");
}

#[test]
fn crlf_lines_are_read() {
    let (socket, flag) = parse_conf("Socket_Path = p1\r\nLoadfile_Flag = append\r\n");
    assert_eq!(socket, "p1");
    assert_eq!(flag, "append");
}

#[test]
fn last_setting_wins() {
    let (socket, _) = parse_conf("Socket_Path = a\nSocket_Path = b\n");
    assert_eq!(socket, "b");
}

#[test]
fn section_headers_blank_lines_and_unknown_keys_are_ignored() {
    let (socket, flag) = parse_conf("\n   \n[Socket_Path = x]\nOther = y\nno equals sign\n");
    assert_eq!(socket, "\\\\.\\pipe\\umpv");
    assert_eq!(flag, "replace");
}

#[test]
fn value_is_split_at_first_equals() {
    let (socket, _) = parse_conf("  Socket_Path  =  a=b  ");
    assert_eq!(socket, "a=b");
}

#[test]
fn unset_mode_encodes_replace() {
    let (_, flag) = parse_conf("Socket_Path = \\\\.\\pipe\\x\n");
    let files = vec!["a.mp4".to_string()];
    assert_eq!(encode_commands(&files, &flag), "raw loadfile \"a.mp4\" \"replace\"\n");
}
