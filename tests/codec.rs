use rumpv::codec::{encode_command, encode_commands, escape_mpv_string};

fn unescape(t: &str) -> String {
    let mut out = String::new();
    let mut chars = t.chars();
    while let Some(c) = chars.next() {
        if c == '\\' {
            match chars.next() {
                Some('n') => out.push('\n'),
                Some(d) => out.push(d),
                None => out.push('\\'),
            }
        } else {
            out.push(c);
        }
    }
    out
}

#[test]
fn escape_plain_text_is_unchanged() {
    assert_eq!(escape_mpv_string("C:/videos/a.mp4"), "C:/videos/a.mp4");
    assert_eq!(escape_mpv_string(""), "");
}

#[test]
fn escape_each_special_character() {
    assert_eq!(escape_mpv_string("\\"), "\\\\");
    assert_eq!(escape_mpv_string("\""), "\\\"");
    assert_eq!(escape_mpv_string("\n"), "\\n");
    assert_eq!(escape_mpv_string("C:\\v\\\"x\"\ny"), "C:\\\\v\\\\\\\"x\\\"\\ny");
}

#[test]
fn escape_keeps_non_ascii_text() {
    assert_eq!(escape_mpv_string("视频\\é.mkv"), "视频\\\\é.mkv");
}

#[test]
fn escape_round_trip() {
    for s in ["a\\b\"c\nd", "\\n", "\"\"\n\n\\\\", "plain", "ends with \\"] {
        let e = escape_mpv_string(s);
        assert!(!e.contains('\n'));
        assert_eq!(unescape(&e), s);
    }
}

#[test]
fn command_line_shape() {
    assert_eq!(
        encode_command("C:\\a \"b\".mp4", "replace"),
        "raw loadfile \"C:\\\\a \\\"b\\\".mp4\" \"replace\"\n"
    );
}

#[test]
fn command_line_has_one_newline() {
    let line = encode_command("x\ny\nz", "append");
    assert_eq!(line, "raw loadfile \"x\\ny\\nz\" \"append\"\n");
    assert_eq!(line.matches('\n').count(), 1);
    assert!(line.ends_with('\n'));
}

#[test]
fn command_stream_keeps_order() {
    let files = vec!["b.mp4".to_string(), "a.mp4".to_string(), "http://c".to_string()];
    assert_eq!(
        encode_commands(&files, "append-play"),
        "raw loadfile \"b.mp4\" \"append-play\"\n\
         raw loadfile \"a.mp4\" \"append-play\"\n\
         raw loadfile \"http://c\" \"append-play\"\n"
    );
}

#[test]
fn command_stream_of_nothing_is_empty() {
    assert_eq!(encode_commands(&Vec::new(), "replace"), "");
}
