use redeploy::envfile::parse_env_lines;

#[test]
fn two_entries_in_order() {
    let lines = parse_env_lines("FOO=bar\nBAZ=qux");
    assert_eq!(lines, vec!["FOO=bar".to_string(), "BAZ=qux".to_string()]);
}

#[test]
fn trailing_newline_adds_no_entry() {
    let lines = parse_env_lines("FOO=bar\nBAZ=qux\n");
    assert_eq!(lines, vec!["FOO=bar".to_string(), "BAZ=qux".to_string()]);
}

#[test]
fn empty_content_has_no_entries() {
    let lines = parse_env_lines("");
    assert!(lines.is_empty());
}

#[test]
fn lone_newline_is_one_empty_entry() {
    let lines = parse_env_lines("\n");
    assert_eq!(lines, vec!["".to_string()]);
}

#[test]
fn crlf_endings_are_stripped() {
    let lines = parse_env_lines("FOO=bar\r\nBAZ=qux\r\n");
    assert_eq!(lines, vec!["FOO=bar".to_string(), "BAZ=qux".to_string()]);
}

#[test]
fn carriage_return_inside_a_line_is_kept() {
    let lines = parse_env_lines("A=b\rc\nD=e\r");
    assert_eq!(lines, vec!["A=b\rc".to_string(), "D=e\r".to_string()]);
}

#[test]
fn blank_lines_are_kept_as_entries() {
    let lines = parse_env_lines("A=1\n\nB=2");
    assert_eq!(lines, vec!["A=1".to_string(), "".to_string(), "B=2".to_string()]);
}

#[test]
fn non_ascii_content_survives() {
    let lines = parse_env_lines("GREETING=héllo\nEMOJI=🙂");
    assert_eq!(lines, vec!["GREETING=héllo".to_string(), "EMOJI=🙂".to_string()]);
}
