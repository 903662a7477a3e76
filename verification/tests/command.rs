use gen_pr::command::{run_command, shell, CommandOutput};
use gen_pr::error::Error;

#[test]
fn shell_runs_the_command_with_dash_c() {
    let invocation = shell("git status");
    assert_eq!(invocation.program, "/bin/sh");
    assert_eq!(invocation.args, vec!["-c".to_string(), "git status".to_string()]);
}

#[test]
fn success_returns_the_captured_text() {
    let output = CommandOutput { exit_code: Some(0), stdout: b"abc123 Fix bug\n".to_vec() };
    assert_eq!(run_command(output), Ok("abc123 Fix bug\n".to_string()));
}

#[test]
fn success_with_empty_output_is_empty_text() {
    let output = CommandOutput { exit_code: Some(0), stdout: Vec::new() };
    assert_eq!(run_command(output), Ok(String::new()));
}

#[test]
fn success_decodes_wide_characters() {
    let bytes = vec![0x63, 0x61, 0x66, 0xc3, 0xa9, 0x20, 0xe2, 0x9c, 0x93, 0x20, 0xf0, 0x9f, 0x98, 0x80];
    let text = run_command(CommandOutput { exit_code: Some(0), stdout: bytes.clone() }).unwrap();
    assert_eq!(text, "café ✓ 😀");
    assert_eq!(text.chars().count(), 8);
    assert_eq!(text.into_bytes(), bytes);
}

#[test]
fn nonzero_exit_fails_whatever_was_written() {
    for code in [1, 2, 127, 128, 255, -1] {
        let output = CommandOutput { exit_code: Some(code), stdout: b"partial output".to_vec() };
        assert_eq!(run_command(output), Err(Error::CommandFailed));
    }
}

#[test]
fn nonzero_exit_does_not_read_the_output() {
    let output = CommandOutput { exit_code: Some(1), stdout: vec![0xff, 0xfe, 0x80] };
    assert_eq!(run_command(output), Err(Error::CommandFailed));
}

#[test]
fn end_without_exit_code_fails() {
    let output = CommandOutput { exit_code: None, stdout: b"killed".to_vec() };
    assert_eq!(run_command(output), Err(Error::CommandFailed));
}
