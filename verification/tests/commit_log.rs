use gen_pr::command::CommandOutput;
use gen_pr::commit_log::{commit_log_command, format_commit_log, format_commit_logs, get_commit_logs};
use gen_pr::error::Error;
use gen_pr::text::split_text;

fn printed(text: &str) -> CommandOutput {
    CommandOutput { exit_code: Some(0), stdout: text.as_bytes().to_vec() }
}

#[test]
fn entry_gets_a_dash_and_a_space() {
    assert_eq!(format_commit_log("abc123 Fix bug"), "- abc123 Fix bug");
}

#[test]
fn empty_entry_is_just_the_prefix() {
    assert_eq!(format_commit_log(""), "- ");
}

#[test]
fn formatting_twice_adds_the_prefix_twice() {
    assert_eq!(format_commit_log(&format_commit_log("x")), "- - x");
}

#[test]
fn entry_is_passed_through_untouched() {
    assert_eq!(format_commit_log("  \"quoted\" $HOME\t`tick` é"), "-   \"quoted\" $HOME\t`tick` é");
}

#[test]
fn history_command_names_the_range() {
    assert_eq!(
        commit_log_command("main"),
        "git log --reverse --no-merges --pretty=format:\"%h %s\" main..HEAD"
    );
}

#[test]
fn history_command_with_empty_base() {
    assert_eq!(commit_log_command(""), "git log --reverse --no-merges --pretty=format:\"%h %s\" ..HEAD");
}

#[test]
fn one_entry_is_one_line() {
    assert_eq!(get_commit_logs(printed("abc123 Fix bug")), Ok("- abc123 Fix bug".to_string()));
}

#[test]
fn entries_keep_their_order() {
    assert_eq!(
        get_commit_logs(printed("1111111 first\n2222222 second\n3333333 third")),
        Ok("- 1111111 first\n- 2222222 second\n- 3333333 third".to_string())
    );
}

#[test]
fn trailing_newline_gives_a_last_empty_line() {
    assert_eq!(get_commit_logs(printed("abc123 Fix bug\n")), Ok("- abc123 Fix bug\n- ".to_string()));
}

#[test]
fn empty_log_is_no_commits() {
    assert_eq!(get_commit_logs(printed("")), Err(Error::NoCommits));
}

#[test]
fn failed_history_command_is_the_runners_error() {
    let output = CommandOutput { exit_code: Some(128), stdout: b"fatal".to_vec() };
    assert_eq!(get_commit_logs(output), Err(Error::CommandFailed));
}

#[test]
fn formatting_the_empty_log_alone_is_one_prefix() {
    assert_eq!(format_commit_logs(""), "- ");
}

#[test]
fn presentation_has_one_line_per_entry() {
    let log = "a1 one\n\nb2 two\nc3 three";
    let lines = split_text(&format_commit_logs(log), '\n');
    let entries = split_text(log, '\n');
    assert_eq!(lines.len(), entries.len());
    for (line, entry) in lines.iter().zip(entries.iter()) {
        assert_eq!(line, &format_commit_log(entry));
    }
}
