use gen_pr::command::{run_command, shell, CommandOutput};
use gen_pr::commit_log::{commit_log_command, format_commit_log, get_commit_logs};
use gen_pr::config::get_env_value;
use gen_pr::error::Error;
use gen_pr::template::get_pr_details;

const ENV_FILE: &str = "ISSUE_PREFIX=#\nBASE_BRANCH=main";

fn left_behind(exit_code: i32, stdout: &str) -> CommandOutput {
    CommandOutput { exit_code: Some(exit_code), stdout: stdout.as_bytes().to_vec() }
}

#[test]
fn pull_request_gen_test_get_env_value_found() {
    let value = get_env_value(String::from("BASE_BRANCH"), Some(ENV_FILE));

    assert_eq!(value.unwrap(), "main");
}

#[test]
fn pull_request_gen_test_get_env_value_not_found() {
    let value = get_env_value(String::from("BASE_BRANCH_MM"), Some(ENV_FILE));

    assert!(value.is_err());
    assert_eq!(value, Err(Error::KeyNotFound));
}

// a command that the shell runs and that prints one line
#[test]
fn pull_request_gen_test_run_command_valid() {
    let invocation = shell("echo 'Hello World Mier!!!!'");
    assert_eq!(invocation.program, "/bin/sh");
    assert_eq!(invocation.args, vec!["-c", "echo 'Hello World Mier!!!!'"]);

    let result = run_command(left_behind(0, "Hello World Mier!!!!\n"));

    assert!(result.is_ok());
    assert_eq!(result.unwrap(), "Hello World Mier!!!!\n");
}

// a command that the shell does not find: it leaves with 127
#[test]
fn pull_request_gen_test_run_command_invalid() {
    let invocation = shell("halihali 'Hello World Mier!!!!'");
    assert_eq!(invocation.args, vec!["-c", "halihali 'Hello World Mier!!!!'"]);

    let result = run_command(left_behind(127, ""));

    assert!(result.is_err());
}

#[test]
fn pull_request_gen_test_format_commit_log_valid() {
    let result = format_commit_log("Some other string");

    assert_eq!(result, "- Some other string");
}

// a base branch that the repository does not have: the history command
// leaves with 128
#[test]
fn pull_request_gen_test_git_commit_logs_invalid_branch() {
    let command = commit_log_command("mier");
    assert_eq!(command, "git log --reverse --no-merges --pretty=format:\"%h %s\" mier..HEAD");

    let result = get_commit_logs(left_behind(128, ""));

    assert!(result.is_err());
}

#[test]
fn pull_request_gen_test_git_pr_details_feature_branch() {
    let result = get_pr_details(true);

    assert_eq!(result.0, "As pet ticket above, Product wants to improve this feature, hence we are ...");
    assert_eq!(result.1, "Normal|Dark Mode|Accessibility |RTL\n---|---|---|---\n<img src= width=200 />|<img src= width=200 />|<img src= width=200 />|<img src= width=200 />\n");
}

#[test]
fn pull_request_gen_test_git_pr_details_not_feature_branch() {
    let result = get_pr_details(false);

    assert_eq!(result.0, "As pet ticket above, we need to fix the defect in this release.");
    assert_eq!(result.1, "Before|After\n-|-\n<img src= width=200 />|<img src= width=200 />\n");
}
