use gen_pr::config::{env_file_path, get_env_value};
use gen_pr::error::Error;

fn lookup(key: &str, file: Option<&str>) -> Result<String, Error> {
    get_env_value(key.to_string(), file)
}

#[test]
fn value_of_a_key_in_the_store() {
    assert_eq!(lookup("BASE_BRANCH", Some("BASE_BRANCH=main")), Ok("main".to_string()));
}

#[test]
fn key_missing_from_the_store() {
    assert_eq!(lookup("BASE_BRANCH_MM", Some("BASE_BRANCH=main")), Err(Error::KeyNotFound));
}

#[test]
fn missing_file_is_its_own_error() {
    assert_eq!(lookup("BASE_BRANCH", None), Err(Error::ConfigFileMissing));
}

#[test]
fn empty_file_holds_no_key() {
    assert_eq!(lookup("BASE_BRANCH", Some("")), Err(Error::KeyNotFound));
}

#[test]
fn key_without_value_is_an_empty_value() {
    assert_eq!(lookup("ISSUE_PREFIX", Some("BASE_BRANCH=main\nISSUE_PREFIX=\n")), Err(Error::EmptyValue));
}

#[test]
fn second_line_is_found() {
    assert_eq!(
        lookup("ISSUE_PREFIX", Some("BASE_BRANCH=develop\nISSUE_PREFIX=JIRA-\n")),
        Ok("JIRA-".to_string())
    );
}

#[test]
fn first_line_that_holds_the_key_wins() {
    assert_eq!(lookup("BRANCH", Some("BRANCH=one\nBRANCH=two")), Ok("one".to_string()));
}

#[test]
fn key_inside_a_longer_key_is_found_there() {
    assert_eq!(
        lookup("BASE_BRANCH", Some("OLD_BASE_BRANCH_NAME=legacy\nBASE_BRANCH=main")),
        Ok("legacy".to_string())
    );
}

#[test]
fn key_is_looked_for_in_the_whole_line() {
    assert_eq!(lookup("main", Some("BASE_BRANCH=main")), Ok("main".to_string()));
}

#[test]
fn value_runs_from_the_first_equals_sign() {
    assert_eq!(lookup("URL", Some("URL=https://host/?a=b")), Ok("https://host/?a=b".to_string()));
}

#[test]
fn line_without_equals_sign_is_its_own_value() {
    assert_eq!(lookup("FLAG", Some("FLAG")), Ok("FLAG".to_string()));
}

#[test]
fn empty_first_line_matching_empty_key_is_an_empty_value() {
    assert_eq!(lookup("", Some("\nA=b")), Err(Error::EmptyValue));
}

#[test]
fn carriage_returns_are_kept() {
    assert_eq!(lookup("A", Some("A=b\r\nC=d")), Ok("b\r".to_string()));
}

#[test]
fn the_file_is_dot_env() {
    assert_eq!(env_file_path(), ".env");
}
