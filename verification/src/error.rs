//! The ways in which a run can stop short.

use vstd::prelude::*;

verus! {

/// Why a stage gave up. Every one of them ends the run: nothing is retried.
#[derive(Clone, Copy, Debug, PartialEq, Eq, Structural)]
pub enum Error {
    /// A command left with an exit status other than zero.
    CommandFailed,
    /// The history between the base branch and the current one is empty.
    NoCommits,
    /// There is no configuration file.
    ConfigFileMissing,
    /// No line of the configuration file holds the key.
    KeyNotFound,
    /// The line that holds the key gives it no value.
    EmptyValue,
    /// The current branch could not be pushed upstream.
    PushFailed,
    /// The branch went upstream, but the pull request was not created.
    PullRequestCreationFailed,
}

impl Error {
    /// The line that tells the user of this error.
    pub open spec fn message_text(self) -> Seq<char> {
        match self {
            Error::CommandFailed => "Command failed to run"@,
            Error::NoCommits => "No commit logs found"@,
            Error::ConfigFileMissing => "No .env file found"@,
            Error::KeyNotFound => "No value found"@,
            Error::EmptyValue => "No value found"@,
            Error::PushFailed => "Failed to push the branch."@,
            Error::PullRequestCreationFailed => "Command failed to run"@,
        }
    }

    /// The line that tells the user of this error. A key that is missing and
    /// a key without a value read alike, and a pull request that was not
    /// created is reported in the words of the command runner.
    pub fn message(&self) -> (line: String)
        ensures
            line@ == self.message_text(),
    {
        match self {
            Error::CommandFailed => "Command failed to run".to_owned(),
            Error::NoCommits => "No commit logs found".to_owned(),
            Error::ConfigFileMissing => "No .env file found".to_owned(),
            Error::KeyNotFound => "No value found".to_owned(),
            Error::EmptyValue => "No value found".to_owned(),
            Error::PushFailed => "Failed to push the branch.".to_owned(),
            Error::PullRequestCreationFailed => "Command failed to run".to_owned(),
        }
    }
}

/// What a result says once its text is read as a sequence of characters.
pub open spec fn text_result(r: Result<String, Error>) -> Result<Seq<char>, Error> {
    match r {
        Ok(text) => Ok(text@),
        Err(e) => Err(e),
    }
}

} // verus!
