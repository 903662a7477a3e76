//! The command runner, without the running: how a command is handed to the
//! system shell, and what its run comes to once the process has ended.

use vstd::prelude::*;
use vstd::utf8::*;
use crate::error::{text_result, Error};
use crate::text::texts;

verus! {

/// What a process is started with.
#[derive(Debug, PartialEq, Eq)]
pub struct Invocation {
    pub program: String,
    pub args: Vec<String>,
}

/// What a process left behind when it ended.
#[derive(Debug, PartialEq, Eq)]
pub struct CommandOutput {
    /// The exit code; `None` where the process ended without one.
    pub exit_code: Option<i32>,
    /// The bytes it wrote to its standard output.
    pub stdout: Vec<u8>,
}

impl CommandOutput {
    /// The process ended with exit code zero.
    pub open spec fn succeeded(&self) -> bool {
        self.exit_code == Some(0i32)
    }

    /// The output can be read: where the process succeeded, its standard
    /// output is UTF-8. What a failed process wrote is never looked at.
    pub open spec fn decodable(&self) -> bool {
        self.succeeded() ==> valid_utf8(self.stdout@)
    }

    /// What the run comes to: the text of the standard output after a
    /// success, `CommandFailed` after anything else.
    pub open spec fn outcome(&self) -> Result<Seq<char>, Error> {
        if self.succeeded() {
            Ok(decode_utf8(self.stdout@))
        } else {
            Err(Error::CommandFailed)
        }
    }
}

/// `String::from_utf8` gives a string exactly for the byte vectors that are
/// UTF-8, and that string is made of the very bytes it was given.
#[verifier::external_body]
fn text_of_bytes(bytes: Vec<u8>) -> (text: Option<String>)
    ensures
        text is Some <==> valid_utf8(bytes@),
        text matches Some(t) ==> encode_utf8(t@) == bytes@,
{
    String::from_utf8(bytes).ok()
}

/// The invocation that runs `command` through the system shell.
pub fn shell(command: &str) -> (invocation: Invocation)
    ensures
        invocation.program@ == "/bin/sh"@,
        texts(invocation.args@) == seq!["-c"@, command@],
{
    let mut args: Vec<String> = Vec::new();
    args.push("-c".to_owned());
    args.push(command.to_owned());
    Invocation { program: "/bin/sh".to_owned(), args }
}

/// What the run of a command comes to. After exit code zero it is the text
/// the command wrote, byte for byte; after any other end it is
/// `CommandFailed`, whatever was written.
pub fn run_command(output: CommandOutput) -> (r: Result<String, Error>)
    requires
        output.decodable(),
    ensures
        text_result(r) == output.outcome(),
        r matches Ok(text) ==> encode_utf8(text@) == output.stdout@,
{
    match output.exit_code {
        Some(0) => {
            match text_of_bytes(output.stdout) {
                Some(text) => {
                    proof {
                        encode_utf8_decode_utf8(text@);
                    }
                    Ok(text)
                },
                None => vstd::pervasive::unreached(),
            }
        },
        _ => Err(Error::CommandFailed),
    }
}

} // verus!
