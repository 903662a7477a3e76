//! The commit log collector: the history command, and the presentation of
//! what it printed.

use vstd::prelude::*;
use vstd::string::*;
use crate::command::{run_command, CommandOutput};
use crate::error::{text_result, Error};
use crate::text::{
    join, join_texts, lemma_split_of_join, lemma_split_pieces_clean, lemma_split_some, split,
    split_text, texts,
};

verus! {

/// A log entry as it is presented: the entry behind a dash and a space.
pub open spec fn formatted_line(entry: Seq<char>) -> Seq<char> {
    "- "@ + entry
}

/// Each entry presented, in the order given.
pub open spec fn formatted_lines(entries: Seq<Seq<char>>) -> Seq<Seq<char>> {
    Seq::new(entries.len(), |i: int| formatted_line(entries[i]))
}

/// The presentation of a whole log: its lines, each presented on its own,
/// joined by newlines again.
pub open spec fn formatted_logs(log: Seq<char>) -> Seq<char> {
    join(formatted_lines(split(log, '\n')), "\n"@)
}

/// The command that prints the history between `base` and the current
/// branch: oldest first, without merges, one line per commit holding the
/// abbreviated hash and the subject.
pub open spec fn log_command(base: Seq<char>) -> Seq<char> {
    "git log --reverse --no-merges --pretty=format:\"%h %s\" "@ + base + "..HEAD"@
}

/// What collecting comes to, given what the run of the history command came
/// to: the runner's error, `NoCommits` for an empty log, else the
/// presentation of the log.
pub open spec fn collected(outcome: Result<Seq<char>, Error>) -> Result<Seq<char>, Error> {
    match outcome {
        Err(e) => Err(e),
        Ok(log) => if log.len() == 0 {
            Err(Error::NoCommits)
        } else {
            Ok(formatted_logs(log))
        },
    }
}

/// Presents one log entry. Nothing else about the entry changes.
pub fn format_commit_log(string: &str) -> (line: String)
    ensures
        line@ == formatted_line(string@),
{
    let mut line = "- ".to_owned();
    line.append(string);
    line
}

/// Presents a log line by line.
pub fn format_commit_logs(log: &str) -> (logs: String)
    ensures
        logs@ == formatted_logs(log@),
{
    let entries = split_text(log, '\n');
    let mut lines: Vec<String> = Vec::new();
    let mut i: usize = 0;
    while i < entries.len()
        invariant
            i <= entries.len(),
            lines@.len() == i,
            texts(lines@) == formatted_lines(texts(entries@).take(i as int)),
        decreases entries.len() - i,
    {
        let ghost before = texts(lines@);
        lines.push(format_commit_log(entries[i].as_str()));
        assert forall|k: int| 0 <= k <= i implies texts(lines@)[k] == formatted_line(
            entries@[k]@,
        ) by {
            if k < i {
                assert(texts(lines@)[k] == before[k]);
                assert(before[k] == formatted_lines(texts(entries@).take(i as int))[k]);
            }
        }
        i += 1;
    }
    assert(texts(entries@).take(entries@.len() as int) =~= texts(entries@));
    join_texts(&lines, "\n")
}

/// The command that prints the history between `base_branch` and the
/// current branch.
pub fn commit_log_command(base_branch: &str) -> (command: String)
    ensures
        command@ == log_command(base_branch@),
{
    let mut command = "git log --reverse --no-merges --pretty=format:\"%h %s\" ".to_owned();
    command.append(base_branch);
    command.append("..HEAD");
    command
}

/// Collects the commit log from what the history command left behind. A
/// failed command gives the runner's error; an empty log gives `NoCommits`,
/// never an empty presentation.
pub fn get_commit_logs(output: CommandOutput) -> (r: Result<String, Error>)
    requires
        output.decodable(),
    ensures
        text_result(r) == collected(output.outcome()),
{
    match run_command(output) {
        Err(e) => Err(e),
        Ok(log) => {
            if log.as_str().is_empty() {
                Err(Error::NoCommits)
            } else {
                Ok(format_commit_logs(log.as_str()))
            }
        },
    }
}

/// Presenting keeps the lines of a log apart and in their order: cut at the
/// newlines, the presentation gives the presented entries, one for one.
pub proof fn lemma_formatted_logs_lines(log: Seq<char>)
    ensures
        split(formatted_logs(log), '\n') == formatted_lines(split(log, '\n')),
{
    reveal_strlit("\n");
    reveal_strlit("- ");
    let entries = split(log, '\n');
    let lines = formatted_lines(entries);
    lemma_split_some(log, '\n');
    lemma_split_pieces_clean(log, '\n');
    assert("\n"@ =~= seq!['\n']);
    lemma_split_of_join(lines, '\n');
}

} // verus!
