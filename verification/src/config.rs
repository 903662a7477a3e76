//! The configuration resolver: the value of a key among the `KEY=value`
//! lines of a configuration file.

use vstd::prelude::*;
use crate::error::{text_result, Error};
use crate::text::{
    after_first, contains_text, has_part, join, lemma_split_of_join, occurs_at, split, split_text,
    text_after_first, texts,
};

verus! {

/// The first of `lines` in which `key` stands, if there is one. The key may
/// stand anywhere in the line: a key that is part of a longer key is found
/// in the longer key's line too.
pub open spec fn first_line_with(lines: Seq<Seq<char>>, key: Seq<char>) -> Option<Seq<char>>
    decreases lines.len(),
{
    if lines.len() == 0 {
        None
    } else if has_part(lines[0], key) {
        Some(lines[0])
    } else {
        first_line_with(lines.drop_first(), key)
    }
}

/// The value that a line gives: what follows its first `=`. A line without
/// `=` is its own value.
pub open spec fn line_value(line: Seq<char>) -> Seq<char> {
    after_first(line, '=')
}

/// The value of `key` in a configuration file with the text `file`, where
/// `None` stands for a file that does not exist.
pub open spec fn env_value(file: Option<Seq<char>>, key: Seq<char>) -> Result<Seq<char>, Error> {
    match file {
        None => Err(Error::ConfigFileMissing),
        Some(text) => match first_line_with(split(text, '\n'), key) {
            None => Err(Error::KeyNotFound),
            Some(line) => if line_value(line).len() == 0 {
                Err(Error::EmptyValue)
            } else {
                Ok(line_value(line))
            },
        },
    }
}

/// The text of a file that may be missing.
pub open spec fn file_text(file: Option<&str>) -> Option<Seq<char>> {
    match file {
        Some(text) => Some(text@),
        None => None,
    }
}

/// Where the configuration file is looked for, from the directory of the
/// run.
pub fn env_file_path() -> (path: String)
    ensures
        path@ == ".env"@,
{
    ".env".to_owned()
}

/// Looks `key` up in the text of the configuration file; `env_file` is
/// `None` where there is no such file. The first line that holds the key
/// decides. No default is put in here: that is the caller's business.
pub fn get_env_value(key: String, env_file: Option<&str>) -> (r: Result<String, Error>)
    ensures
        text_result(r) == env_value(file_text(env_file), key@),
{
    let text = match env_file {
        None => {
            return Err(Error::ConfigFileMissing);
        },
        Some(text) => text,
    };
    let lines = split_text(text, '\n');
    let ghost all = texts(lines@);
    let mut i: usize = 0;
    assert(all.skip(0) =~= all);
    while i < lines.len()
        invariant
            i <= lines.len(),
            all == texts(lines@),
            all == split(text@, '\n'),
            file_text(env_file) == Some(text@),
            first_line_with(all, key@) == first_line_with(all.skip(i as int), key@),
        decreases lines.len() - i,
    {
        assert(all.skip(i as int).drop_first() =~= all.skip(i + 1));
        if contains_text(lines[i].as_str(), key.as_str()) {
            let value = text_after_first(lines[i].as_str(), '=');
            if value.as_str().is_empty() {
                return Err(Error::EmptyValue);
            }
            return Ok(value);
        }
        i += 1;
    }
    Err(Error::KeyNotFound)
}

/// The line that is found is the first that holds the key, and none is
/// found exactly when no line holds it.
pub proof fn lemma_first_line_with(lines: Seq<Seq<char>>, key: Seq<char>)
    ensures
        match first_line_with(lines, key) {
            None => forall|i: int| 0 <= i < lines.len() ==> !has_part(#[trigger] lines[i], key),
            Some(line) => exists|i: int|
                {
                    &&& 0 <= i < lines.len()
                    &&& #[trigger] lines[i] == line
                    &&& has_part(line, key)
                    &&& forall|j: int| 0 <= j < i ==> !has_part(#[trigger] lines[j], key)
                },
        },
    decreases lines.len(),
{
    if lines.len() > 0 && !has_part(lines[0], key) {
        let rest = lines.drop_first();
        lemma_first_line_with(rest, key);
        match first_line_with(rest, key) {
            None => {
                assert forall|i: int| 0 <= i < lines.len() implies !has_part(
                    #[trigger] lines[i],
                    key,
                ) by {
                    if i > 0 {
                        assert(lines[i] == rest[i - 1]);
                    }
                }
            },
            Some(line) => {
                let i = choose|i: int|
                    {
                        &&& 0 <= i < rest.len()
                        &&& #[trigger] rest[i] == line
                        &&& has_part(line, key)
                        &&& forall|j: int| 0 <= j < i ==> !has_part(#[trigger] rest[j], key)
                    };
                assert forall|j: int| 0 <= j < i + 1 implies !has_part(
                    #[trigger] lines[j],
                    key,
                ) by {
                    if j > 0 {
                        assert(lines[j] == rest[j - 1]);
                    }
                }
            },
        }
    }
}

/// A line that holds the key, behind lines that do not, is the one found.
pub proof fn lemma_first_line_at(lines: Seq<Seq<char>>, key: Seq<char>, at: int)
    requires
        0 <= at < lines.len(),
        has_part(lines[at], key),
        forall|j: int| 0 <= j < at ==> !has_part(#[trigger] lines[j], key),
    ensures
        first_line_with(lines, key) == Some(lines[at]),
    decreases at,
{
    if at > 0 {
        let rest = lines.drop_first();
        lemma_first_line_at(rest, key, at - 1);
    }
}

/// A file gives a key the value that its line `KEY=value` names: where the
/// line at `at` reads so, no line above it holds the key, and the value is
/// not empty, the lookup gives that value.
pub proof fn lemma_value_of_entry(
    lines: Seq<Seq<char>>,
    at: int,
    key: Seq<char>,
    value: Seq<char>,
)
    requires
        forall|i: int| 0 <= i < lines.len() ==> !(#[trigger] lines[i]).contains('\n'),
        0 <= at < lines.len(),
        lines[at] == key + seq!['='] + value,
        !key.contains('='),
        value.len() > 0,
        forall|j: int| 0 <= j < at ==> !has_part(#[trigger] lines[j], key),
    ensures
        env_value(Some(join(lines, seq!['\n'])), key) == Ok::<Seq<char>, Error>(value),
{
    let line = lines[at];
    lemma_split_of_join(lines, '\n');
    assert(occurs_at(line, key, 0)) by {
        assert(line.subrange(0, key.len() as int) =~= key);
    }
    lemma_first_line_at(lines, key, at);
    line.index_of_first_ensures('=');
    assert(line[key.len() as int] == '=');
    assert(line.skip(line.index_of_first('=')->0 + 1) =~= value);
}

/// A file in which no line holds the key gives `KeyNotFound`.
pub proof fn lemma_value_of_missing_key(lines: Seq<Seq<char>>, key: Seq<char>)
    requires
        lines.len() >= 1,
        forall|i: int| 0 <= i < lines.len() ==> !(#[trigger] lines[i]).contains('\n'),
        forall|i: int| 0 <= i < lines.len() ==> !has_part(#[trigger] lines[i], key),
    ensures
        env_value(Some(join(lines, seq!['\n'])), key) == Err::<Seq<char>, Error>(
            Error::KeyNotFound,
        ),
{
    lemma_split_of_join(lines, '\n');
    lemma_first_line_with(lines, key);
}

} // verus!
