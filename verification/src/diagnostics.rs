//! The diagnostic lines of a run. They are gathered here and printed by the
//! caller.

use vstd::prelude::*;
use crate::text::texts;

verus! {

/// The lines that are said when `is_debug` is set: all of them, or none.
pub open spec fn said(is_debug: bool, lines: Seq<Seq<char>>) -> Seq<Seq<char>> {
    if is_debug {
        lines
    } else {
        Seq::empty()
    }
}

/// Adds `message` to the lines to be printed if `is_debug` is set, and
/// leaves them alone if not.
pub fn log_debug(lines: &mut Vec<String>, message: &str, is_debug: bool)
    ensures
        texts(final(lines)@) == texts(old(lines)@) + said(is_debug, seq![message@]),
{
    if is_debug {
        lines.push(message.to_owned());
    }
}

} // verus!
