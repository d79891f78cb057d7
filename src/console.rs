use vstd::prelude::*;
use vstd::string::StrSliceExecFns;
use vstd::utf8::encode_utf8;

use crate::state::StateCell;
use crate::text::{lowercase_of, lowercase_text, parse_word, trim_text, trimmed_of, word_of};

verus! {

/// The reaction to one console line.
#[derive(Debug, Clone, PartialEq, Eq)]
pub struct ConsoleReaction {
    /// The state that the line set, if it named one.
    pub set: Option<bool>,
    /// The value to push to subscribers: the line itself, as it was typed.
    pub notify: Vec<u8>,
}

/// The state that a console line sets, if any: the line, trimmed and
/// lowercased, must be exactly `on` or `off`.
pub open spec fn console_target(line: Seq<char>) -> Option<bool> {
    word_of(lowercase_of(trimmed_of(line)))
}

/// Handles one console line.
///
/// A line that reads `on` or `off` once trimmed and lowercased sets the
/// state; any other line leaves it. Either way the raw line, not the
/// normalized word, is what goes out to subscribers.
pub fn handle_console_line(cell: &mut StateCell, line: &str) -> (r: ConsoleReaction)
    ensures
        r.set == console_target(line@),
        final(cell)@ == match r.set {
            Some(v) => v,
            None => old(cell)@,
        },
        r.notify@ == encode_utf8(line@),
{
    let lowered = lowercase_text(trim_text(line));
    let set = parse_word(lowered.as_str());
    if let Some(v) = set {
        cell.write(v);
    }
    ConsoleReaction { set, notify: line.as_bytes_vec() }
}

} // verus!
