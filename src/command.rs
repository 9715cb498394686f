use vstd::prelude::*;

use crate::text::{trim, trimmed};

verus! {

/// The marker that opens a meta-command line.
pub const MARKER: char = ':';

/// How a line of input reads, decided by its first character (and, for a
/// command, by the one after it).
#[derive(Debug, PartialEq, Eq)]
pub enum Input {
    /// A line with no characters.
    Blank,
    /// A line that does not start with the marker: the whole line is an
    /// expression.
    Expression,
    /// The marker alone, with no command character after it.
    MissingTag,
    /// The marker, a command character, and the rest of the line with the
    /// white space at both ends removed.
    Command { tag: char, args: String },
}

/// Whether `line` is a meta-command line: its first character is the marker.
pub open spec fn is_command_line(line: Seq<char>) -> bool {
    line.len() > 0 && line[0] == MARKER
}

/// The argument text of a command line: all after the command character,
/// trimmed.
pub open spec fn command_args(line: Seq<char>) -> Seq<char> {
    trimmed(line.subrange(2, line.len() as int))
}

/// Classifies one line of input.
pub fn classify(line: &str) -> (r: Input)
    ensures
        match r {
            Input::Blank => line@.len() == 0,
            Input::Expression => line@.len() > 0 && !is_command_line(line@),
            Input::MissingTag => is_command_line(line@) && line@.len() == 1,
            Input::Command { tag, args } => {
                &&& is_command_line(line@)
                &&& line@.len() >= 2
                &&& tag == line@[1]
                &&& args@ == command_args(line@)
            },
        },
{
    let n = line.unicode_len();
    if n == 0 {
        return Input::Blank;
    }
    if line.get_char(0) != MARKER {
        return Input::Expression;
    }
    if n == 1 {
        return Input::MissingTag;
    }
    let tag = line.get_char(1);
    let args = trim(line.substring_char(2, n));
    Input::Command { tag, args }
}

} // verus!
