use vstd::prelude::*;

use crate::command::command_args;
use crate::text::{trimmed_of_padded, white_space};
use crate::repl::{
    accepts, file_stem_of, load_message, next, no_file_name_message, not_a_type_message, type_message, ActionView,
    EventView, FailureKind, PhaseView,
};

verus! {

/// A `:q` line stops the loop whatever follows the command character.
pub proof fn quit_stops(args: Seq<char>)
    ensures
        next(PhaseView::Idle, EventView::Line(seq![':', 'q'] + args)) == (
            PhaseView::Stopped,
            ActionView::Stop,
        ),
{
    let line = seq![':', 'q'] + args;
    assert(line[0] == ':' && line[1] == 'q');
}

/// A non-empty line that does not start with the marker goes to the
/// evaluator, whole and unchanged, and never to the command dispatcher.
pub proof fn expression_lines_are_evaluated(line: Seq<char>)
    requires
        line.len() > 0,
        line[0] != ':',
    ensures
        next(PhaseView::Idle, EventView::Line(line)) == (
            PhaseView::Evaluating,
            ActionView::Evaluate(line),
        ),
{
}

/// Loading a file a second time runs exactly as the first time did: the
/// same path is read, and each load ends back at the prompt with the
/// runtime's own outcome shown: nothing for a success, and the runtime's
/// message unchanged for a failure. A path with no file name fails
/// before the runtime is asked, the same way each time.
pub proof fn load_twice(
    line: Seq<char>,
    source: Seq<char>,
    first: Result<(), Seq<char>>,
    second: Result<(), Seq<char>>,
)
    requires
        line.len() >= 2,
        line[0] == ':',
        line[1] == 'l',
    ensures
        ({
            let path = command_args(line);
            let read = next(PhaseView::Idle, EventView::Line(line));
            let loading = next(read.0, EventView::FileRead(Ok(source)));
            &&& read == (PhaseView::ReadingFile(path), ActionView::ReadFile(path))
            &&& match file_stem_of(path) {
                Some(module) => {
                    let after_first = next(loading.0, EventView::ScriptLoaded(first));
                    let read_again = next(after_first.0, EventView::Line(line));
                    let loading_again = next(read_again.0, EventView::FileRead(Ok(source)));
                    let after_second = next(loading_again.0, EventView::ScriptLoaded(second));
                    &&& loading == (PhaseView::Loading(path), ActionView::LoadScript(module, source))
                    &&& after_first.0 == PhaseView::Idle
                    &&& read_again == read
                    &&& loading_again == loading
                    &&& after_second.0 == PhaseView::Idle
                    &&& match second {
                        Ok(()) => after_second.1 == ActionView::ReadLine,
                        Err(e) => after_second.1 == ActionView::Report(
                            FailureKind::Evaluation,
                            e,
                        ),
                    }
                },
                None => {
                    &&& loading == (
                        PhaseView::Idle,
                        ActionView::Report(
                            FailureKind::Load,
                            load_message(path, no_file_name_message()),
                        ),
                    )
                    &&& next(loading.0, EventView::Line(line)) == read
                },
            }
        }),
{
}

/// `:t` with a name the session does not know prints that it is not a
/// type and goes on, never taking the failure path.
pub proof fn unknown_type_continues(line: Seq<char>)
    requires
        line.len() >= 2,
        line[0] == ':',
        line[1] == 't',
    ensures
        ({
            let name = command_args(line);
            let query = next(PhaseView::Idle, EventView::Line(line));
            &&& query == (PhaseView::Querying(name), ActionView::LookupType(name))
            &&& next(query.0, EventView::TypeFound(None)) == (
                PhaseView::Idle,
                ActionView::Print(not_a_type_message(name)),
            )
        }),
{
}

/// The argument of a command is read without the white space around it: a
/// padded `:t  Nope  ` asks about `Nope`.
pub proof fn command_argument_is_trimmed(
    tag: char,
    before: Seq<char>,
    name: Seq<char>,
    after: Seq<char>,
)
    requires
        forall|i: int| 0 <= i < before.len() ==> white_space(#[trigger] before[i]),
        forall|i: int| 0 <= i < after.len() ==> white_space(#[trigger] after[i]),
        name.len() > 0,
        !white_space(name[0]),
        !white_space(name.last()),
    ensures
        command_args(seq![':', tag] + before + name + after) == name,
{
    let line = seq![':', tag] + before + name + after;
    assert(line.subrange(2, line.len() as int) =~= before + name + after);
    trimmed_of_padded(before, name, after);
}

/// `:t` with a name the session knows prints `type <name> = <description>`
/// and goes on.
pub proof fn known_type_continues(line: Seq<char>, description: Seq<char>)
    requires
        line.len() >= 2,
        line[0] == ':',
        line[1] == 't',
    ensures
        ({
            let name = command_args(line);
            let query = next(PhaseView::Idle, EventView::Line(line));
            &&& query == (PhaseView::Querying(name), ActionView::LookupType(name))
            &&& next(query.0, EventView::TypeFound(Some(description))) == (
                PhaseView::Idle,
                ActionView::Print(type_message(name, description)),
            )
        }),
{
}

/// A command character other than `q`, `l` and `t` is reported as an invalid
/// command whose message ends in that character, and the loop then waits for
/// the next line.
pub proof fn invalid_command_continues(line: Seq<char>)
    requires
        line.len() >= 2,
        line[0] == ':',
        line[1] != 'q',
        line[1] != 'l',
        line[1] != 't',
    ensures
        ({
            let o = next(PhaseView::Idle, EventView::Line(line));
            &&& o.1 matches ActionView::Report(kind, message) && kind == FailureKind::InvalidCommand
                && message.len() > 0 && message.last() == line[1]
            &&& o.0 == PhaseView::Idle
            &&& forall|l: Seq<char>| #[trigger] accepts(o.0, EventView::Line(l))
        }),
{
}

/// The end of the input stops the loop, with no failure reported.
pub proof fn end_of_input_stops(p: PhaseView)
    requires
        accepts(p, EventView::EndOfInput),
    ensures
        next(p, EventView::EndOfInput) == (PhaseView::Stopped, ActionView::Stop),
{
}

/// No failure ends the loop: after every reported failure it waits for the
/// next line.
pub proof fn failures_are_recoverable(p: PhaseView, e: EventView)
    requires
        accepts(p, e),
        next(p, e).1 is Report,
    ensures
        next(p, e).0 == PhaseView::Idle,
{
}

} // verus!
