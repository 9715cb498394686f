use vstd::prelude::*;

use crate::command::{classify, command_args, is_command_line, Input};

verus! {

/// What kind of failure a line ended in. Only failures take the error path:
/// an unknown type name is an ordinary message.
#[derive(Clone, Copy, Debug, PartialEq, Eq, Structural)]
pub enum FailureKind {
    /// Reading a line of input failed.
    Input,
    /// The command character is not one of `q`, `l`, `t`, or is missing.
    InvalidCommand,
    /// Opening, reading or naming a script file failed.
    Load,
    /// The runtime rejected an expression or a loaded script.
    Evaluation,
}

/// A failure of one line, with the text shown to the user.
#[derive(Debug, PartialEq, Eq)]
pub struct Failure {
    pub kind: FailureKind,
    pub message: String,
}

/// Where the loop stands between two events.
#[derive(Debug, PartialEq, Eq)]
pub enum Phase {
    /// Waiting for the next line of input.
    Idle,
    /// Waiting for the runtime's answer to an expression.
    Evaluating,
    /// Waiting for the contents of the file at this path.
    ReadingFile(String),
    /// Waiting for the runtime to load the script read from this path.
    Loading(String),
    /// Waiting for the type environment's answer on this name.
    Querying(String),
    /// The loop has ended.
    Stopped,
}

/// What the driver reports back to the loop.
#[derive(Debug, PartialEq, Eq)]
pub enum Event {
    /// A line was read.
    Line(String),
    /// Reading a line failed, with this message.
    ReadFailed(String),
    /// The input is exhausted.
    EndOfInput,
    /// The runtime evaluated an expression: the value's text, or its error.
    Evaluated(Result<String, String>),
    /// The file was read: its contents, or the error met opening or reading it.
    FileRead(Result<String, String>),
    /// The runtime loaded a script, or failed to with this message.
    ScriptLoaded(Result<(), String>),
    /// The type environment's description of the name, if it knows it.
    TypeFound(Option<String>),
}

/// What the loop asks of the driver.
#[derive(Debug, PartialEq, Eq)]
pub enum Action {
    /// Read the next line.
    ReadLine,
    /// Evaluate this expression in the session.
    Evaluate(String),
    /// Read the whole file at this path.
    ReadFile(String),
    /// Load this source text into the session under this module name.
    LoadScript { module: String, source: String },
    /// Look this name up in the session's type environment.
    LookupType(String),
    /// Print this text, then read the next line.
    Print(String),
    /// Print this failure, then read the next line.
    Report(Failure),
    /// End the loop.
    Stop,
}

/// A phase as the contracts see it.
pub enum PhaseView {
    Idle,
    Evaluating,
    ReadingFile(Seq<char>),
    Loading(Seq<char>),
    Querying(Seq<char>),
    Stopped,
}

/// An event as the contracts see it.
pub enum EventView {
    Line(Seq<char>),
    ReadFailed(Seq<char>),
    EndOfInput,
    Evaluated(Result<Seq<char>, Seq<char>>),
    FileRead(Result<Seq<char>, Seq<char>>),
    ScriptLoaded(Result<(), Seq<char>>),
    TypeFound(Option<Seq<char>>),
}

/// An action as the contracts see it.
pub enum ActionView {
    ReadLine,
    Evaluate(Seq<char>),
    ReadFile(Seq<char>),
    LoadScript(Seq<char>, Seq<char>),
    LookupType(Seq<char>),
    Print(Seq<char>),
    Report(FailureKind, Seq<char>),
    Stop,
}

/// The view of a result that carries text either way.
pub open spec fn text_result(r: Result<String, String>) -> Result<Seq<char>, Seq<char>> {
    match r {
        Ok(v) => Ok(v@),
        Err(e) => Err(e@),
    }
}

/// The view of a result that carries text on failure.
pub open spec fn unit_result(r: Result<(), String>) -> Result<(), Seq<char>> {
    match r {
        Ok(()) => Ok(()),
        Err(e) => Err(e@),
    }
}

/// The view of optional text.
pub open spec fn text_option(o: Option<String>) -> Option<Seq<char>> {
    match o {
        Some(v) => Some(v@),
        None => None,
    }
}

impl View for Phase {
    type V = PhaseView;

    open spec fn view(&self) -> PhaseView {
        match self {
            Phase::Idle => PhaseView::Idle,
            Phase::Evaluating => PhaseView::Evaluating,
            Phase::ReadingFile(p) => PhaseView::ReadingFile(p@),
            Phase::Loading(p) => PhaseView::Loading(p@),
            Phase::Querying(n) => PhaseView::Querying(n@),
            Phase::Stopped => PhaseView::Stopped,
        }
    }
}

impl View for Event {
    type V = EventView;

    open spec fn view(&self) -> EventView {
        match self {
            Event::Line(l) => EventView::Line(l@),
            Event::ReadFailed(m) => EventView::ReadFailed(m@),
            Event::EndOfInput => EventView::EndOfInput,
            Event::Evaluated(r) => EventView::Evaluated(text_result(*r)),
            Event::FileRead(r) => EventView::FileRead(text_result(*r)),
            Event::ScriptLoaded(r) => EventView::ScriptLoaded(unit_result(*r)),
            Event::TypeFound(o) => EventView::TypeFound(text_option(*o)),
        }
    }
}

impl View for Action {
    type V = ActionView;

    open spec fn view(&self) -> ActionView {
        match self {
            Action::ReadLine => ActionView::ReadLine,
            Action::Evaluate(e) => ActionView::Evaluate(e@),
            Action::ReadFile(p) => ActionView::ReadFile(p@),
            Action::LoadScript { module, source } => ActionView::LoadScript(module@, source@),
            Action::LookupType(n) => ActionView::LookupType(n@),
            Action::Print(t) => ActionView::Print(t@),
            Action::Report(f) => ActionView::Report(f.kind, f.message@),
            Action::Stop => ActionView::Stop,
        }
    }
}

/// The failure text for an unknown command character.
pub open spec fn invalid_command_message(tag: char) -> Seq<char> {
    "Invalid command "@ + seq![tag]
}

/// The failure text for the marker with no command character after it.
pub open spec fn missing_command_message() -> Seq<char> {
    "Missing command"@
}

/// The text shown for a type the session knows.
pub open spec fn type_message(name: Seq<char>, description: Seq<char>) -> Seq<char> {
    "type "@ + name + " = "@ + description
}

/// The text shown for a name that is not a known type.
pub open spec fn not_a_type_message(name: Seq<char>) -> Seq<char> {
    name + " is not a type"@
}

/// The failure text for a load of `path` that failed for `reason`.
pub open spec fn load_message(path: Seq<char>, reason: Seq<char>) -> Seq<char> {
    path + ": "@ + reason
}

/// Why a path with no file name cannot be loaded.
pub open spec fn no_file_name_message() -> Seq<char> {
    "no file name"@
}

/// Where a line read while idle leads.
pub open spec fn line_outcome(line: Seq<char>) -> (PhaseView, ActionView) {
    if line.len() == 0 {
        (PhaseView::Idle, ActionView::ReadLine)
    } else if !is_command_line(line) {
        (PhaseView::Evaluating, ActionView::Evaluate(line))
    } else if line.len() == 1 {
        (PhaseView::Idle, ActionView::Report(FailureKind::InvalidCommand, missing_command_message()))
    } else {
        let args = command_args(line);
        if line[1] == 'q' {
            (PhaseView::Stopped, ActionView::Stop)
        } else if line[1] == 'l' {
            (PhaseView::ReadingFile(args), ActionView::ReadFile(args))
        } else if line[1] == 't' {
            (PhaseView::Querying(args), ActionView::LookupType(args))
        } else {
            (
                PhaseView::Idle,
                ActionView::Report(FailureKind::InvalidCommand, invalid_command_message(line[1])),
            )
        }
    }
}

/// Where the runtime's answer to an expression leads.
pub open spec fn evaluated_outcome(r: Result<Seq<char>, Seq<char>>) -> (PhaseView, ActionView) {
    match r {
        Ok(v) => (PhaseView::Idle, ActionView::Print(v)),
        Err(e) => (PhaseView::Idle, ActionView::Report(FailureKind::Evaluation, e)),
    }
}

/// Where reading the file at `path` leads, given the base name without
/// extension that the path yields, if any.
pub open spec fn file_read_outcome(
    path: Seq<char>,
    r: Result<Seq<char>, Seq<char>>,
    stem: Option<Seq<char>>,
) -> (PhaseView, ActionView) {
    match r {
        Err(e) => (PhaseView::Idle, ActionView::Report(FailureKind::Load, load_message(path, e))),
        Ok(source) => match stem {
            Some(module) => (PhaseView::Loading(path), ActionView::LoadScript(module, source)),
            None => (
                PhaseView::Idle,
                ActionView::Report(FailureKind::Load, load_message(path, no_file_name_message())),
            ),
        },
    }
}

/// Where the runtime's answer to loading the script from `path` leads: its
/// rejection is shown unchanged, as for an expression.
pub open spec fn script_loaded_outcome(path: Seq<char>, r: Result<(), Seq<char>>) -> (
    PhaseView,
    ActionView,
) {
    match r {
        Ok(()) => (PhaseView::Idle, ActionView::ReadLine),
        Err(e) => (PhaseView::Idle, ActionView::Report(FailureKind::Evaluation, e)),
    }
}

/// Where the type environment's answer on `name` leads.
pub open spec fn type_found_outcome(name: Seq<char>, found: Option<Seq<char>>) -> (
    PhaseView,
    ActionView,
) {
    match found {
        Some(d) => (PhaseView::Idle, ActionView::Print(type_message(name, d))),
        None => (PhaseView::Idle, ActionView::Print(not_a_type_message(name))),
    }
}

/// Whether the loop, in phase `p`, is waiting for event `e`.
pub open spec fn accepts(p: PhaseView, e: EventView) -> bool {
    match e {
        EventView::Line(_) | EventView::ReadFailed(_) | EventView::EndOfInput => p is Idle,
        EventView::Evaluated(_) => p is Evaluating,
        EventView::FileRead(_) => p is ReadingFile,
        EventView::ScriptLoaded(_) => p is Loading,
        EventView::TypeFound(_) => p is Querying,
    }
}

/// The base name of a path with its extension removed, if the path has a file
/// name.
pub uninterp spec fn file_stem_of(path: Seq<char>) -> Option<Seq<char>>;

/// Relies on `std::path::Path::file_stem`: the final component of the path
/// without its extension, or none where the path has no file name. A path
/// built from a `&str` always reads back as UTF-8.
#[verifier::external_body]
fn file_stem(path: &str) -> (r: Option<String>)
    ensures
        text_option(r) == file_stem_of(path@),
{
    std::path::Path::new(path).file_stem().and_then(|f| f.to_str()).map(|f| f.to_string())
}

/// One move of the loop: from phase `p` on event `e`, the next phase and
/// what the driver must do. Only events that `accepts` admits are ever
/// taken; for the others the loop would stay put and stop.
pub open spec fn next(p: PhaseView, e: EventView) -> (PhaseView, ActionView) {
    match e {
        EventView::Line(l) => line_outcome(l),
        EventView::ReadFailed(m) => (PhaseView::Idle, ActionView::Report(FailureKind::Input, m)),
        EventView::EndOfInput => (PhaseView::Stopped, ActionView::Stop),
        EventView::Evaluated(r) => evaluated_outcome(r),
        EventView::FileRead(r) => match p {
            PhaseView::ReadingFile(path) => file_read_outcome(path, r, file_stem_of(path)),
            _ => (p, ActionView::Stop),
        },
        EventView::ScriptLoaded(r) => match p {
            PhaseView::Loading(path) => script_loaded_outcome(path, r),
            _ => (p, ActionView::Stop),
        },
        EventView::TypeFound(found) => match p {
            PhaseView::Querying(name) => type_found_outcome(name, found),
            _ => (p, ActionView::Stop),
        },
    }
}

/// `a` followed by `b`.
fn concat(a: &str, b: &str) -> (r: String)
    ensures
        r@ == a@ + b@,
{
    let mut r = String::from_str(a);
    r.append(b);
    r
}

/// The action that reports a failure of this kind.
fn failure(kind: FailureKind, message: String) -> (r: Action)
    ensures
        r@ == ActionView::Report(kind, message@),
{
    Action::Report(Failure { kind, message })
}

/// Decides what a line read while idle leads to.
pub fn on_line(line: &str) -> (r: (Phase, Action))
    ensures
        (r.0@, r.1@) == line_outcome(line@),
{
    match classify(line) {
        Input::Blank => (Phase::Idle, Action::ReadLine),
        Input::Expression => (Phase::Evaluating, Action::Evaluate(String::from_str(line))),
        Input::MissingTag => (
            Phase::Idle,
            failure(FailureKind::InvalidCommand, String::from_str("Missing command")),
        ),
        Input::Command { tag, args } => {
            if tag == 'q' {
                (Phase::Stopped, Action::Stop)
            } else if tag == 'l' {
                (Phase::ReadingFile(args.clone()), Action::ReadFile(args))
            } else if tag == 't' {
                (Phase::Querying(args.clone()), Action::LookupType(args))
            } else {
                let t = line.substring_char(1, 2);
                assert(t@ =~= seq![tag]);
                (Phase::Idle, failure(FailureKind::InvalidCommand, concat("Invalid command ", t)))
            }
        },
    }
}

/// Decides what the runtime's answer to an expression leads to.
pub fn on_evaluated(r: Result<String, String>) -> (o: (Phase, Action))
    ensures
        (o.0@, o.1@) == evaluated_outcome(text_result(r)),
{
    match r {
        Ok(v) => (Phase::Idle, Action::Print(v)),
        Err(e) => (Phase::Idle, failure(FailureKind::Evaluation, e)),
    }
}

/// Decides what reading the file at `path` leads to, given the base name
/// without extension that the path yields.
pub fn on_file_read(path: &str, r: Result<String, String>, stem: Option<String>) -> (o: (
    Phase,
    Action,
))
    ensures
        (o.0@, o.1@) == file_read_outcome(path@, text_result(r), text_option(stem)),
{
    match r {
        Err(e) => {
            let mut m = concat(path, ": ");
            m.append(e.as_str());
            (Phase::Idle, failure(FailureKind::Load, m))
        },
        Ok(source) => match stem {
            Some(module) => (
                Phase::Loading(String::from_str(path)),
                Action::LoadScript { module, source },
            ),
            None => {
                let m = concat(path, ": no file name");
                proof {
                    reveal_strlit(": no file name");
                    reveal_strlit(": ");
                    reveal_strlit("no file name");
                }
                assert(m@ =~= load_message(path@, no_file_name_message()));
                (Phase::Idle, failure(FailureKind::Load, m))
            },
        },
    }
}

/// Decides what the runtime's answer to loading the script from `path` leads
/// to.
pub fn on_script_loaded(path: &str, r: Result<(), String>) -> (o: (Phase, Action))
    ensures
        (o.0@, o.1@) == script_loaded_outcome(path@, unit_result(r)),
{
    match r {
        Ok(()) => (Phase::Idle, Action::ReadLine),
        Err(e) => (Phase::Idle, failure(FailureKind::Evaluation, e)),
    }
}

/// Decides what the type environment's answer on `name` leads to.
pub fn on_type_found(name: &str, found: Option<String>) -> (o: (Phase, Action))
    ensures
        (o.0@, o.1@) == type_found_outcome(name@, text_option(found)),
{
    match found {
        Some(d) => {
            let mut m = concat("type ", name);
            m.append(" = ");
            m.append(d.as_str());
            (Phase::Idle, Action::Print(m))
        },
        None => (Phase::Idle, Action::Print(concat(name, " is not a type"))),
    }
}

/// The loop's state: the phase it stands in.
#[derive(Debug, PartialEq, Eq)]
pub struct Repl {
    phase: Phase,
}

impl View for Repl {
    type V = PhaseView;

    closed spec fn view(&self) -> PhaseView {
        self.phase@
    }
}

impl Repl {
    /// A loop waiting for its first line.
    pub fn new() -> (r: Repl)
        ensures
            r@ == PhaseView::Idle,
    {
        Repl { phase: Phase::Idle }
    }

    /// Whether the loop has ended.
    pub fn is_stopped(&self) -> (r: bool)
        ensures
            r == (self@ is Stopped),
    {
        match self.phase {
            Phase::Stopped => true,
            _ => false,
        }
    }

    /// Whether the loop is waiting for this event.
    pub fn accepts(&self, e: &Event) -> (r: bool)
        ensures
            r == accepts(self@, e@),
    {
        match e {
            Event::Line(_) | Event::ReadFailed(_) | Event::EndOfInput => match self.phase {
                Phase::Idle => true,
                _ => false,
            },
            Event::Evaluated(_) => match self.phase {
                Phase::Evaluating => true,
                _ => false,
            },
            Event::FileRead(_) => match self.phase {
                Phase::ReadingFile(_) => true,
                _ => false,
            },
            Event::ScriptLoaded(_) => match self.phase {
                Phase::Loading(_) => true,
                _ => false,
            },
            Event::TypeFound(_) => match self.phase {
                Phase::Querying(_) => true,
                _ => false,
            },
        }
    }

    /// Takes one event and moves to the next phase, returning what the
    /// driver must do.
    pub fn step(&mut self, e: Event) -> (a: Action)
        requires
            accepts(old(self)@, e@),
        ensures
            (final(self)@, a@) == next(old(self)@, e@),
    {
        let (phase, action) = match e {
            Event::Line(l) => on_line(l.as_str()),
            Event::ReadFailed(m) => (Phase::Idle, failure(FailureKind::Input, m)),
            Event::EndOfInput => (Phase::Stopped, Action::Stop),
            Event::Evaluated(r) => on_evaluated(r),
            Event::FileRead(r) => match &self.phase {
                Phase::ReadingFile(path) => {
                    let stem = file_stem(path.as_str());
                    on_file_read(path.as_str(), r, stem)
                },
                _ => (Phase::Stopped, Action::Stop),
            },
            Event::ScriptLoaded(r) => match &self.phase {
                Phase::Loading(path) => on_script_loaded(path.as_str(), r),
                _ => (Phase::Stopped, Action::Stop),
            },
            Event::TypeFound(found) => match &self.phase {
                Phase::Querying(name) => on_type_found(name.as_str(), found),
                _ => (Phase::Stopped, Action::Stop),
            },
        };
        // The arms that stop are never taken: `accepts` pairs each event with
        // its phase.
        self.phase = phase;
        action
    }
}

} // verus!
