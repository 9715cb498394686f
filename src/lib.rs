//! A line-oriented front end for a persistent language runtime.
//!
//! Each input line is classified as a meta-command (`:q`, `:l <path>`,
//! `:t <name>`) or an expression, and a small state machine decides what the
//! driver must do next: evaluate, read a file, load a script, look up a type,
//! print, report a failure, read another line or stop. The driver owns the
//! session and the input and output; it performs each action and hands the
//! outcome back as an event.
pub mod command;
pub mod laws;
pub mod repl;
pub mod text;

pub use command::{classify, Input, MARKER};
pub use repl::{
    on_evaluated, on_file_read, on_line, on_script_loaded, on_type_found, Action, Event, Failure,
    FailureKind, Phase, Repl,
};
pub use text::trim;
