use embed_repl::{Action, Event, Failure, FailureKind, Repl};

fn line(text: &str) -> Event {
    Event::Line(text.to_string())
}

fn report(kind: FailureKind, message: &str) -> Action {
    Action::Report(Failure { kind, message: message.to_string() })
}

#[test]
fn quit_stops_the_loop() {
    let mut repl = Repl::new();
    assert_eq!(repl.step(line(":q")), Action::Stop);
    assert!(repl.is_stopped());
}

#[test]
fn quit_ignores_trailing_arguments() {
    for text in [":q now", ":quit", ":q   ", ":q\t:l other.glu"] {
        let mut repl = Repl::new();
        assert_eq!(repl.step(line(text)), Action::Stop);
        assert!(repl.is_stopped());
    }
}

#[test]
fn expression_goes_to_the_evaluator() {
    let mut repl = Repl::new();
    assert_eq!(repl.step(line("1 + 1")), Action::Evaluate("1 + 1".to_string()));
    assert!(!repl.accepts(&line(":q")));
    assert_eq!(repl.step(Event::Evaluated(Ok("2".to_string()))), Action::Print("2".to_string()));
    assert!(repl.accepts(&line("next")));
    assert!(!repl.is_stopped());
}

#[test]
fn expression_keeps_the_whole_line() {
    let mut repl = Repl::new();
    assert_eq!(
        repl.step(line("  let x = 1 in x :q ")),
        Action::Evaluate("  let x = 1 in x :q ".to_string())
    );
}

#[test]
fn evaluation_error_is_reported_verbatim() {
    let mut repl = Repl::new();
    repl.step(line("1 + \"a\""));
    assert_eq!(
        repl.step(Event::Evaluated(Err("Expected Int, found String".to_string()))),
        report(FailureKind::Evaluation, "Expected Int, found String")
    );
    assert!(repl.accepts(&line("2")));
}

#[test]
fn loading_the_same_file_twice() {
    let mut repl = Repl::new();
    for outcome in [Ok(()), Err("Duplicate definition of `id`".to_string())] {
        assert_eq!(
            repl.step(line(":l scripts/prelude.glu")),
            Action::ReadFile("scripts/prelude.glu".to_string())
        );
        assert_eq!(
            repl.step(Event::FileRead(Ok("let id x = x".to_string()))),
            Action::LoadScript {
                module: "prelude".to_string(),
                source: "let id x = x".to_string()
            }
        );
        let failed = outcome.is_err();
        let action = repl.step(Event::ScriptLoaded(outcome));
        if failed {
            assert_eq!(
                action,
                report(FailureKind::Evaluation, "Duplicate definition of `id`")
            );
        } else {
            assert_eq!(action, Action::ReadLine);
        }
        assert!(repl.accepts(&line(":q")));
    }
}

#[test]
fn load_of_a_missing_file_reports_the_path() {
    let mut repl = Repl::new();
    assert_eq!(repl.step(line(":l missing.file")), Action::ReadFile("missing.file".to_string()));
    let action = repl.step(Event::FileRead(Err("No such file or directory (os error 2)".to_string())));
    assert_eq!(
        action,
        report(FailureKind::Load, "missing.file: No such file or directory (os error 2)")
    );
    match action {
        Action::Report(f) => assert!(f.message.contains("missing.file")),
        _ => unreachable!(),
    }
    assert!(repl.accepts(&line("1")));
}

#[test]
fn load_of_a_path_without_file_name() {
    let mut repl = Repl::new();
    assert_eq!(repl.step(line(":l ..")), Action::ReadFile("..".to_string()));
    assert_eq!(
        repl.step(Event::FileRead(Ok(String::new()))),
        report(FailureKind::Load, "..: no file name")
    );
}

#[test]
fn load_path_is_trimmed() {
    let mut repl = Repl::new();
    assert_eq!(repl.step(line(":l   lib/std.types.glu \t")), Action::ReadFile("lib/std.types.glu".to_string()));
    assert_eq!(
        repl.step(Event::FileRead(Ok("type A = Int".to_string()))),
        Action::LoadScript { module: "std.types".to_string(), source: "type A = Int".to_string() }
    );
    assert_eq!(repl.step(Event::ScriptLoaded(Ok(()))), Action::ReadLine);
}

#[test]
fn padded_type_name_is_trimmed() {
    let mut repl = Repl::new();
    assert_eq!(repl.step(line(":t  Nope  ")), Action::LookupType("Nope".to_string()));
    assert_eq!(repl.step(Event::TypeFound(None)), Action::Print("Nope is not a type".to_string()));
}

#[test]
fn unknown_type_is_not_a_failure() {
    let mut repl = Repl::new();
    assert_eq!(repl.step(line(":t Foo")), Action::LookupType("Foo".to_string()));
    assert_eq!(repl.step(Event::TypeFound(None)), Action::Print("Foo is not a type".to_string()));
    assert!(repl.accepts(&line(":q")));
}

#[test]
fn known_type_prints_its_description() {
    let mut repl = Repl::new();
    assert_eq!(repl.step(line(":t   Option  ")), Action::LookupType("Option".to_string()));
    assert_eq!(
        repl.step(Event::TypeFound(Some("| None | Some a".to_string()))),
        Action::Print("type Option = | None | Some a".to_string())
    );
    assert!(!repl.is_stopped());
}

#[test]
fn invalid_command_names_the_character() {
    let mut repl = Repl::new();
    let action = repl.step(line(":z foo"));
    assert_eq!(action, report(FailureKind::InvalidCommand, "Invalid command z"));
    assert!(repl.accepts(&line("1 + 1")));
    assert_eq!(repl.step(line("1 + 1")), Action::Evaluate("1 + 1".to_string()));
}

#[test]
fn invalid_command_with_a_wide_character() {
    let mut repl = Repl::new();
    assert_eq!(repl.step(line(":λ")), report(FailureKind::InvalidCommand, "Invalid command λ"));
}

#[test]
fn marker_alone_is_a_missing_command() {
    let mut repl = Repl::new();
    assert_eq!(repl.step(line(":")), report(FailureKind::InvalidCommand, "Missing command"));
    assert!(repl.accepts(&line(":q")));
}

#[test]
fn command_without_argument() {
    let mut repl = Repl::new();
    assert_eq!(repl.step(line(":t")), Action::LookupType(String::new()));
    assert_eq!(repl.step(Event::TypeFound(None)), Action::Print(" is not a type".to_string()));
}

#[test]
fn empty_line_is_skipped() {
    let mut repl = Repl::new();
    assert_eq!(repl.step(line("")), Action::ReadLine);
    assert!(repl.accepts(&line(":q")));
}

#[test]
fn end_of_input_stops_without_failure() {
    let mut repl = Repl::new();
    assert_eq!(repl.step(Event::EndOfInput), Action::Stop);
    assert!(repl.is_stopped());
    assert!(!repl.accepts(&line("1")));
}

#[test]
fn read_failure_is_reported_and_the_loop_goes_on() {
    let mut repl = Repl::new();
    assert_eq!(
        repl.step(Event::ReadFailed("stream did not contain valid UTF-8".to_string())),
        report(FailureKind::Input, "stream did not contain valid UTF-8")
    );
    assert!(repl.accepts(&line("1")));
}

#[test]
fn only_the_awaited_event_is_accepted() {
    let mut repl = Repl::new();
    assert!(!repl.accepts(&Event::Evaluated(Ok("1".to_string()))));
    assert!(!repl.accepts(&Event::TypeFound(None)));
    repl.step(line(":l a.glu"));
    assert!(repl.accepts(&Event::FileRead(Ok(String::new()))));
    assert!(!repl.accepts(&Event::ScriptLoaded(Ok(()))));
    assert!(!repl.accepts(&Event::EndOfInput));
}
