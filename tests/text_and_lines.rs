use embed_repl::{classify, on_evaluated, on_file_read, on_line, on_script_loaded, on_type_found};
use embed_repl::{trim, Action, Failure, FailureKind, Input, Phase};

#[test]
fn trim_removes_white_space_at_both_ends() {
    assert_eq!(trim("  a b \t"), "a b");
    assert_eq!(trim("\u{3000}x\u{2003}"), "x");
    assert_eq!(trim(" \n\r\t"), "");
    assert_eq!(trim(""), "");
    assert_eq!(trim("plain"), "plain");
}

#[test]
fn classify_reads_the_first_two_characters() {
    assert_eq!(classify(""), Input::Blank);
    assert_eq!(classify("1 + 1"), Input::Expression);
    assert_eq!(classify(" :q"), Input::Expression);
    assert_eq!(classify(":"), Input::MissingTag);
    assert_eq!(classify(":q"), Input::Command { tag: 'q', args: String::new() });
    assert_eq!(classify(":l  a.glu  "), Input::Command { tag: 'l', args: "a.glu".to_string() });
    assert_eq!(classify(":type Int"), Input::Command { tag: 't', args: "ype Int".to_string() });
}

#[test]
fn line_outcomes() {
    assert_eq!(on_line("x"), (Phase::Evaluating, Action::Evaluate("x".to_string())));
    assert_eq!(on_line(":q"), (Phase::Stopped, Action::Stop));
    assert_eq!(on_line(":l f.glu"), (Phase::ReadingFile("f.glu".to_string()), Action::ReadFile("f.glu".to_string())));
    assert_eq!(on_line(":t T"), (Phase::Querying("T".to_string()), Action::LookupType("T".to_string())));
}

#[test]
fn outcome_handlers() {
    assert_eq!(on_evaluated(Ok("3".to_string())), (Phase::Idle, Action::Print("3".to_string())));
    assert_eq!(
        on_file_read("dir/m.glu", Ok("src".to_string()), Some("m".to_string())),
        (Phase::Loading("dir/m.glu".to_string()), Action::LoadScript { module: "m".to_string(), source: "src".to_string() })
    );
    assert_eq!(
        on_file_read("dir/", Ok("src".to_string()), None),
        (Phase::Idle, Action::Report(Failure { kind: FailureKind::Load, message: "dir/: no file name".to_string() }))
    );
    assert_eq!(
        on_script_loaded("m.glu", Err("parse error".to_string())),
        (Phase::Idle, Action::Report(Failure { kind: FailureKind::Evaluation, message: "parse error".to_string() }))
    );
    assert_eq!(on_type_found("Int", Some("Int".to_string())), (Phase::Idle, Action::Print("type Int = Int".to_string())));
}
