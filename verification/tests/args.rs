use oom_edit::args::{help_text, usage, version_text, Args, ParseOutcome};

fn parse(args: &[&str]) -> Result<ParseOutcome, String> {
    let mut v = vec!["oom-edit".to_string()];
    v.extend(args.iter().map(|s| (*s).to_string()));
    Args::parse(v)
}

fn run_args(args: &[&str]) -> Args {
    match parse(args).expect("parse ok") {
        ParseOutcome::Run(a) => a,
        ParseOutcome::Message(m) => panic!("expected Run, got message: {m}"),
    }
}

#[test]
fn args_parse_no_args() {
    let a = run_args(&[]);
    assert!(a.path.is_none());
    assert!(a.theme.is_none());
    assert!(!a.panic_test);
}

#[test]
fn args_parse_positional_path() {
    let a = run_args(&["/tmp/test.md"]);
    assert_eq!(a.path, Some("/tmp/test.md".to_string()));
}

#[test]
fn args_parse_theme_flag_separate() {
    let a = run_args(&["--theme", "default-dark"]);
    assert_eq!(a.theme, Some("default-dark".to_string()));
}

#[test]
fn args_parse_theme_flag_inline() {
    let a = run_args(&["--theme=dark"]);
    assert_eq!(a.theme, Some("dark".to_string()));
}

#[test]
fn args_parse_all_together() {
    let a = run_args(&["/tmp/doc.md", "--theme", "default-dark"]);
    assert_eq!(a.path, Some("/tmp/doc.md".to_string()));
    assert_eq!(a.theme, Some("default-dark".to_string()));
}

#[test]
fn help_is_message() {
    assert!(matches!(parse(&["--help"]), Ok(ParseOutcome::Message(_))));
    assert!(matches!(parse(&["-h"]), Ok(ParseOutcome::Message(_))));
}

#[test]
fn version_is_message() {
    match parse(&["--version"]) {
        Ok(ParseOutcome::Message(m)) => assert!(m.contains("0.1.0")),
        other => panic!("expected version message, got {other:?}"),
    }
    match parse(&["-V"]) {
        Ok(ParseOutcome::Message(m)) => assert!(m.contains("0.1.0")),
        other => panic!("expected version message, got {other:?}"),
    }
}

#[test]
fn unknown_flag_rejected() {
    let err = parse(&["--bogus"]).expect_err("unknown flag");
    assert!(err.contains("unknown flag '--bogus'"), "{err}");
    assert!(err.contains("USAGE:"), "usage text included: {err}");
}

#[test]
fn missing_value_rejected() {
    let err = parse(&["--theme"]).expect_err("missing value");
    assert!(err.contains("requires a value"));
}

#[test]
fn boolean_flag_takes_no_value() {
    let err = parse(&["--panic-test=yes"]).expect_err("bool takes no value");
    assert!(err.contains("takes no value"));
}

#[test]
fn multiple_positional_rejected() {
    let err = parse(&["a.md", "b.md"]).expect_err("multiple positional");
    assert!(err.contains("unexpected argument"));
}

#[test]
fn double_dash_then_dash_file() {
    let a = run_args(&["--", "-notes.md"]);
    assert_eq!(a.path, Some("-notes.md".to_string()));
}

#[test]
fn double_dash_then_normal_file() {
    let a = run_args(&["--", "file.md"]);
    assert_eq!(a.path, Some("file.md".to_string()));
}

#[test]
fn double_dash_no_args_after() {
    let a = run_args(&["--"]);
    assert!(a.path.is_none());
}

#[test]
fn double_dash_takes_no_inline_value() {
    let err = parse(&["--=notes.md"]).expect_err("separator takes no value");
    assert!(err.contains("takes no value"));
}

#[test]
fn double_dash_multiple_positional_rejected() {
    let err = parse(&["--", "a.md", "b.md"]).expect_err("multiple positional");
    assert!(err.contains("unexpected argument"));
}

#[test]
fn double_dash_preserves_positional_count() {
    let err = parse(&["a.md", "--", "-b.md"]).expect_err("multiple positional");
    assert!(err.contains("unexpected argument"));
}

#[test]
fn dash_file_without_double_dash_rejected() {
    let err = parse(&["-notes.md"]).expect_err("dash file");
    assert!(err.contains("unknown flag"));
}

#[test]
fn double_dash_then_help_is_a_filename() {
    let a = run_args(&["--", "--help"]);
    assert_eq!(a.path, Some("--help".to_string()));
}

#[test]
fn help_text_contains_usage() {
    match parse(&["--help"]).unwrap() {
        ParseOutcome::Message(m) => {
            assert!(m.contains("USAGE:"));
            assert!(m.contains("oom-edit [OPTIONS] [--] [path]"));
            assert!(m.contains("oom-edit"));
        }
        other => panic!("expected help message, got {other:?}"),
    }
}

#[test]
fn version_text_contains_package_version() {
    match parse(&["--version"]).unwrap() {
        ParseOutcome::Message(m) => {
            assert!(m.contains("0.1.0"));
        }
        other => panic!("expected version message, got {other:?}"),
    }
}

#[test]
fn version_text_is_exact() {
    assert_eq!(version_text(), "oom-edit 0.1.0\n");
}

#[test]
fn help_message_is_the_full_help_text() {
    assert_eq!(parse(&["-h"]), Ok(ParseOutcome::Message(help_text())));
    assert!(help_text().starts_with("oom-edit \u{2014} a console/TUI markdown editor"));
    assert!(help_text().ends_with("The file is created on the first save (:w).\n"));
}

#[test]
fn usage_prefixes_the_problem_and_appends_help() {
    assert_eq!(usage("boom"), format!("error: boom\n\n{}", help_text()));
}

#[test]
fn errors_carry_the_exact_problem_text() {
    assert_eq!(
        parse(&["--bogus=1"]),
        Err(usage("unknown flag '--bogus'"))
    );
    assert_eq!(parse(&["--theme"]), Err(usage("flag '--theme' requires a value")));
    assert_eq!(
        parse(&["--panic-test=yes"]),
        Err(usage("flag '--panic-test' takes no value"))
    );
    assert_eq!(parse(&["--=x"]), Err(usage("flag '--' takes no value")));
    assert_eq!(
        parse(&["a", "b"]),
        Err(usage("unexpected argument (only one positional path allowed)"))
    );
}

#[test]
fn panic_test_flag_sets_the_hidden_switch() {
    let a = run_args(&["--panic-test"]);
    assert!(a.panic_test);
}

#[test]
fn theme_value_is_taken_verbatim_even_when_it_looks_like_a_flag() {
    let a = run_args(&["--theme", "--help"]);
    assert_eq!(a.theme, Some("--help".to_string()));
}

#[test]
fn inline_value_keeps_later_equals_signs() {
    let a = run_args(&["--theme=a=b"]);
    assert_eq!(a.theme, Some("a=b".to_string()));
}

#[test]
fn help_wins_over_a_later_unknown_flag() {
    assert_eq!(parse(&["--help", "--bogus"]), Ok(ParseOutcome::Message(help_text())));
}

#[test]
fn positional_path_with_equals_sign_is_kept_whole() {
    let a = run_args(&["notes=v2.md"]);
    assert_eq!(a.path, Some("notes=v2.md".to_string()));
    assert_eq!(a.theme, None);
    assert!(!a.panic_test);
}
