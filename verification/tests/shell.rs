use lox_shell::command::{classify_line, parse_meta_command, LineKind, MetaCommand};
use lox_shell::messages::{
    eval_error_line, evaluating_line, help_text, invalid_command_line, prompt_text, welcome_line,
};
use lox_shell::text::{split_words, trim_line};

#[test]
fn help_synopsis_is_fixed() {
    assert_eq!(help_text(), ":exit | :eval a b ... | :help");
}

#[test]
fn welcome_and_prompt_are_fixed() {
    assert_eq!(
        welcome_line(),
        "Welcome to rs-lox. Enter Ctrl+D or `:exit` to exit.\n"
    );
    assert_eq!(prompt_text(), "> ");
}

#[test]
fn exit_command_terminates() {
    assert_eq!(
        classify_line(":exit\n"),
        LineKind::Meta(MetaCommand::Exit)
    );
}

#[test]
fn exit_command_with_surrounding_whitespace_terminates() {
    assert_eq!(
        classify_line("  :  exit  \n"),
        LineKind::Meta(MetaCommand::Exit)
    );
}

#[test]
fn exit_command_ignores_extra_arguments() {
    assert_eq!(
        classify_line(":exit now\n"),
        LineKind::Meta(MetaCommand::Exit)
    );
}

#[test]
fn empty_read_is_end_of_input() {
    assert_eq!(classify_line(""), LineKind::EndOfInput);
}

#[test]
fn unknown_command_carries_its_name() {
    assert_eq!(
        classify_line(":foo\n"),
        LineKind::Meta(MetaCommand::Unknown("foo".to_string()))
    );
}

#[test]
fn bare_colon_is_the_empty_command() {
    assert_eq!(
        classify_line(":\n"),
        LineKind::Meta(MetaCommand::Unknown("<empty>".to_string()))
    );
}

#[test]
fn eval_command_collects_its_paths() {
    assert_eq!(
        classify_line(":eval a b\n"),
        LineKind::Meta(MetaCommand::Eval(vec![
            "a".to_string(),
            "b".to_string()
        ]))
    );
}

#[test]
fn eval_command_without_paths_has_none() {
    assert_eq!(
        classify_line(":eval\n"),
        LineKind::Meta(MetaCommand::Eval(vec![]))
    );
}

#[test]
fn help_command_is_recognized() {
    assert_eq!(classify_line(":help\n"), LineKind::Meta(MetaCommand::Help));
}

#[test]
fn plain_line_is_source_text() {
    assert_eq!(
        classify_line("1 + 2\n"),
        LineKind::Source("1 + 2".to_string())
    );
}

#[test]
fn blank_line_is_empty_source_text() {
    assert_eq!(classify_line("\n"), LineKind::Source(String::new()));
}

#[test]
fn invalid_command_diagnostic_names_the_command() {
    let line = invalid_command_line("foo");
    assert_eq!(
        line,
        "The command `foo` is not valid. Type `:help` for guidance."
    );
    assert!(line.contains("foo"));
}

#[test]
fn evaluating_announcement_names_the_path() {
    assert_eq!(evaluating_line("a.lox"), "Evaluating `a.lox`...");
}

#[test]
fn eval_error_line_is_indented() {
    assert_eq!(eval_error_line("boom"), "  error: boom");
}

#[test]
fn words_of_an_empty_tail_are_none() {
    let words = parse_meta_command(&vec![]);
    assert_eq!(words, MetaCommand::Unknown("<empty>".to_string()));
}

#[test]
fn colon_followed_only_by_whitespace_is_the_empty_command() {
    assert_eq!(
        classify_line(": \n"),
        LineKind::Meta(MetaCommand::Unknown("<empty>".to_string()))
    );
}

#[test]
fn eval_command_keeps_path_order_over_runs_of_whitespace() {
    assert_eq!(
        classify_line(":eval   first.lox \t second.lox\n"),
        LineKind::Meta(MetaCommand::Eval(vec![
            "first.lox".to_string(),
            "second.lox".to_string()
        ]))
    );
}

#[test]
fn trim_removes_surrounding_whitespace() {
    assert_eq!(trim_line("  1 + 2 \t\n"), "1 + 2");
    assert_eq!(trim_line("x"), "x");
    assert_eq!(trim_line(" \t \n"), "");
    assert_eq!(trim_line(""), "");
    assert_eq!(trim_line("\r\u{c}ok\r\n"), "ok");
}

#[test]
fn split_discards_empty_segments() {
    assert_eq!(
        split_words(" a  bb\tc "),
        vec!["a".to_string(), "bb".to_string(), "c".to_string()]
    );
    assert_eq!(split_words(""), Vec::<String>::new());
    assert_eq!(split_words(" \t "), Vec::<String>::new());
    assert_eq!(split_words("one"), vec!["one".to_string()]);
}
