use lox_shell::pipeline::{eval_target_lines, pipeline_report, EvalOutcome};

#[test]
fn clean_run_reports_the_value_once() {
    let lines = pipeline_report(&vec![], &Some(EvalOutcome::Value("3".to_string())));
    assert_eq!(lines, vec!["3".to_string()]);
}

#[test]
fn no_tree_reports_only_the_parse_errors() {
    let errors = vec!["err one".to_string(), "err two".to_string()];
    let lines = pipeline_report(&errors, &None);
    assert_eq!(lines, errors);
}

#[test]
fn empty_input_with_no_tree_reports_nothing() {
    let lines = pipeline_report(&vec![], &None);
    assert_eq!(lines, Vec::<String>::new());
}

#[test]
fn runtime_error_is_reported_after_parse_errors() {
    let errors = vec!["warned".to_string()];
    let lines = pipeline_report(&errors, &Some(EvalOutcome::RuntimeError("boom".to_string())));
    assert_eq!(lines, vec!["warned".to_string(), "boom".to_string()]);
}

#[test]
fn partial_tree_still_reports_its_value() {
    let errors = vec!["recovered".to_string()];
    let lines = pipeline_report(&errors, &Some(EvalOutcome::Value("7".to_string())));
    assert_eq!(lines, vec!["recovered".to_string(), "7".to_string()]);
}

#[test]
fn missing_eval_target_is_announced_then_reported() {
    let err = "No such file or directory (os error 2)".to_string();
    let lines = eval_target_lines("missing.lox", &Some(err));
    assert_eq!(
        lines,
        vec![
            "Evaluating `missing.lox`...".to_string(),
            "  error: No such file or directory (os error 2)".to_string(),
        ]
    );
}

#[test]
fn readable_eval_target_is_only_announced() {
    let lines = eval_target_lines("a.lox", &None);
    assert_eq!(lines, vec!["Evaluating `a.lox`...".to_string()]);
}
