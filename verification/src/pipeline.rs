use vstd::prelude::*;

use crate::messages::{
    eval_error_line, evaluating_line, spec_eval_error_line, spec_evaluating_line,
};

verus! {

/// What the interpreter produced for a syntax tree, already rendered as
/// text: the computed value, or the runtime error.
#[derive(Debug, Clone, PartialEq, Eq)]
pub enum EvalOutcome {
    Value(String),
    RuntimeError(String),
}

/// The diagnostic lines one pipeline run reports: every parse error in
/// order, then — only when a syntax tree existed and was interpreted — the
/// single line for its value or its runtime error.
pub open spec fn spec_report_lines(
    parse_errors: Seq<Seq<char>>,
    outcome: Option<EvalOutcome>,
) -> Seq<Seq<char>> {
    parse_errors + match outcome {
        Option::None => Seq::<Seq<char>>::empty(),
        Option::Some(EvalOutcome::Value(v)) => seq![v@],
        Option::Some(EvalOutcome::RuntimeError(e)) => seq![e@],
    }
}

/// Route one pipeline run to its diagnostic lines.  `outcome` is `None`
/// exactly when parsing produced no syntax tree, in which case
/// interpretation was skipped and only the parse errors are reported.
pub fn pipeline_report(parse_errors: &Vec<String>, outcome: &Option<EvalOutcome>) -> (r: Vec<
    String,
>)
    ensures
        r.deep_view() == spec_report_lines(parse_errors.deep_view(), *outcome),
{
    let mut r: Vec<String> = Vec::new();
    let mut i: usize = 0;
    proof {
        assert(r.deep_view() =~= parse_errors.deep_view().subrange(0, 0));
    }
    while i < parse_errors.len()
        invariant
            0 <= i <= parse_errors.len(),
            r.deep_view() == parse_errors.deep_view().subrange(0, i as int),
        decreases parse_errors.len() - i,
    {
        let ghost old_r = r.deep_view();
        let e = parse_errors[i].clone();
        r.push(e);
        proof {
            assert(r.deep_view() =~= old_r + seq![parse_errors@[i as int]@]);
            assert(old_r + seq![parse_errors@[i as int]@] =~= parse_errors.deep_view().subrange(
                0,
                i as int + 1,
            ));
        }
        i = i + 1;
    }
    proof {
        assert(parse_errors.deep_view().subrange(0, parse_errors.deep_view().len() as int)
            =~= parse_errors.deep_view());
    }
    let ghost errors_only = r.deep_view();
    match outcome {
        Option::None => {
            proof {
                assert(r.deep_view() =~= spec_report_lines(parse_errors.deep_view(), *outcome));
            }
        },
        Option::Some(EvalOutcome::Value(v)) => {
            let line = v.clone();
            r.push(line);
            proof {
                assert(r.deep_view() =~= errors_only + seq![v@]);
            }
        },
        Option::Some(EvalOutcome::RuntimeError(e)) => {
            let line = e.clone();
            r.push(line);
            proof {
                assert(r.deep_view() =~= errors_only + seq![e@]);
            }
        },
    }
    r
}

/// The lines reported for one `eval` target before its contents reach the
/// pipeline: the announcement naming the path, then — only when reading the
/// file failed — the indented error line.
pub open spec fn spec_eval_target_lines(path: Seq<char>, read_error: Option<String>) -> Seq<
    Seq<char>,
> {
    match read_error {
        Option::None => seq![spec_evaluating_line(path)],
        Option::Some(e) => seq![spec_evaluating_line(path), spec_eval_error_line(e@)],
    }
}

/// Report the attempt to run one `eval` target.  `read_error` carries the
/// rendered I/O error when the file could not be read; such a failure is
/// announced and reported but never fatal to the shell.
pub fn eval_target_lines(path: &str, read_error: &Option<String>) -> (r: Vec<String>)
    ensures
        r.deep_view() == spec_eval_target_lines(path@, *read_error),
{
    let mut r: Vec<String> = Vec::new();
    r.push(evaluating_line(path));
    match read_error {
        Option::None => {
            proof {
                assert(r.deep_view() =~= seq![spec_evaluating_line(path@)]);
            }
        },
        Option::Some(e) => {
            r.push(eval_error_line(e.as_str()));
            proof {
                assert(r.deep_view() =~= seq![
                    spec_evaluating_line(path@),
                    spec_eval_error_line(e@),
                ]);
            }
        },
    }
    r
}

/// Law: a program that parses with zero errors and evaluates successfully
/// is reported as exactly one line — its value — and no error lines.
pub proof fn lemma_clean_run_reports_value_only(parse_errors: Seq<Seq<char>>, v: String)
    requires
        parse_errors.len() == 0,
    ensures
        spec_report_lines(parse_errors, Some(EvalOutcome::Value(v))) =~= seq![v@],
        spec_report_lines(parse_errors, Some(EvalOutcome::Value(v))).len() == 1,
{
}

/// Law: when parsing yields no syntax tree, the parse errors are reported
/// in order and no value or runtime-error line is reported.
pub proof fn lemma_no_tree_reports_errors_only(parse_errors: Seq<Seq<char>>)
    ensures
        spec_report_lines(parse_errors, None) =~= parse_errors,
{
}

/// Law: a failing `eval` target is announced first and its error reported
/// right after, and the report for that target ends there.
pub proof fn lemma_eval_failure_announced_then_reported(path: Seq<char>, err: String)
    ensures
        spec_eval_target_lines(path, Some(err)).len() == 2,
        spec_eval_target_lines(path, Some(err))[0] == spec_evaluating_line(path),
        spec_eval_target_lines(path, Some(err))[1] == spec_eval_error_line(err@),
{
}

} // verus!
