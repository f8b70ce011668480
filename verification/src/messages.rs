use vstd::prelude::*;

verus! {

/// The banner printed when the interactive shell starts.
pub fn welcome_line() -> (r: String)
    ensures
        r@ == "Welcome to rs-lox. Enter Ctrl+D or `:exit` to exit.\n"@,
{
    String::from_str("Welcome to rs-lox. Enter Ctrl+D or `:exit` to exit.\n")
}

/// The prompt shown before each interactive line is read.
pub fn prompt_text() -> (r: String)
    ensures
        r@ == "> "@,
{
    String::from_str("> ")
}

/// The fixed usage synopsis printed for the `help` meta-command.
pub fn help_text() -> (r: String)
    ensures
        r@ == ":exit | :eval a b ... | :help"@,
{
    String::from_str(":exit | :eval a b ... | :help")
}

/// The line announcing that an `eval` target is about to be run.
pub open spec fn spec_evaluating_line(path: Seq<char>) -> Seq<char> {
    "Evaluating `"@ + path + "`..."@
}

/// Format the announcement for one `eval` target.
pub fn evaluating_line(path: &str) -> (r: String)
    ensures
        r@ == spec_evaluating_line(path@),
{
    let mut r = String::from_str("Evaluating `");
    r.append(path);
    r.append("`...");
    proof {
        assert(r@ =~= spec_evaluating_line(path@));
    }
    r
}

/// The indented error line reported when an `eval` target fails.
pub open spec fn spec_eval_error_line(err: Seq<char>) -> Seq<char> {
    "  error: "@ + err
}

/// Format the error report for a failed `eval` target.
pub fn eval_error_line(err: &str) -> (r: String)
    ensures
        r@ == spec_eval_error_line(err@),
{
    let mut r = String::from_str("  error: ");
    r.append(err);
    r
}

/// The diagnostic printed for an unrecognized meta-command.
pub open spec fn spec_invalid_command_line(name: Seq<char>) -> Seq<char> {
    "The command `"@ + name + "` is not valid. Type `:help` for guidance."@
}

/// Format the diagnostic for an unrecognized meta-command.
pub fn invalid_command_line(name: &str) -> (r: String)
    ensures
        r@ == spec_invalid_command_line(name@),
{
    let mut r = String::from_str("The command `");
    r.append(name);
    r.append("` is not valid. Type `:help` for guidance.");
    proof {
        assert(r@ =~= spec_invalid_command_line(name@));
    }
    r
}

/// Law: the diagnostic for an unrecognized meta-command contains the
/// offending command name verbatim.
pub proof fn lemma_invalid_command_line_names_command(name: Seq<char>)
    ensures
        exists|i: int|
            0 <= i && i + name.len() <= spec_invalid_command_line(name).len()
                && #[trigger] spec_invalid_command_line(name).subrange(i, i + name.len() as int)
                == name,
{
    reveal_strlit("The command `");
    let prefix_len = "The command `"@.len() as int;
    assert(spec_invalid_command_line(name).subrange(prefix_len, prefix_len + name.len() as int)
        =~= name);
}

} // verus!
