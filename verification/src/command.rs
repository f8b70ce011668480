use vstd::prelude::*;

use crate::text::{spec_trim, spec_words, split_words, trim_line};

verus! {

/// A meta-command entered on an interactive line starting with `:`, made of
/// the first word after the colon and the words that follow it.
#[derive(Debug, Clone, PartialEq, Eq)]
pub enum MetaCommand {
    /// `:exit` — terminate the shell.
    Exit,
    /// `:eval <paths...>` — run each file through the pipeline.
    Eval(Vec<String>),
    /// `:help` — print the usage synopsis.
    Help,
    /// Any other name; a bare `:` yields the placeholder name `<empty>`.
    Unknown(String),
}

/// One interactive line, classified.
#[derive(Debug, Clone, PartialEq, Eq)]
pub enum LineKind {
    /// The read returned nothing: end of input.
    EndOfInput,
    /// The trimmed line started with `:`.
    Meta(MetaCommand),
    /// Anything else: the trimmed line is source text.
    Source(String),
}

/// How a word list maps to a meta-command: the first word selects the
/// command, the remaining words are its arguments, and an empty list is the
/// unrecognized command `<empty>`.
pub open spec fn meta_matches(words: Seq<Seq<char>>, m: MetaCommand) -> bool {
    if words.len() == 0 {
        m matches MetaCommand::Unknown(n) && n@ == "<empty>"@
    } else if words[0] == "exit"@ {
        m is Exit
    } else if words[0] == "eval"@ {
        m matches MetaCommand::Eval(paths) && paths.deep_view() == words.drop_first()
    } else if words[0] == "help"@ {
        m is Help
    } else {
        m matches MetaCommand::Unknown(n) && n@ == words[0]
    }
}

/// How a raw read line maps to its classification: an empty read is end of
/// input; otherwise the line is trimmed, a leading `:` makes it a
/// meta-command over the words of its tail, and anything else is source
/// text.
pub open spec fn line_matches(line: Seq<char>, r: LineKind) -> bool {
    if line.len() == 0 {
        r is EndOfInput
    } else {
        let t = spec_trim(line);
        if t.len() > 0 && t[0] == ':' {
            r matches LineKind::Meta(m) && meta_matches(spec_words(t.drop_first()), m)
        } else {
            r matches LineKind::Source(src) && src@ == t
        }
    }
}

/// Turn the words after a leading `:` into a meta-command.
pub fn parse_meta_command(words: &Vec<String>) -> (m: MetaCommand)
    ensures
        meta_matches(words.deep_view(), m),
{
    if words.len() == 0 {
        return MetaCommand::Unknown(String::from_str("<empty>"));
    }
    proof {
        assert(words.deep_view()[0] == words@[0]@);
    }
    let exit_name = String::from_str("exit");
    let eval_name = String::from_str("eval");
    let help_name = String::from_str("help");
    if words[0] == exit_name {
        MetaCommand::Exit
    } else if words[0] == eval_name {
        let mut paths: Vec<String> = Vec::new();
        let mut i: usize = 1;
        proof {
            assert(paths.deep_view() =~= words.deep_view().subrange(1, 1));
        }
        while i < words.len()
            invariant
                1 <= i <= words.len(),
                paths.deep_view() == words.deep_view().subrange(1, i as int),
            decreases words.len() - i,
        {
            let ghost old_paths = paths.deep_view();
            let p = words[i].clone();
            paths.push(p);
            proof {
                assert(paths.deep_view() =~= old_paths + seq![words@[i as int]@]);
                assert(old_paths + seq![words@[i as int]@] =~= words.deep_view().subrange(
                    1,
                    i as int + 1,
                ));
            }
            i = i + 1;
        }
        proof {
            assert(words.deep_view().subrange(1, words.deep_view().len() as int)
                =~= words.deep_view().drop_first());
        }
        MetaCommand::Eval(paths)
    } else if words[0] == help_name {
        MetaCommand::Help
    } else {
        let name = words[0].clone();
        MetaCommand::Unknown(name)
    }
}

/// Classify one raw line read from the interactive session.
pub fn classify_line(line: &str) -> (r: LineKind)
    ensures
        line_matches(line@, r),
{
    if line.unicode_len() == 0 {
        return LineKind::EndOfInput;
    }
    let t = trim_line(line);
    let tlen = t.as_str().unicode_len();
    if tlen > 0 && t.as_str().get_char(0) == ':' {
        let tail = t.as_str().substring_char(1, tlen);
        proof {
            assert(tail@ =~= spec_trim(line@).drop_first());
        }
        let words = split_words(tail);
        LineKind::Meta(parse_meta_command(&words))
    } else {
        LineKind::Source(t)
    }
}

/// Law: `:exit` terminates the shell whatever else the line holds, and
/// whatever state the shell is in — classification looks at nothing but the
/// line itself.
pub proof fn lemma_exit_always_terminates(line: Seq<char>, r: LineKind)
    requires
        line.len() > 0,
        spec_trim(line).len() > 0,
        spec_trim(line)[0] == ':',
        spec_words(spec_trim(line).drop_first()).len() > 0,
        spec_words(spec_trim(line).drop_first())[0] == "exit"@,
        line_matches(line, r),
    ensures
        r matches LineKind::Meta(MetaCommand::Exit),
{
}

/// Law: an empty read — end of input — terminates the shell without any
/// command being required.
pub proof fn lemma_end_of_input_terminates(line: Seq<char>, r: LineKind)
    requires
        line.len() == 0,
        line_matches(line, r),
    ensures
        r is EndOfInput,
{
}

/// Law: an unrecognized meta-command is classified as unknown and carries
/// its name verbatim, so the diagnostic can echo it.
pub proof fn lemma_unknown_command_echoed(line: Seq<char>, r: LineKind)
    requires
        line.len() > 0,
        spec_trim(line).len() > 0,
        spec_trim(line)[0] == ':',
        spec_words(spec_trim(line).drop_first()).len() > 0,
        spec_words(spec_trim(line).drop_first())[0] != "exit"@,
        spec_words(spec_trim(line).drop_first())[0] != "eval"@,
        spec_words(spec_trim(line).drop_first())[0] != "help"@,
        line_matches(line, r),
    ensures
        r matches LineKind::Meta(m) && m matches MetaCommand::Unknown(n) && n@ == spec_words(
            spec_trim(line).drop_first(),
        )[0],
{
}

} // verus!
