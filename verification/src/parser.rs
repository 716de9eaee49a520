use vstd::prelude::*;

use crate::tokenizer::{tokenize_spec, tokens_view};

pub use crate::tokenizer::tokenize_input;

verus! {

/// The six redirection operators a stage may carry, folded into the four
/// stream/mode combinations they denote.
#[derive(PartialEq, Eq, Structural, Clone, Copy, Debug)]
pub enum RedirectType {
    StdoutTruncate,
    StdoutAppend,
    StderrTruncate,
    StderrAppend,
}

/// Which redirection, if any, a token denotes: `>` and `1>` truncate stdout,
/// `>>` and `1>>` append to stdout, `2>` truncates stderr, `2>>` appends to
/// stderr.
pub open spec fn redirect_type_spec(t: Seq<char>) -> Option<RedirectType> {
    if t.len() == 1 && t[0] == '>' {
        Some(RedirectType::StdoutTruncate)
    } else if t.len() == 2 && t[0] == '1' && t[1] == '>' {
        Some(RedirectType::StdoutTruncate)
    } else if t.len() == 2 && t[0] == '>' && t[1] == '>' {
        Some(RedirectType::StdoutAppend)
    } else if t.len() == 3 && t[0] == '1' && t[1] == '>' && t[2] == '>' {
        Some(RedirectType::StdoutAppend)
    } else if t.len() == 2 && t[0] == '2' && t[1] == '>' {
        Some(RedirectType::StderrTruncate)
    } else if t.len() == 3 && t[0] == '2' && t[1] == '>' && t[2] == '>' {
        Some(RedirectType::StderrAppend)
    } else {
        None
    }
}

impl RedirectType {
    /// Recognizes a redirection operator token.
    pub fn from_operator(op: &str) -> (r: Option<RedirectType>)
        ensures
            r == redirect_type_spec(op@),
    {
        let n = op.unicode_len();
        if n == 1 && op.get_char(0) == '>' {
            Some(RedirectType::StdoutTruncate)
        } else if n == 2 && op.get_char(0) == '1' && op.get_char(1) == '>' {
            Some(RedirectType::StdoutTruncate)
        } else if n == 2 && op.get_char(0) == '>' && op.get_char(1) == '>' {
            Some(RedirectType::StdoutAppend)
        } else if n == 3 && op.get_char(0) == '1' && op.get_char(1) == '>' && op.get_char(2) == '>' {
            Some(RedirectType::StdoutAppend)
        } else if n == 2 && op.get_char(0) == '2' && op.get_char(1) == '>' {
            Some(RedirectType::StderrTruncate)
        } else if n == 3 && op.get_char(0) == '2' && op.get_char(1) == '>' && op.get_char(2) == '>' {
            Some(RedirectType::StderrAppend)
        } else {
            None
        }
    }
}

/// Abstract value of one parsed stage: the command name, its arguments in
/// order, and the optional stdout/stderr redirection targets with their
/// append flags.
pub struct CommandModel {
    pub command: Seq<char>,
    pub args: Seq<Seq<char>>,
    pub stdout_redirect: Option<Seq<char>>,
    pub stderr_redirect: Option<Seq<char>>,
    pub stdout_redirect_append: bool,
    pub stderr_redirect_append: bool,
}

/// One stage of a pipeline: a command, its arguments, and where its standard
/// output and standard error go.
pub struct ParsedCommand {
    pub command: String,
    pub args: Vec<String>,
    pub stdout_redirect: Option<String>,
    pub stderr_redirect: Option<String>,
    pub stdout_redirect_append: bool,
    pub stderr_redirect_append: bool,
}

impl Clone for ParsedCommand {
    /// A copy that denotes the same stage.
    fn clone(&self) -> (r: Self)
        ensures
            r@ == self@,
    {
        let r = ParsedCommand {
            command: self.command.clone(),
            args: crate::strutil::clone_strings(&self.args),
            stdout_redirect: match &self.stdout_redirect {
                Some(p) => Some(p.clone()),
                None => None,
            },
            stderr_redirect: match &self.stderr_redirect {
                Some(p) => Some(p.clone()),
                None => None,
            },
            stdout_redirect_append: self.stdout_redirect_append,
            stderr_redirect_append: self.stderr_redirect_append,
        };
        r
    }
}

/// The view of an optional owned target path.
pub open spec fn opt_view(o: Option<String>) -> Option<Seq<char>> {
    match o {
        Some(s) => Some(s@),
        None => None,
    }
}

impl View for ParsedCommand {
    type V = CommandModel;

    open spec fn view(&self) -> CommandModel {
        CommandModel {
            command: self.command@,
            args: tokens_view(self.args@),
            stdout_redirect: opt_view(self.stdout_redirect),
            stderr_redirect: opt_view(self.stderr_redirect),
            stdout_redirect_append: self.stdout_redirect_append,
            stderr_redirect_append: self.stderr_redirect_append,
        }
    }
}

/// Records a redirection target, overwriting any earlier target of the same
/// stream.
pub open spec fn apply_redirect(acc: CommandModel, rt: RedirectType, target: Seq<char>)
    -> CommandModel {
    match rt {
        RedirectType::StdoutTruncate => CommandModel {
            command: acc.command,
            args: acc.args,
            stdout_redirect: Some(target),
            stderr_redirect: acc.stderr_redirect,
            stdout_redirect_append: false,
            stderr_redirect_append: acc.stderr_redirect_append,
        },
        RedirectType::StdoutAppend => CommandModel {
            command: acc.command,
            args: acc.args,
            stdout_redirect: Some(target),
            stderr_redirect: acc.stderr_redirect,
            stdout_redirect_append: true,
            stderr_redirect_append: acc.stderr_redirect_append,
        },
        RedirectType::StderrTruncate => CommandModel {
            command: acc.command,
            args: acc.args,
            stdout_redirect: acc.stdout_redirect,
            stderr_redirect: Some(target),
            stdout_redirect_append: acc.stdout_redirect_append,
            stderr_redirect_append: false,
        },
        RedirectType::StderrAppend => CommandModel {
            command: acc.command,
            args: acc.args,
            stdout_redirect: acc.stdout_redirect,
            stderr_redirect: Some(target),
            stdout_redirect_append: acc.stdout_redirect_append,
            stderr_redirect_append: true,
        },
    }
}

/// Appends one more positional argument.
pub open spec fn push_arg(acc: CommandModel, arg: Seq<char>) -> CommandModel {
    CommandModel {
        command: acc.command,
        args: acc.args.push(arg),
        stdout_redirect: acc.stdout_redirect,
        stderr_redirect: acc.stderr_redirect,
        stdout_redirect_append: acc.stdout_redirect_append,
        stderr_redirect_append: acc.stderr_redirect_append,
    }
}

/// Walks the tokens of a segment from position `i`: a redirection operator
/// consumes the following token as its target (an operator with no following
/// token is dropped), and every other token becomes an argument.
pub open spec fn parse_seg_from(tokens: Seq<Seq<char>>, i: int, acc: CommandModel) -> CommandModel
    decreases tokens.len() - i,
{
    if i < 0 || i >= tokens.len() {
        acc
    } else {
        match redirect_type_spec(tokens[i]) {
            Some(rt) => {
                if i + 1 < tokens.len() {
                    parse_seg_from(tokens, i + 2, apply_redirect(acc, rt, tokens[i + 1]))
                } else {
                    acc
                }
            },
            None => parse_seg_from(tokens, i + 1, push_arg(acc, tokens[i])),
        }
    }
}

/// The stage a non-empty token segment denotes: the first token is the
/// command name, the rest are arguments and redirections.
pub open spec fn parse_segment_spec(tokens: Seq<Seq<char>>) -> CommandModel
    recommends
        tokens.len() > 0,
{
    parse_seg_from(
        tokens,
        1,
        CommandModel {
            command: tokens[0],
            args: Seq::empty(),
            stdout_redirect: None,
            stderr_redirect: None,
            stdout_redirect_append: false,
            stderr_redirect_append: false,
        },
    )
}

/// Parses the tokens of one pipe-delimited segment into a stage descriptor.
pub fn parse_command_line(tokens: Vec<String>) -> (r: Option<ParsedCommand>)
    requires
        tokens@.len() > 0,
    ensures
        r matches Some(c) && c@ == parse_segment_spec(tokens_view(tokens@)),
{
    let ghost toks = tokens_view(tokens@);
    let command = tokens[0].clone();
    let mut args: Vec<String> = Vec::new();
    let mut stdout_redirect: Option<String> = None;
    let mut stderr_redirect: Option<String> = None;
    let mut stdout_redirect_append: bool = false;
    let mut stderr_redirect_append: bool = false;
    let mut i: usize = 1;
    proof {
        let acc0 = CommandModel {
            command: command@,
            args: tokens_view(args@),
            stdout_redirect: opt_view(stdout_redirect),
            stderr_redirect: opt_view(stderr_redirect),
            stdout_redirect_append,
            stderr_redirect_append,
        };
        assert(acc0.args =~= Seq::<Seq<char>>::empty());
        assert(parse_seg_from(toks, 1, acc0) == parse_segment_spec(toks));
    }
    while i < tokens.len()
        invariant
            1 <= i,
            toks == tokens_view(tokens@),
            toks.len() == tokens@.len(),
            parse_seg_from(
                toks,
                i as int,
                CommandModel {
                    command: command@,
                    args: tokens_view(args@),
                    stdout_redirect: opt_view(stdout_redirect),
                    stderr_redirect: opt_view(stderr_redirect),
                    stdout_redirect_append,
                    stderr_redirect_append,
                },
            ) == parse_segment_spec(toks),
        decreases tokens@.len() - i,
    {
        let ghost acc_pre = CommandModel {
            command: command@,
            args: tokens_view(args@),
            stdout_redirect: opt_view(stdout_redirect),
            stderr_redirect: opt_view(stderr_redirect),
            stdout_redirect_append,
            stderr_redirect_append,
        };
        if let Some(rt) = RedirectType::from_operator(tokens[i].as_str()) {
            if i + 1 < tokens.len() {
                let target = tokens[i + 1].clone();
                match rt {
                    RedirectType::StdoutTruncate => {
                        stdout_redirect = Some(target);
                        stdout_redirect_append = false;
                    },
                    RedirectType::StdoutAppend => {
                        stdout_redirect = Some(target);
                        stdout_redirect_append = true;
                    },
                    RedirectType::StderrTruncate => {
                        stderr_redirect = Some(target);
                        stderr_redirect_append = false;
                    },
                    RedirectType::StderrAppend => {
                        stderr_redirect = Some(target);
                        stderr_redirect_append = true;
                    },
                }
                proof {
                    let acc_post = CommandModel {
                        command: command@,
                        args: tokens_view(args@),
                        stdout_redirect: opt_view(stdout_redirect),
                        stderr_redirect: opt_view(stderr_redirect),
                        stdout_redirect_append,
                        stderr_redirect_append,
                    };
                    assert(acc_post == apply_redirect(acc_pre, rt, toks[i + 1]));
                }
                i = i + 2;
            } else {
                // A redirection operator with nothing after it is dropped;
                // only a diagnostic is owed, which is the caller's concern.
                i = i + 1;
            }
        } else {
            args.push(tokens[i].clone());
            proof {
                let acc_post = CommandModel {
                    command: command@,
                    args: tokens_view(args@),
                    stdout_redirect: opt_view(stdout_redirect),
                    stderr_redirect: opt_view(stderr_redirect),
                    stdout_redirect_append,
                    stderr_redirect_append,
                };
                assert(acc_post.args =~= acc_pre.args.push(toks[i as int]));
                assert(acc_post == push_arg(acc_pre, toks[i as int]));
            }
            i = i + 1;
        }
    }
    let result = ParsedCommand {
        command,
        args,
        stdout_redirect,
        stderr_redirect,
        stdout_redirect_append,
        stderr_redirect_append,
    };
    Some(result)
}

/// Closes a segment when a pipe token is met or the tokens end: empty
/// segments are dropped.
pub open spec fn close_segment(done: Seq<Seq<Seq<char>>>, cur: Seq<Seq<char>>)
    -> Seq<Seq<Seq<char>>> {
    if cur.len() > 0 {
        done.push(cur)
    } else {
        done
    }
}

/// Splits a token sequence at pipe tokens, from position `i`, dropping empty
/// segments.
pub open spec fn split_segments_from(
    tokens: Seq<Seq<char>>,
    i: int,
    done: Seq<Seq<Seq<char>>>,
    cur: Seq<Seq<char>>,
) -> Seq<Seq<Seq<char>>>
    decreases tokens.len() - i,
{
    if i < 0 || i >= tokens.len() {
        close_segment(done, cur)
    } else if tokens[i] == seq!['|'] {
        split_segments_from(tokens, i + 1, close_segment(done, cur), Seq::empty())
    } else {
        split_segments_from(tokens, i + 1, done, cur.push(tokens[i]))
    }
}

/// The non-empty pipe-delimited segments of a token sequence, in order.
pub open spec fn split_segments(tokens: Seq<Seq<char>>) -> Seq<Seq<Seq<char>>> {
    split_segments_from(tokens, 0, Seq::empty(), Seq::empty())
}

/// The views of a sequence of parsed stages.
pub open spec fn parsed_views(cs: Seq<ParsedCommand>) -> Seq<CommandModel> {
    cs.map_values(|c: ParsedCommand| c@)
}

/// Each segment of a sequence parsed into its stage descriptor.
pub open spec fn segs_parsed(segs: Seq<Seq<Seq<char>>>) -> Seq<CommandModel> {
    segs.map_values(|seg: Seq<Seq<char>>| parse_segment_spec(seg))
}

/// The pipeline a whole input line denotes: tokenize, split at pipe tokens,
/// and parse each non-empty segment into a stage descriptor.
pub open spec fn pipeline_spec(line: Seq<char>) -> Seq<CommandModel> {
    segs_parsed(split_segments(tokenize_spec(line)))
}

/// Whether a token is exactly the pipe separator.
fn is_pipe_token(t: &String) -> (r: bool)
    ensures
        r == (t@ == seq!['|']),
{
    let s = t.as_str();
    let r = s.unicode_len() == 1 && s.get_char(0) == '|';
    proof {
        if r {
            assert(t@ =~= seq!['|']);
        }
    }
    r
}

/// Parses a raw input line into the ordered stages of a pipeline.
pub fn parse_input(input: &str) -> (commands: Vec<ParsedCommand>)
    ensures
        parsed_views(commands@) == pipeline_spec(input@),
{
    let tokens = tokenize_input(input);
    let ghost toks = tokens_view(tokens@);
    let mut commands: Vec<ParsedCommand> = Vec::new();
    let mut seg: Vec<String> = Vec::new();
    let ghost mut done: Seq<Seq<Seq<char>>> = Seq::empty();
    let mut i: usize = 0;
    proof {
        assert(tokens_view(seg@) =~= Seq::<Seq<char>>::empty());
        assert(parsed_views(commands@) =~= segs_parsed(done));
    }
    while i < tokens.len()
        invariant
            i <= tokens@.len(),
            toks == tokens_view(tokens@),
            toks.len() == tokens@.len(),
            split_segments_from(toks, i as int, done, tokens_view(seg@)) == split_segments(toks),
            parsed_views(commands@) == segs_parsed(done),
        decreases tokens@.len() - i,
    {
        let ghost curv = tokens_view(seg@);
        let ghost done_pre = done;
        proof {
            assert(toks[i as int] == tokens@[i as int]@);
        }
        if is_pipe_token(&tokens[i]) {
            proof {
                assert(split_segments_from(toks, i as int, done_pre, curv)
                    == split_segments_from(
                    toks,
                    i + 1,
                    close_segment(done_pre, curv),
                    Seq::empty(),
                ));
            }
            if seg.len() > 0 {
                let ghost segv = tokens_view(seg@);
                let ghost cmds_pre = commands@;
                let parsed = parse_command_line(seg).unwrap();
                commands.push(parsed);
                seg = Vec::new();
                proof {
                    done = done_pre.push(segv);
                    assert(close_segment(done_pre, curv) == done);
                    assert(tokens_view(seg@) =~= Seq::<Seq<char>>::empty());
                    assert(parsed@ == parse_segment_spec(segv));
                    assert(parsed_views(commands@) =~= parsed_views(cmds_pre).push(parsed@));
                    assert(segs_parsed(done) =~= segs_parsed(done_pre).push(
                        parse_segment_spec(segv),
                    ));
                    assert(parsed_views(commands@) =~= segs_parsed(done));
                }
            } else {
                proof {
                    assert(curv.len() == 0);
                    assert(close_segment(done_pre, curv) == done);
                    assert(tokens_view(seg@) =~= Seq::<Seq<char>>::empty());
                }
            }
        } else {
            seg.push(tokens[i].clone());
            proof {
                assert(toks[i as int] != seq!['|']);
                assert(tokens_view(seg@) =~= curv.push(toks[i as int]));
                assert(split_segments_from(toks, i as int, done_pre, curv)
                    == split_segments_from(toks, i + 1, done_pre, curv.push(toks[i as int])));
            }
        }
        i = i + 1;
    }
    proof {
        assert(split_segments(toks) == close_segment(done, tokens_view(seg@)));
    }
    if seg.len() > 0 {
        let ghost segv = tokens_view(seg@);
        let ghost done_fin = done;
        let ghost cmds_fin = commands@;
        let parsed = parse_command_line(seg).unwrap();
        commands.push(parsed);
        proof {
            done = done_fin.push(segv);
            assert(parsed@ == parse_segment_spec(segv));
            assert(parsed_views(commands@) =~= parsed_views(cmds_fin).push(parsed@));
            assert(segs_parsed(done) =~= segs_parsed(done_fin).push(parse_segment_spec(segv)));
            assert(parsed_views(commands@) =~= segs_parsed(done));
        }
    }
    proof {
        assert(segs_parsed(done) == pipeline_spec(input@));
    }
    commands
}

/// For input that is only whitespace — or empty — the tokenizer produces
/// no tokens and the parser produces an empty pipeline.
pub proof fn lemma_whitespace_only_pipeline(s: Seq<char>)
    requires
        forall|i: int| 0 <= i < s.len() ==> crate::tokenizer::is_space_char(#[trigger] s[i]),
    ensures
        tokenize_spec(s) == Seq::<Seq<char>>::empty(),
        pipeline_spec(s) == Seq::<CommandModel>::empty(),
{
    crate::tokenizer::lemma_whitespace_only_tokens(s);
    assert(split_segments(tokenize_spec(s)) =~= Seq::<Seq<Seq<char>>>::empty());
    assert(pipeline_spec(s) =~= Seq::<CommandModel>::empty());
}

} // verus!
