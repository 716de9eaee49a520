use vstd::prelude::*;

use crate::commands::command::{ActionModel, BuiltinAction, BuiltinStep, Command, ShellStatus,
    StepModel};
use crate::commands::registry::{start_index_spec, CommandRegistry, RegistryModel};
use crate::error::{ErrorModel, ShellError};
use crate::strutil::{dec_str, dec_string, digits_val, parse_usize, str_eq, strip_plus,
    valid_usize_literal};
use crate::tokenizer::tokens_view;

verus! {

/// A history line number, right-aligned in a field of five columns.
pub open spec fn pad5(s: Seq<char>) -> Seq<char> {
    if s.len() >= 5 {
        s
    } else {
        Seq::new((5 - s.len()) as nat, |j: int| ' ') + s
    }
}

/// One line of the history listing: the one-based entry number, padded,
/// two spaces, the entry, a newline.
pub open spec fn history_line(idx: int, entry: Seq<char>) -> Seq<char> {
    pad5(dec_str((idx + 1) as nat)) + "  "@ + entry + seq!['\n']
}

/// The history listing from entry `i` on.
pub open spec fn history_listing_from(h: Seq<Seq<char>>, i: int) -> Seq<char>
    decreases h.len() - i,
{
    if i < 0 || i >= h.len() {
        Seq::empty()
    } else {
        history_line(i, h[i]) + history_listing_from(h, i + 1)
    }
}

/// What listing the history does: with no argument every entry is listed;
/// a numeric argument lists only the last so many; anything else is an
/// error.
pub open spec fn list_spec(args: Seq<Seq<char>>, m: RegistryModel) -> StepModel {
    if args.len() == 0 {
        StepModel {
            output: history_listing_from(m.history, 0),
            action: ActionModel::Complete(Ok(ShellStatus::Continue)),
        }
    } else if valid_usize_literal(args[0]) {
        let limit = digits_val(strip_plus(args[0]));
        let start: int = if limit > m.history.len() {
            0
        } else {
            m.history.len() - limit
        };
        StepModel {
            output: history_listing_from(m.history, start),
            action: ActionModel::Complete(Ok(ShellStatus::Continue)),
        }
    } else {
        StepModel {
            output: Seq::empty(),
            action: ActionModel::Complete(Err(ErrorModel::HistoryInvalidArg { arg: args[0] })),
        }
    }
}

/// The `history` builtin: lists the session history, or with `-w`, `-a` and
/// `-r` writes it to or reads it from a file.
pub struct HistoryCommand;

/// The step a file-flag invocation produces: the flag needs a path
/// argument.
pub open spec fn flag_step(args: Seq<Seq<char>>, m: RegistryModel, flag: Seq<char>) -> StepModel {
    if args.len() >= 2 {
        if flag == "-w"@ {
            StepModel {
                output: Seq::empty(),
                action: ActionModel::WriteHistoryFile {
                    path: args[1],
                    append: false,
                    start: start_index_spec(m.history, false, false),
                },
            }
        } else if flag == "-a"@ {
            StepModel {
                output: Seq::empty(),
                action: ActionModel::WriteHistoryFile {
                    path: args[1],
                    append: true,
                    start: start_index_spec(m.history, true, false),
                },
            }
        } else {
            StepModel {
                output: Seq::empty(),
                action: ActionModel::ReadHistoryFile { path: args[1] },
            }
        }
    } else {
        StepModel {
            output: Seq::empty(),
            action: ActionModel::Complete(Err(ErrorModel::HistoryArgRequired { flag })),
        }
    }
}

impl Command for HistoryCommand {
    open spec fn spec_name(&self) -> Seq<char> {
        "history"@
    }

    open spec fn spec_step(&self, args: Seq<Seq<char>>, registry: RegistryModel) -> StepModel {
        if args.len() > 0 && args[0] == "-w"@ {
            flag_step(args, registry, "-w"@)
        } else if args.len() > 0 && args[0] == "-a"@ {
            flag_step(args, registry, "-a"@)
        } else if args.len() > 0 && args[0] == "-r"@ {
            flag_step(args, registry, "-r"@)
        } else {
            list_spec(args, registry)
        }
    }

    fn execute(&self, args: &Vec<String>, registry: &CommandRegistry) -> (step: BuiltinStep) {
        if args.len() > 0 && str_eq(args[0].as_str(), "-w") {
            self.file_flag(args, registry, "-w", false)
        } else if args.len() > 0 && str_eq(args[0].as_str(), "-a") {
            self.file_flag(args, registry, "-a", true)
        } else if args.len() > 0 && str_eq(args[0].as_str(), "-r") {
            if args.len() >= 2 {
                BuiltinStep {
                    output: String::new(),
                    action: BuiltinAction::ReadHistoryFile { path: args[1].clone() },
                }
            } else {
                BuiltinStep {
                    output: String::new(),
                    action: BuiltinAction::Complete(
                        Err(ShellError::HistoryArgRequired { flag: String::from_str("-r") }),
                    ),
                }
            }
        } else {
            self.list_history(args, registry)
        }
    }

    fn get_name(&self) -> (name: &'static str) {
        "history"
    }
}

impl HistoryCommand {
    /// Handles `-w` and `-a`: both write the history to the path argument,
    /// differing in mode and in where the write starts.
    fn file_flag(&self, args: &Vec<String>, registry: &CommandRegistry, flag: &str, append: bool)
        -> (step: BuiltinStep)
        requires
            args@.len() > 0,
            flag@ == "-w"@ && !append || flag@ == "-a"@ && append,
        ensures
            step@ == flag_step(tokens_view(args@), registry@, flag@),
    {
        if args.len() >= 2 {
            let entries = registry.get_history();
            let start = CommandRegistry::calculate_start_index(&entries, append, false);
            let out = String::new();
            let step = BuiltinStep {
                output: out,
                action: BuiltinAction::WriteHistoryFile {
                    path: args[1].clone(),
                    append,
                    start,
                },
            };
            proof {
                assert(tokens_view(args@)[1] == args@[1]@);
                assert(step@.output =~= Seq::<char>::empty());
                if !append {
                    assert(step@.action == flag_step(tokens_view(args@), registry@, flag@).action);
                } else {
                    reveal_strlit("-w");
                    reveal_strlit("-a");
                    assert("-a"@[1] == 'a' && "-w"@[1] == 'w');
                    assert(flag@ != "-w"@);
                    assert(step@.action == flag_step(tokens_view(args@), registry@, flag@).action);
                }
            }
            step
        } else {
            let step = BuiltinStep {
                output: String::new(),
                action: BuiltinAction::Complete(
                    Err(ShellError::HistoryArgRequired { flag: String::from_str(flag) }),
                ),
            };
            proof {
                assert(step@.output =~= Seq::<char>::empty());
            }
            step
        }
    }

    /// Lists the history, every entry or only the last so many, each line
    /// numbered.
    pub fn list_history(&self, args: &Vec<String>, registry: &CommandRegistry) -> (step:
        BuiltinStep)
        ensures
            step@ == list_spec(tokens_view(args@), registry@),
    {
        let ghost m = registry@;
        let history = registry.get_history();
        let n = history.len();
        let start: usize;
        if args.len() == 0 {
            start = 0;
        } else {
            match parse_usize(args[0].as_str()) {
                Some(limit) => {
                    if limit > n {
                        start = 0;
                    } else {
                        start = n - limit;
                    }
                },
                None => {
                    return BuiltinStep {
                        output: String::new(),
                        action: BuiltinAction::Complete(
                            Err(ShellError::HistoryInvalidArg { arg: args[0].clone() }),
                        ),
                    };
                },
            }
        }
        let ghost h = m.history;
        let mut out = String::new();
        let mut i: usize = start;
        while i < n
            invariant
                start <= i,
                n == history@.len(),
                h == m.history,
                h == tokens_view(history@),
                h.len() == n,
                history_listing_from(h, start as int) == out@ + history_listing_from(h, i as int),
            decreases n - i,
        {
            let num = dec_string(i + 1);
            let nlen = num.unicode_len();
            let mut p = nlen;
            let mut line = String::new();
            proof {
                reveal_strlit(" ");
                assert(line@ =~= Seq::new(((p - nlen)) as nat, |q: int| ' '));
            }
            while p < 5
                invariant
                    nlen <= p,
                    p <= 5 || p == nlen,
                    line@ == Seq::new((p - nlen) as nat, |q: int| ' '),
                decreases 5 - p,
            {
                line.append(" ");
                p = p + 1;
                proof {
                    reveal_strlit(" ");
                    assert(line@ =~= Seq::new((p - nlen) as nat, |q: int| ' '));
                }
            }
            line.append(num.as_str());
            proof {
                if nlen >= 5 {
                    assert(Seq::new(0nat, |q: int| ' ') =~= Seq::<char>::empty());
                    assert(line@ =~= pad5(dec_str((i + 1) as nat)));
                } else {
                    assert(line@ =~= pad5(dec_str((i + 1) as nat)));
                }
            }
            line.append("  ");
            line.append(history[i].as_str());
            line.append("\n");
            out.append(line.as_str());
            proof {
                reveal_strlit("\n");
                assert(line@ =~= history_line(i as int, h[i as int]));
                assert(history_listing_from(h, start as int) =~= out@ + history_listing_from(
                    h,
                    i + 1,
                ));
            }
            i = i + 1;
        }
        proof {
            assert(history_listing_from(h, i as int) =~= Seq::<char>::empty());
            assert(out@ =~= history_listing_from(h, start as int));
        }
        BuiltinStep { output: out, action: BuiltinAction::Complete(Ok(ShellStatus::Continue)) }
    }
}

} // verus!
