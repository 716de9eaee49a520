use vstd::prelude::*;

use crate::strutil::{has_prefix, str_starts_with};
use crate::tokenizer::tokens_view;

verus! {

/// One completion candidate: the text shown in the listing and the text
/// inserted at the prompt, which is the command followed by a space.
#[derive(Debug)]
pub struct CustomCandidate {
    pub display: String,
    pub replacement: String,
}

/// The views of a sequence of candidates.
pub open spec fn candidate_views(cs: Seq<CustomCandidate>) -> Seq<(Seq<char>, Seq<char>)> {
    cs.map_values(|c: CustomCandidate| (c.display@, c.replacement@))
}

/// The candidates offered for the commands from `i` on: each command the
/// line is a prefix of, shown as itself and inserted with a trailing space.
pub open spec fn candidates_from(cmds: Seq<Seq<char>>, line: Seq<char>, i: int) -> Seq<
    (Seq<char>, Seq<char>),
>
    decreases cmds.len() - i,
{
    if i < 0 || i >= cmds.len() {
        Seq::empty()
    } else {
        let rest = candidates_from(cmds, line, i + 1);
        if has_prefix(cmds[i], line) {
            seq![(cmds[i], cmds[i] + seq![' '])] + rest
        } else {
            rest
        }
    }
}

/// What completing a line offers: nothing for an empty line, else every
/// known command the line begins.
pub open spec fn complete_spec(cmds: Seq<Seq<char>>, line: Seq<char>) -> Seq<
    (Seq<char>, Seq<char>),
> {
    if line.len() == 0 {
        Seq::empty()
    } else {
        candidates_from(cmds, line, 0)
    }
}

/// Line-editing helper state: the command names offered for completion.
pub struct Shell {
    pub commands: Vec<String>,
}

impl Shell {
    pub fn new(commands: Vec<String>) -> (r: Shell)
        ensures
            r.commands == commands,
    {
        Shell { commands }
    }

    /// The completion candidates for a line: every known command that the
    /// line is a prefix of, in catalogue order.
    pub fn complete(&self, line: &str) -> (r: Vec<CustomCandidate>)
        ensures
            candidate_views(r@) == complete_spec(tokens_view(self.commands@), line@),
    {
        let ghost cmds = tokens_view(self.commands@);
        let mut r: Vec<CustomCandidate> = Vec::new();
        if line.is_empty() {
            proof {
                assert(candidate_views(r@) =~= complete_spec(cmds, line@));
            }
            return r;
        }
        let mut i: usize = 0;
        while i < self.commands.len()
            invariant
                i <= self.commands@.len(),
                cmds == tokens_view(self.commands@),
                cmds.len() == self.commands@.len(),
                candidates_from(cmds, line@, 0) == candidate_views(r@) + candidates_from(
                    cmds,
                    line@,
                    i as int,
                ),
            decreases self.commands@.len() - i,
        {
            let ghost pre = candidate_views(r@);
            let command = &self.commands[i];
            proof {
                assert(cmds[i as int] == self.commands@[i as int]@);
            }
            if str_starts_with(command.as_str(), line) {
                let mut replacement = command.clone();
                replacement.append(" ");
                let cand = CustomCandidate { display: command.clone(), replacement };
                r.push(cand);
                proof {
                    reveal_strlit(" ");
                    assert(cand.replacement@ =~= cmds[i as int] + seq![' ']);
                    assert(candidate_views(r@) =~= pre + seq![
                        (cmds[i as int], cmds[i as int] + seq![' ']),
                    ]);
                    assert(candidates_from(cmds, line@, i as int) == seq![
                        (cmds[i as int], cmds[i as int] + seq![' ']),
                    ] + candidates_from(cmds, line@, i + 1));
                    assert(candidates_from(cmds, line@, 0) =~= candidate_views(r@)
                        + candidates_from(cmds, line@, i + 1));
                }
            } else {
                proof {
                    assert(candidates_from(cmds, line@, i as int) == candidates_from(
                        cmds,
                        line@,
                        i + 1,
                    ));
                }
            }
            i = i + 1;
        }
        proof {
            assert(candidates_from(cmds, line@, i as int) =~= Seq::<(Seq<char>, Seq<char>)>::empty());
            assert(candidate_views(r@) =~= candidates_from(cmds, line@, 0));
        }
        r
    }
}

} // verus!
