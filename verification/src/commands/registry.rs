use vstd::prelude::*;

use crate::commands::command::{Builtin, Command};
use crate::parser::opt_view;
use crate::strutil::{
    has_prefix, lemma_lex_total, lemma_lex_trans, lex_lt, str_eq, str_lt, str_starts_with,
};
use crate::tokenizer::tokens_view;

verus! {

/// Abstract value of the session registry: the registered builtins in
/// registration order, the catalogued executables as name/path pairs, the
/// command history, and the session context the builtins read.
pub struct RegistryModel {
    pub builtins: Seq<Builtin>,
    pub executables: Seq<(Seq<char>, Seq<char>)>,
    pub history: Seq<Seq<char>>,
    pub cwd: Seq<char>,
    pub home: Seq<char>,
    pub histfile: Option<Seq<char>>,
}

/// The views of a sequence of owned name/path pairs.
pub open spec fn pairs_view(ps: Seq<(String, String)>) -> Seq<(Seq<char>, Seq<char>)> {
    ps.map_values(|p: (String, String)| (p.0@, p.1@))
}

/// The session registry: which commands are builtins, which executables the
/// search path held when it was scanned, the command history, and the
/// session context (working directory, home directory, history file path).
pub struct CommandRegistry {
    builtins: Vec<Builtin>,
    executables: Vec<(String, String)>,
    history: Vec<String>,
    cwd: String,
    home: String,
    histfile: Option<String>,
}

impl View for CommandRegistry {
    type V = RegistryModel;

    closed spec fn view(&self) -> RegistryModel {
        RegistryModel {
            builtins: self.builtins@,
            executables: pairs_view(self.executables@),
            history: tokens_view(self.history@),
            cwd: self.cwd@,
            home: self.home@,
            histfile: opt_view(self.histfile),
        }
    }
}

/// The builtin registered under `name`, the most recently registered one
/// winning, as a map insert would.
pub open spec fn find_builtin(bs: Seq<Builtin>, name: Seq<char>) -> Option<Builtin>
    decreases bs.len(),
{
    if bs.len() == 0 {
        None
    } else if bs.last().spec_name() == name {
        Some(bs.last())
    } else {
        find_builtin(bs.drop_last(), name)
    }
}

/// The path catalogued for `name`, the first entry winning, as the scan
/// recorded it.
pub open spec fn find_executable_from(
    es: Seq<(Seq<char>, Seq<char>)>,
    i: int,
    name: Seq<char>,
) -> Option<Seq<char>>
    decreases es.len() - i,
{
    if i < 0 || i >= es.len() {
        None
    } else if es[i].0 == name {
        Some(es[i].1)
    } else {
        find_executable_from(es, i + 1, name)
    }
}

/// Every name the registry knows: each builtin's name and each catalogued
/// executable's name.
pub open spec fn spec_names(m: RegistryModel) -> Seq<Seq<char>> {
    m.builtins.map_values(|b: Builtin| b.spec_name()) + m.executables.map_values(
        |p: (Seq<char>, Seq<char>)| p.0,
    )
}

/// Sorted with no duplicates.
pub open spec fn strictly_sorted(s: Seq<Seq<char>>) -> bool {
    forall|p: int, q: int| 0 <= p < q < s.len() ==> lex_lt(s[p], s[q])
}

/// Where the history write starts: appending mid-session resumes after the
/// most recent `history -a` entry other than the last one; every other mode
/// writes from the beginning.
pub open spec fn last_mark_before(h: Seq<Seq<char>>, j: int) -> int
    decreases j + 1,
{
    if j < 0 || j >= h.len() {
        -1
    } else if has_prefix(h[j], "history -a"@) {
        j
    } else {
        last_mark_before(h, j - 1)
    }
}

pub open spec fn start_index_spec(h: Seq<Seq<char>>, append: bool, is_exit: bool) -> int {
    if append && !is_exit {
        let m = last_mark_before(h, h.len() - 2);
        if m >= 0 {
            m + 1
        } else {
            0
        }
    } else {
        0
    }
}

/// The text a history write produces: each entry from `i` on, each followed
/// by a newline.
pub open spec fn history_content_from(h: Seq<Seq<char>>, i: int) -> Seq<char>
    decreases h.len() - i,
{
    if i < 0 || i >= h.len() {
        Seq::empty()
    } else {
        h[i] + seq!['\n'] + history_content_from(h, i + 1)
    }
}

/// Inserts a name into a strictly sorted vector, keeping it strictly sorted:
/// a name already present is not added again.
fn insert_name_sorted(out: &mut Vec<String>, name: String)
    requires
        strictly_sorted(tokens_view(old(out)@)),
    ensures
        strictly_sorted(tokens_view(final(out)@)),
        forall|x: Seq<char>|
            #[trigger] tokens_view(final(out)@).contains(x) <==> (tokens_view(
                old(out)@,
            ).contains(x) || x == name@),
{
    let ghost ov = tokens_view(old(out)@);
    let mut idx: usize = 0;
    while idx < out.len() && str_lt(out[idx].as_str(), name.as_str())
        invariant
            idx <= out@.len(),
            out@ == old(out)@,
            ov == tokens_view(out@),
            forall|j: int| 0 <= j < idx ==> lex_lt(ov[j], name@),
        decreases out@.len() - idx,
    {
        idx = idx + 1;
    }
    if idx < out.len() && str_eq(out[idx].as_str(), name.as_str()) {
        proof {
            assert(ov[idx as int] == name@);
            assert(ov.contains(name@));
            assert(forall|x: Seq<char>|
                #[trigger] tokens_view(out@).contains(x) <==> (ov.contains(x) || x == name@));
        }
        return ;
    }
    proof {
        if idx < out@.len() {
            lemma_lex_total(name@, ov[idx as int]);
            assert(lex_lt(name@, ov[idx as int]));
        }
    }
    out.insert(idx, name);
    proof {
        let nv = tokens_view(out@);
        assert(nv.len() == ov.len() + 1);
        assert(nv[idx as int] == name@);
        assert(forall|j: int| 0 <= j < idx ==> nv[j] == ov[j]);
        assert(forall|j: int| idx < j < nv.len() ==> nv[j] == ov[j - 1]);
        assert forall|p: int, q: int| 0 <= p < q < nv.len() implies lex_lt(nv[p], nv[q]) by {
            if q < idx {
            } else if q == idx {
                assert(lex_lt(ov[p], name@));
            } else if p == idx {
                if q == idx + 1 {
                    if idx < ov.len() {
                        assert(lex_lt(name@, ov[q - 1]));
                    }
                } else {
                    assert(lex_lt(name@, ov[idx as int]));
                    assert(lex_lt(ov[idx as int], ov[q - 1]));
                    lemma_lex_trans(name@, ov[idx as int], ov[q - 1]);
                }
            } else if p < idx {
                assert(lex_lt(ov[p], ov[q - 1]));
            } else {
                assert(lex_lt(ov[p - 1], ov[q - 1]));
            }
        }
        assert forall|x: Seq<char>| #[trigger] nv.contains(x) implies (ov.contains(x) || x
            == name@) by {
            let k = choose|k: int| 0 <= k < nv.len() && (#[trigger] nv[k]) == x;
            if k < idx {
                assert(ov[k] == x);
            } else if k > idx {
                assert(ov[k - 1] == x);
            }
        }
        assert forall|x: Seq<char>| (ov.contains(x) || x == name@) implies #[trigger] nv.contains(
            x,
        ) by {
            if x == name@ {
                assert(nv[idx as int] == x);
            } else {
                let k = choose|k: int| 0 <= k < ov.len() && (#[trigger] ov[k]) == x;
                if k < idx {
                    assert(nv[k] == x);
                } else {
                    assert(nv[k + 1] == x);
                }
            }
        }
    }
}

impl CommandRegistry {
    /// A registry with nothing registered, no catalogued executables, an
    /// empty history and an empty session context.
    pub fn new() -> (r: CommandRegistry)
        ensures
            r@.builtins =~= Seq::<Builtin>::empty(),
            r@.executables =~= Seq::<(Seq<char>, Seq<char>)>::empty(),
            r@.history =~= Seq::<Seq<char>>::empty(),
            r@.cwd =~= Seq::<char>::empty(),
            r@.home =~= Seq::<char>::empty(),
            r@.histfile is None,
    {
        CommandRegistry {
            builtins: Vec::new(),
            executables: Vec::new(),
            history: Vec::new(),
            cwd: String::new(),
            home: String::new(),
            histfile: None,
        }
    }

    /// Registers a builtin; a later registration under the same name wins.
    pub fn register_builtin(&mut self, command: Builtin)
        ensures
            final(self)@.builtins == old(self)@.builtins.push(command),
            final(self)@.executables == old(self)@.executables,
            final(self)@.history == old(self)@.history,
            final(self)@.cwd == old(self)@.cwd,
            final(self)@.home == old(self)@.home,
            final(self)@.histfile == old(self)@.histfile,
    {
        self.builtins.push(command);
    }

    /// The builtin registered under `name`, if any.
    pub fn get_builtin(&self, name: &str) -> (r: Option<Builtin>)
        ensures
            r == find_builtin(self@.builtins, name@),
    {
        let ghost bs = self@.builtins;
        let mut i: usize = self.builtins.len();
        proof {
            assert(bs.take(i as int) =~= bs);
        }
        while i > 0
            invariant
                i <= self.builtins@.len(),
                bs == self@.builtins,
                find_builtin(bs, name@) == find_builtin(bs.take(i as int), name@),
            decreases i,
        {
            i = i - 1;
            let b = self.builtins[i];
            proof {
                assert(bs.take(i + 1).last() == bs[i as int]);
                assert(bs.take(i + 1).drop_last() =~= bs.take(i as int));
            }
            if str_eq(b.get_name(), name) {
                return Some(b);
            }
        }
        proof {
            assert(bs.take(0) =~= Seq::<Builtin>::empty());
        }
        None
    }

    /// Every known command name, sorted, each once.
    pub fn get_command_names(&self) -> (names: Vec<String>)
        ensures
            strictly_sorted(tokens_view(names@)),
            forall|x: Seq<char>|
                #[trigger] tokens_view(names@).contains(x) <==> spec_names(self@).contains(x),
    {
        let ghost all = spec_names(self@);
        let mut names: Vec<String> = Vec::new();
        let mut i: usize = 0;
        proof {
            assert(tokens_view(names@) =~= Seq::<Seq<char>>::empty());
        }
        while i < self.builtins.len()
            invariant
                i <= self.builtins@.len(),
                strictly_sorted(tokens_view(names@)),
                forall|x: Seq<char>|
                    #[trigger] tokens_view(names@).contains(x) <==> self@.builtins.map_values(
                        |b: Builtin| b.spec_name(),
                    ).take(i as int).contains(x),
            decreases self.builtins@.len() - i,
        {
            let nm = String::from_str(self.builtins[i].get_name());
            insert_name_sorted(&mut names, nm);
            proof {
                let bn = self@.builtins.map_values(|b: Builtin| b.spec_name());
                assert(bn.take(i + 1).drop_last() =~= bn.take(i as int));
                assert(bn.take(i + 1).last() == bn[i as int]);
                assert forall|x: Seq<char>| #[trigger] tokens_view(names@).contains(x) implies bn
                    .take(i + 1).contains(x) by {
                    if x == bn[i as int] {
                        assert(bn.take(i + 1)[i as int] == x);
                    } else {
                        let k = choose|k: int| 0 <= k < i && (#[trigger] bn.take(i as int)[k]) == x;
                        assert(bn.take(i + 1)[k] == x);
                    }
                }
                assert forall|x: Seq<char>| bn.take(i + 1).contains(x) implies #[trigger] tokens_view(
                    names@,
                ).contains(x) by {
                    let k = choose|k: int| 0 <= k < i + 1 && (#[trigger] bn.take(i + 1)[k]) == x;
                    if k < i {
                        assert(bn.take(i as int)[k] == x);
                    }
                }
            }
            i = i + 1;
        }
        let mut j: usize = 0;
        proof {
            let bn = self@.builtins.map_values(|b: Builtin| b.spec_name());
            assert(bn.take(self.builtins@.len() as int) =~= bn);
            let en = self@.executables.map_values(|p: (Seq<char>, Seq<char>)| p.0);
            assert(en.take(0) =~= Seq::<Seq<char>>::empty());
        }
        while j < self.executables.len()
            invariant
                j <= self.executables@.len(),
                strictly_sorted(tokens_view(names@)),
                forall|x: Seq<char>|
                    #[trigger] tokens_view(names@).contains(x) <==> (self@.builtins.map_values(
                        |b: Builtin| b.spec_name(),
                    ).contains(x) || self@.executables.map_values(
                        |p: (Seq<char>, Seq<char>)| p.0,
                    ).take(j as int).contains(x)),
            decreases self.executables@.len() - j,
        {
            let nm = self.executables[j].0.clone();
            insert_name_sorted(&mut names, nm);
            proof {
                let en = self@.executables.map_values(|p: (Seq<char>, Seq<char>)| p.0);
                assert(en.take(j + 1).drop_last() =~= en.take(j as int));
                assert(en.take(j + 1).last() == en[j as int]);
                assert forall|x: Seq<char>| en.take(j + 1).contains(x) implies (en.take(
                    j as int,
                ).contains(x) || x == en[j as int]) by {
                    let k = choose|k: int| 0 <= k < j + 1 && (#[trigger] en.take(j + 1)[k]) == x;
                    if k < j {
                        assert(en.take(j as int)[k] == x);
                    }
                }
                assert forall|x: Seq<char>| (en.take(j as int).contains(x) || x
                    == en[j as int]) implies en.take(j + 1).contains(x) by {
                    if x == en[j as int] {
                        assert(en.take(j + 1)[j as int] == x);
                    } else {
                        let k = choose|k: int| 0 <= k < j && (#[trigger] en.take(j as int)[k]) == x;
                        assert(en.take(j + 1)[k] == x);
                    }
                }
            }
            j = j + 1;
        }
        proof {
            let bn = self@.builtins.map_values(|b: Builtin| b.spec_name());
            let en = self@.executables.map_values(|p: (Seq<char>, Seq<char>)| p.0);
            assert(en.take(self.executables@.len() as int) =~= en);
            assert forall|x: Seq<char>| #[trigger] tokens_view(names@).contains(x) implies all
                .contains(x) by {
                if bn.contains(x) {
                    let k = choose|k: int| 0 <= k < bn.len() && (#[trigger] bn[k]) == x;
                    assert(all[k] == x);
                } else {
                    let k = choose|k: int| 0 <= k < en.len() && (#[trigger] en[k]) == x;
                    assert(all[bn.len() + k] == x);
                }
            }
            assert forall|x: Seq<char>| all.contains(x) implies #[trigger] tokens_view(
                names@,
            ).contains(x) by {
                let k = choose|k: int| 0 <= k < all.len() && (#[trigger] all[k]) == x;
                if k < bn.len() {
                    assert(bn[k] == x);
                } else {
                    assert(en[k - bn.len()] == x);
                }
            }
        }
        names
    }

    /// Remembers one more line of input.
    pub fn add_history_entry(&mut self, cmd: &str)
        ensures
            final(self)@.history == old(self)@.history.push(cmd@),
            final(self)@.builtins == old(self)@.builtins,
            final(self)@.executables == old(self)@.executables,
            final(self)@.cwd == old(self)@.cwd,
            final(self)@.home == old(self)@.home,
            final(self)@.histfile == old(self)@.histfile,
    {
        self.history.push(cmd.to_owned());
        proof {
            assert(tokens_view(self.history@) =~= tokens_view(old(self).history@).push(cmd@));
        }
    }

    /// The history entries, oldest first.
    pub fn get_history(&self) -> (r: Vec<String>)
        ensures
            tokens_view(r@) == self@.history,
    {
        let mut r: Vec<String> = Vec::new();
        let mut i: usize = 0;
        proof {
            assert(tokens_view(r@) =~= tokens_view(self.history@).take(0));
        }
        while i < self.history.len()
            invariant
                i <= self.history@.len(),
                tokens_view(r@) == tokens_view(self.history@).take(i as int),
            decreases self.history@.len() - i,
        {
            let ghost pre = tokens_view(r@);
            let entry = self.history[i].clone();
            proof {
                assert(entry@ == tokens_view(self.history@)[i as int]);
            }
            r.push(entry);
            i = i + 1;
            proof {
                assert(tokens_view(r@) =~= pre.push(entry@));
                assert(tokens_view(r@) =~= tokens_view(self.history@).take(i as int));
            }
        }
        proof {
            assert(tokens_view(r@) =~= tokens_view(self.history@));
        }
        r
    }

    /// Appends lines read from a history file to the history.
    pub fn append_history_entries(&mut self, entries: Vec<String>)
        ensures
            final(self)@.history == old(self)@.history + tokens_view(entries@),
            final(self)@.builtins == old(self)@.builtins,
            final(self)@.executables == old(self)@.executables,
            final(self)@.cwd == old(self)@.cwd,
            final(self)@.home == old(self)@.home,
            final(self)@.histfile == old(self)@.histfile,
    {
        let mut es = entries;
        self.history.append(&mut es);
        proof {
            assert(tokens_view(self.history@) =~= tokens_view(old(self).history@) + tokens_view(
                entries@,
            ));
        }
    }

    /// Where a history write starts, given the mode it was asked in.
    pub fn calculate_start_index(entries: &Vec<String>, append: bool, is_exit: bool) -> (r: usize)
        ensures
            r == start_index_spec(tokens_view(entries@), append, is_exit),
    {
        let ghost h = tokens_view(entries@);
        if !(append && !is_exit) {
            return 0;
        }
        let n = entries.len();
        if n < 2 {
            proof {
                assert(last_mark_before(h, h.len() - 2) == -1);
            }
            return 0;
        }
        let mut j: usize = n - 1;
        while j > 0
            invariant
                append && !is_exit,
                j <= n - 1,
                n == entries@.len(),
                h == tokens_view(entries@),
                h.len() == n,
                last_mark_before(h, n - 2) == last_mark_before(h, j - 1),
            decreases j,
        {
            j = j - 1;
            proof {
                assert(h[j as int] == entries@[j as int]@);
            }
            if str_starts_with(entries[j].as_str(), "history -a") {
                proof {
                    assert(last_mark_before(h, j as int) == j);
                }
                return j + 1;
            }
            proof {
                assert(last_mark_before(h, j as int) == last_mark_before(h, j - 1));
            }
        }
        proof {
            assert(last_mark_before(h, -1) == -1);
        }
        0
    }

    /// The text a history write from `start` on produces.
    pub fn history_file_content(&self, start: usize) -> (r: String)
        ensures
            r@ == history_content_from(self@.history, start as int),
    {
        let ghost h = self@.history;
        let mut out = String::new();
        let mut i: usize = start;
        while i < self.history.len()
            invariant
                start <= i,
                h == self@.history,
                h.len() == self.history@.len(),
                history_content_from(h, start as int) == out@ + history_content_from(h, i as int),
            decreases self.history@.len() - i,
        {
            out.append(self.history[i].as_str());
            out.append("\n");
            proof {
                reveal_strlit("\n");
                assert("\n"@ =~= seq!['\n']);
                assert(history_content_from(h, start as int) =~= out@ + history_content_from(
                    h,
                    i + 1,
                ));
            }
            i = i + 1;
        }
        proof {
            assert(history_content_from(h, i as int) =~= Seq::<char>::empty());
            assert(out@ =~= history_content_from(h, start as int));
        }
        out
    }

    /// The catalogued absolute path of an executable, if the scan found one.
    pub fn lookup_executable(&self, name: &str) -> (r: Option<String>)
        ensures
            opt_view(r) == find_executable_from(self@.executables, 0, name@),
    {
        let ghost es = self@.executables;
        let mut i: usize = 0;
        while i < self.executables.len()
            invariant
                i <= self.executables@.len(),
                es == self@.executables,
                es.len() == self.executables@.len(),
                find_executable_from(es, 0, name@) == find_executable_from(es, i as int, name@),
            decreases self.executables@.len() - i,
        {
            if str_eq(self.executables[i].0.as_str(), name) {
                return Some(self.executables[i].1.clone());
            }
            i = i + 1;
        }
        None
    }

    /// Catalogues one executable found on the search path; the first entry
    /// under a name wins.
    pub fn add_executable(&mut self, name: String, path: String)
        ensures
            final(self)@.executables == old(self)@.executables.push((name@, path@)),
            final(self)@.builtins == old(self)@.builtins,
            final(self)@.history == old(self)@.history,
            final(self)@.cwd == old(self)@.cwd,
            final(self)@.home == old(self)@.home,
            final(self)@.histfile == old(self)@.histfile,
    {
        self.executables.push((name, path));
        proof {
            assert(pairs_view(self.executables@) =~= pairs_view(old(self).executables@).push(
                (name@, path@),
            ));
        }
    }

    /// Records the working directory the session currently has.
    pub fn set_cwd(&mut self, cwd: String)
        ensures
            final(self)@ == (RegistryModel { cwd: cwd@, ..old(self)@ }),
    {
        self.cwd = cwd;
    }

    /// Records the home directory the session was started with.
    pub fn set_home(&mut self, home: String)
        ensures
            final(self)@ == (RegistryModel { home: home@, ..old(self)@ }),
    {
        self.home = home;
    }

    /// Records the history file path the session was configured with.
    pub fn set_histfile(&mut self, histfile: Option<String>)
        ensures
            final(self)@ == (RegistryModel { histfile: opt_view(histfile), ..old(self)@ }),
    {
        self.histfile = histfile;
    }

    /// The working directory the session currently has.
    pub fn get_cwd(&self) -> (r: &String)
        ensures
            r@ == self@.cwd,
    {
        &self.cwd
    }

    /// The home directory the session was started with.
    pub fn get_home(&self) -> (r: &String)
        ensures
            r@ == self@.home,
    {
        &self.home
    }

    /// The history file path the session was configured with, if any.
    pub fn get_histfile_path(&self) -> (r: Option<String>)
        ensures
            opt_view(r) == self@.histfile,
    {
        match &self.histfile {
            Some(p) => Some(p.clone()),
            None => None,
        }
    }
}

impl Default for CommandRegistry {
    /// A registry with every builtin registered, ready for a session; the
    /// executable catalogue is filled by whoever scans the search path.
    fn default() -> (r: CommandRegistry)
        ensures
            r@.builtins == seq![
                Builtin::Type,
                Builtin::Echo,
                Builtin::Exit,
                Builtin::Pwd,
                Builtin::Cd,
                Builtin::History,
            ],
            r@.executables =~= Seq::<(Seq<char>, Seq<char>)>::empty(),
            r@.history =~= Seq::<Seq<char>>::empty(),
            r@.cwd =~= Seq::<char>::empty(),
            r@.home =~= Seq::<char>::empty(),
            r@.histfile is None,
    {
        let mut registry = CommandRegistry::new();
        registry.register_builtin(Builtin::Type);
        registry.register_builtin(Builtin::Echo);
        registry.register_builtin(Builtin::Exit);
        registry.register_builtin(Builtin::Pwd);
        registry.register_builtin(Builtin::Cd);
        registry.register_builtin(Builtin::History);
        proof {
            assert(registry@.builtins =~= seq![
                Builtin::Type,
                Builtin::Echo,
                Builtin::Exit,
                Builtin::Pwd,
                Builtin::Cd,
                Builtin::History,
            ]);
        }
        registry
    }
}

} // verus!
