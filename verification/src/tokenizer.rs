use vstd::prelude::*;

use crate::strutil::chars_to_string;

verus! {

/// The five states of the quote/escape state machine that splits an input
/// line into tokens.
///
/// `EscapedInDoubleQuote` is entered whenever a backslash is read inside
/// double quotes; the character that follows decides whether the backslash
/// was an escape (before `"` or `\`) or an ordinary character (any other
/// case, where the backslash is kept).
#[derive(PartialEq, Eq, Structural, Clone, Copy, Debug)]
pub enum TokenizerState {
    Normal,
    InSingleQuote,
    InDoubleQuote,
    Escaped,
    EscapedInDoubleQuote,
}

/// Abstract state of a tokenizer in the middle of a line: the machine state,
/// the characters accumulated for the token being built, and the tokens
/// already emitted.
pub struct TokenizerModel {
    pub state: TokenizerState,
    pub cur: Seq<char>,
    pub toks: Seq<Seq<char>>,
}

/// The characters with the Unicode `White_Space` property, which is what
/// separates tokens outside quotes.
pub open spec fn is_space_char(c: char) -> bool {
    let u = c as u32;
    u == 0x09 || u == 0x0A || u == 0x0B || u == 0x0C || u == 0x0D || u == 0x20 || u == 0x85
        || u == 0xA0 || u == 0x1680 || (0x2000 <= u && u <= 0x200A) || u == 0x2028 || u == 0x2029
        || u == 0x202F || u == 0x205F || u == 0x3000
}

/// Runtime check for [`is_space_char`].
pub fn is_space(c: char) -> (r: bool)
    ensures
        r == is_space_char(c),
{
    let u = c as u32;
    u == 0x09 || u == 0x0A || u == 0x0B || u == 0x0C || u == 0x0D || u == 0x20 || u == 0x85
        || u == 0xA0 || u == 0x1680 || (0x2000 <= u && u <= 0x200A) || u == 0x2028 || u == 0x2029
        || u == 0x202F || u == 0x205F || u == 0x3000
}

/// A pending token is emitted only when it is non-empty, so adjacent quoted
/// pieces concatenate and empty quotes contribute nothing.
pub open spec fn flushed(toks: Seq<Seq<char>>, cur: Seq<char>) -> Seq<Seq<char>> {
    if cur.len() > 0 {
        toks.push(cur)
    } else {
        toks
    }
}

/// The state of a tokenizer before any character has been read.
pub open spec fn initial_model() -> TokenizerModel {
    TokenizerModel { state: TokenizerState::Normal, cur: Seq::empty(), toks: Seq::empty() }
}

/// One transition of the tokenizer on character `c`.
pub open spec fn tok_step(m: TokenizerModel, c: char) -> TokenizerModel {
    match m.state {
        TokenizerState::Normal => {
            if c == '\\' {
                TokenizerModel { state: TokenizerState::Escaped, cur: m.cur, toks: m.toks }
            } else if c == '\'' {
                TokenizerModel { state: TokenizerState::InSingleQuote, cur: m.cur, toks: m.toks }
            } else if c == '"' {
                TokenizerModel { state: TokenizerState::InDoubleQuote, cur: m.cur, toks: m.toks }
            } else if c == '|' {
                TokenizerModel {
                    state: TokenizerState::Normal,
                    cur: Seq::empty(),
                    toks: flushed(m.toks, m.cur).push(seq!['|']),
                }
            } else if is_space_char(c) {
                TokenizerModel {
                    state: TokenizerState::Normal,
                    cur: Seq::empty(),
                    toks: flushed(m.toks, m.cur),
                }
            } else {
                TokenizerModel { state: TokenizerState::Normal, cur: m.cur.push(c), toks: m.toks }
            }
        },
        TokenizerState::InSingleQuote => {
            if c == '\'' {
                TokenizerModel { state: TokenizerState::Normal, cur: m.cur, toks: m.toks }
            } else {
                TokenizerModel {
                    state: TokenizerState::InSingleQuote,
                    cur: m.cur.push(c),
                    toks: m.toks,
                }
            }
        },
        TokenizerState::InDoubleQuote => {
            if c == '\\' {
                TokenizerModel {
                    state: TokenizerState::EscapedInDoubleQuote,
                    cur: m.cur,
                    toks: m.toks,
                }
            } else if c == '"' {
                TokenizerModel { state: TokenizerState::Normal, cur: m.cur, toks: m.toks }
            } else {
                TokenizerModel {
                    state: TokenizerState::InDoubleQuote,
                    cur: m.cur.push(c),
                    toks: m.toks,
                }
            }
        },
        TokenizerState::Escaped => {
            TokenizerModel { state: TokenizerState::Normal, cur: m.cur.push(c), toks: m.toks }
        },
        TokenizerState::EscapedInDoubleQuote => {
            if c == '"' || c == '\\' {
                TokenizerModel {
                    state: TokenizerState::InDoubleQuote,
                    cur: m.cur.push(c),
                    toks: m.toks,
                }
            } else {
                TokenizerModel {
                    state: TokenizerState::InDoubleQuote,
                    cur: m.cur.push('\\').push(c),
                    toks: m.toks,
                }
            }
        },
    }
}

/// Folds [`tok_step`] over the characters of `s`, in order.
pub open spec fn tok_steps(m: TokenizerModel, s: Seq<char>) -> TokenizerModel
    decreases s.len(),
{
    if s.len() == 0 {
        m
    } else {
        tok_steps(tok_step(m, s[0]), s.subrange(1, s.len() as int))
    }
}

/// End of input: a pending backslash inside double quotes is kept, and the
/// pending token is flushed from whatever state the machine was in.
pub open spec fn tok_finish(m: TokenizerModel) -> Seq<Seq<char>> {
    match m.state {
        TokenizerState::EscapedInDoubleQuote => flushed(m.toks, m.cur.push('\\')),
        _ => flushed(m.toks, m.cur),
    }
}

/// The tokens of a whole input line.
pub open spec fn tokenize_spec(s: Seq<char>) -> Seq<Seq<char>> {
    tok_finish(tok_steps(initial_model(), s))
}

/// The views of a sequence of owned tokens.
pub open spec fn tokens_view(ts: Seq<String>) -> Seq<Seq<char>> {
    ts.map_values(|t: String| t@)
}

/// The characters of `s`, as an indexable vector.
pub fn str_to_chars(s: &str) -> (v: Vec<char>)
    ensures
        v@ == s@,
{
    let n = s.unicode_len();
    let mut v: Vec<char> = Vec::new();
    let mut i: usize = 0;
    while i < n
        invariant
            i <= n,
            n == s@.len(),
            v@ =~= s@.subrange(0, i as int),
        decreases n - i,
    {
        v.push(s.get_char(i));
        i = i + 1;
        proof {
            assert(v@ =~= s@.subrange(0, i as int));
        }
    }
    proof {
        assert(v@ =~= s@);
    }
    v
}

/// Splits one input line into tokens, resolving quoting and escaping.
pub struct Tokenizer {
    chars: Vec<char>,
    pos: usize,
    state: TokenizerState,
    tokens: Vec<String>,
    current_token: Vec<char>,
}

impl Tokenizer {
    /// The abstract tokenizer state this concrete state stands for.
    pub closed spec fn model(&self) -> TokenizerModel {
        TokenizerModel {
            state: self.state,
            cur: self.current_token@,
            toks: tokens_view(self.tokens@),
        }
    }

    /// The characters of the input line that remain to be read.
    pub closed spec fn remaining(&self) -> Seq<char> {
        self.chars@.subrange(self.pos as int, self.chars@.len() as int)
    }

    pub closed spec fn wf(&self) -> bool {
        self.pos <= self.chars@.len()
    }

    pub fn new(input: &str) -> (t: Tokenizer)
        ensures
            t.wf(),
            t.model() == initial_model(),
            t.remaining() == input@,
    {
        let t = Tokenizer {
            chars: str_to_chars(input),
            pos: 0,
            state: TokenizerState::Normal,
            tokens: Vec::new(),
            current_token: Vec::new(),
        };
        proof {
            assert(t.model().toks =~= initial_model().toks);
            assert(t.model().cur =~= initial_model().cur);
            assert(t.model() == initial_model());
            assert(t.remaining() =~= input@);
        }
        t
    }

    /// Emits the pending token if it is non-empty.
    fn finish_token(&mut self)
        ensures
            final(self).state == old(self).state,
            final(self).chars == old(self).chars,
            final(self).pos == old(self).pos,
            final(self).model().toks == flushed(old(self).model().toks, old(self).model().cur),
            final(self).model().cur == Seq::<char>::empty(),
    {
        if self.current_token.len() > 0 {
            let s = chars_to_string(&self.current_token);
            self.tokens.push(s);
            self.current_token.clear();
            proof {
                assert(self.model().toks =~= flushed(old(self).model().toks, old(self).model().cur));
                assert(self.model().cur =~= Seq::<char>::empty());
            }
        } else {
            proof {
                assert(self.model().cur =~= Seq::<char>::empty());
            }
        }
    }

    /// Feeds one character to the state machine.
    fn process_char(&mut self, c: char)
        ensures
            final(self).chars == old(self).chars,
            final(self).pos == old(self).pos,
            final(self).model() == tok_step(old(self).model(), c),
    {
        match self.state {
            TokenizerState::Normal => self.handle_normal(c),
            TokenizerState::InSingleQuote => self.handle_single_quote(c),
            TokenizerState::InDoubleQuote => self.handle_double_quote(c),
            TokenizerState::Escaped => self.handle_escaped(c),
            TokenizerState::EscapedInDoubleQuote => self.handle_escaped_in_double_quote(c),
        }
    }

    fn handle_normal(&mut self, c: char)
        requires
            old(self).state == TokenizerState::Normal,
        ensures
            final(self).chars == old(self).chars,
            final(self).pos == old(self).pos,
            final(self).model() == tok_step(old(self).model(), c),
    {
        if c == '\\' {
            self.state = TokenizerState::Escaped;
        } else if c == '\'' {
            self.state = TokenizerState::InSingleQuote;
        } else if c == '"' {
            self.state = TokenizerState::InDoubleQuote;
        } else if c == '|' {
            self.finish_token();
            let pipe = String::from_str("|");
            proof {
                reveal_strlit("|");
                assert(pipe@ =~= seq!['|']);
            }
            self.tokens.push(pipe);
            proof {
                assert(self.model().toks =~= tok_step(old(self).model(), c).toks);
            }
        } else if is_space(c) {
            self.finish_token();
        } else {
            self.current_token.push(c);
            proof {
                assert(self.model().cur =~= tok_step(old(self).model(), c).cur);
            }
        }
    }

    fn handle_single_quote(&mut self, c: char)
        requires
            old(self).state == TokenizerState::InSingleQuote,
        ensures
            final(self).chars == old(self).chars,
            final(self).pos == old(self).pos,
            final(self).model() == tok_step(old(self).model(), c),
    {
        if c == '\'' {
            self.state = TokenizerState::Normal;
        } else {
            self.current_token.push(c);
            proof {
                assert(self.model().cur =~= tok_step(old(self).model(), c).cur);
            }
        }
    }

    fn handle_double_quote(&mut self, c: char)
        requires
            old(self).state == TokenizerState::InDoubleQuote,
        ensures
            final(self).chars == old(self).chars,
            final(self).pos == old(self).pos,
            final(self).model() == tok_step(old(self).model(), c),
    {
        if c == '\\' {
            self.state = TokenizerState::EscapedInDoubleQuote;
        } else if c == '"' {
            self.state = TokenizerState::Normal;
        } else {
            self.current_token.push(c);
            proof {
                assert(self.model().cur =~= tok_step(old(self).model(), c).cur);
            }
        }
    }

    fn handle_escaped(&mut self, c: char)
        requires
            old(self).state == TokenizerState::Escaped,
        ensures
            final(self).chars == old(self).chars,
            final(self).pos == old(self).pos,
            final(self).model() == tok_step(old(self).model(), c),
    {
        self.current_token.push(c);
        self.state = TokenizerState::Normal;
        proof {
            assert(self.model().cur =~= tok_step(old(self).model(), c).cur);
        }
    }

    fn handle_escaped_in_double_quote(&mut self, c: char)
        requires
            old(self).state == TokenizerState::EscapedInDoubleQuote,
        ensures
            final(self).chars == old(self).chars,
            final(self).pos == old(self).pos,
            final(self).model() == tok_step(old(self).model(), c),
    {
        if c == '"' || c == '\\' {
            self.current_token.push(c);
        } else {
            self.current_token.push('\\');
            self.current_token.push(c);
        }
        self.state = TokenizerState::InDoubleQuote;
        proof {
            assert(self.model().cur =~= tok_step(old(self).model(), c).cur);
        }
    }

    /// Runs the machine over the whole input and returns the tokens.
    pub fn tokenize(self) -> (tokens: Vec<String>)
        requires
            self.wf(),
            self.model() == initial_model(),
        ensures
            tokens_view(tokens@) == tokenize_spec(self.remaining()),
    {
        let mut this = self;
        let ghost input = this.remaining();
        while this.pos < this.chars.len()
            invariant
                this.wf(),
                tok_steps(this.model(), this.remaining()) == tok_steps(initial_model(), input),
            decreases this.chars@.len() - this.pos,
        {
            let ghost pre_model = this.model();
            let ghost pre_rem = this.remaining();
            let c = this.chars[this.pos];
            this.pos = this.pos + 1;
            proof {
                assert(pre_rem[0] == c);
                assert(pre_rem.subrange(1, pre_rem.len() as int) =~= this.remaining());
            }
            this.process_char(c);
            proof {
                assert(tok_steps(pre_model, pre_rem) == tok_steps(
                    tok_step(pre_model, c),
                    this.remaining(),
                ));
            }
        }
        proof {
            assert(this.remaining() =~= Seq::<char>::empty());
            assert(tok_steps(this.model(), this.remaining()) == this.model());
        }
        if matches!(this.state, TokenizerState::EscapedInDoubleQuote) {
            this.current_token.push('\\');
        }
        this.finish_token();
        proof {
            assert(tokens_view(this.tokens@) == tokenize_spec(input));
        }
        this.tokens
    }
}

/// Splits a raw input line into tokens, resolving quotes and escapes as the
/// state machine prescribes.
pub fn tokenize_input(input: &str) -> (tokens: Vec<String>)
    ensures
        tokens_view(tokens@) == tokenize_spec(input@),
{
    let t = Tokenizer::new(input);
    t.tokenize()
}

/// A machine standing outside any token — in `Normal` state with nothing
/// accumulated — is left exactly where it was by whitespace.
proof fn lemma_spaces_keep_idle(m: TokenizerModel, s: Seq<char>)
    requires
        m.state == TokenizerState::Normal,
        m.cur == Seq::<char>::empty(),
        forall|i: int| 0 <= i < s.len() ==> is_space_char(#[trigger] s[i]),
    ensures
        tok_steps(m, s) == m,
    decreases s.len(),
{
    if s.len() > 0 {
        let m2 = tok_step(m, s[0]);
        assert(is_space_char(s[0]));
        assert(m2.toks =~= m.toks);
        assert(m2.cur =~= m.cur);
        assert(m2 == m);
        let rest = s.subrange(1, s.len() as int);
        assert(forall|i: int| 0 <= i < rest.len() ==> is_space_char(#[trigger] rest[i]));
        lemma_spaces_keep_idle(m, rest);
    }
}

/// An input of nothing but whitespace produces no tokens at all.
pub proof fn lemma_whitespace_only_tokens(s: Seq<char>)
    requires
        forall|i: int| 0 <= i < s.len() ==> is_space_char(#[trigger] s[i]),
    ensures
        tokenize_spec(s) == Seq::<Seq<char>>::empty(),
{
    lemma_spaces_keep_idle(initial_model(), s);
    assert(tokenize_spec(s) =~= Seq::<Seq<char>>::empty());
}

/// Outside quotes a backslash escapes the following character: the machine
/// consumes the backslash without emitting anything, and the next
/// character — whatever it is, a pipe included — is appended to the current
/// token as ordinary text; no separator token is ever emitted for it.
pub proof fn lemma_escape_outside_quotes(m: TokenizerModel, c: char)
    requires
        m.state == TokenizerState::Normal,
    ensures
        tok_step(m, '\\') == (TokenizerModel {
            state: TokenizerState::Escaped,
            cur: m.cur,
            toks: m.toks,
        }),
        tok_step(tok_step(m, '\\'), c) == (TokenizerModel {
            state: TokenizerState::Normal,
            cur: m.cur.push(c),
            toks: m.toks,
        }),
{
}

/// Inside single quotes no character is special but the closing quote;
/// inside double quotes only a backslash followed by `"` or `\` acts as an
/// escape, and a backslash followed by anything else is kept literally.
pub proof fn lemma_quote_literality(m: TokenizerModel, c: char)
    ensures
        m.state == TokenizerState::InSingleQuote && c != '\'' ==> tok_step(m, c)
            == (TokenizerModel {
            state: TokenizerState::InSingleQuote,
            cur: m.cur.push(c),
            toks: m.toks,
        }),
        m.state == TokenizerState::InDoubleQuote && c != '"' && c != '\\' ==> tok_step(m, c)
            == (TokenizerModel {
            state: TokenizerState::InDoubleQuote,
            cur: m.cur.push(c),
            toks: m.toks,
        }),
        m.state == TokenizerState::EscapedInDoubleQuote && (c == '"' || c == '\\') ==> tok_step(
            m,
            c,
        ) == (TokenizerModel {
            state: TokenizerState::InDoubleQuote,
            cur: m.cur.push(c),
            toks: m.toks,
        }),
        m.state == TokenizerState::EscapedInDoubleQuote && c != '"' && c != '\\' ==> tok_step(
            m,
            c,
        ) == (TokenizerModel {
            state: TokenizerState::InDoubleQuote,
            cur: m.cur.push('\\').push(c),
            toks: m.toks,
        }),
{
}

} // verus!
