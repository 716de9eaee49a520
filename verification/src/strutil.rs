use vstd::prelude::*;

use crate::tokenizer::tokens_view;

verus! {

/// Relies on `String`'s `FromIterator<char>` implementation: collecting
/// characters yields a string holding exactly those characters in order.
#[verifier::external_body]
pub(crate) fn chars_to_string(chars: &Vec<char>) -> (s: String)
    ensures
        s@ == chars@,
{
    chars.iter().collect()
}

/// Whether two string slices hold the same characters.
pub fn str_eq(a: &str, b: &str) -> (r: bool)
    ensures
        r == (a@ == b@),
{
    let na = a.unicode_len();
    let nb = b.unicode_len();
    if na != nb {
        return false;
    }
    let mut i: usize = 0;
    while i < na
        invariant
            i <= na,
            na == a@.len(),
            na == b@.len(),
            forall|j: int| 0 <= j < i ==> a@[j] == b@[j],
        decreases na - i,
    {
        if a.get_char(i) != b.get_char(i) {
            return false;
        }
        i = i + 1;
    }
    proof {
        assert(a@ =~= b@);
    }
    true
}

/// Strict lexicographic order on the characters from position `k` on, by
/// code point; a proper prefix comes first.
pub open spec fn lex_lt_from(a: Seq<char>, b: Seq<char>, k: int) -> bool
    decreases a.len() - k,
{
    if k < 0 || k >= b.len() {
        false
    } else if k >= a.len() {
        true
    } else if (a[k] as int) < (b[k] as int) {
        true
    } else if a[k] == b[k] {
        lex_lt_from(a, b, k + 1)
    } else {
        false
    }
}

/// Strict lexicographic order by code point, the order `str` sorts in.
pub open spec fn lex_lt(a: Seq<char>, b: Seq<char>) -> bool {
    lex_lt_from(a, b, 0)
}

pub open spec fn lex_le(a: Seq<char>, b: Seq<char>) -> bool {
    lex_lt(a, b) || a == b
}

/// Two sequences neither of which comes before the other agree from `k` on.
proof fn lemma_lex_connect(a: Seq<char>, b: Seq<char>, k: int)
    requires
        0 <= k,
        !lex_lt_from(a, b, k),
        !lex_lt_from(b, a, k),
    ensures
        (a.len() <= k && b.len() <= k) || (a.len() == b.len() && forall|j: int|
            k <= j < a.len() ==> a[j] == b[j]),
    decreases a.len() - k,
{
    if k >= a.len() && k >= b.len() {
    } else if k >= a.len() {
        assert(lex_lt_from(a, b, k));
    } else if k >= b.len() {
        assert(lex_lt_from(b, a, k));
    } else {
        if (a[k] as int) < (b[k] as int) {
            assert(lex_lt_from(a, b, k));
        } else if (b[k] as int) < (a[k] as int) {
            assert(lex_lt_from(b, a, k));
        } else {
            let ak: char = a[k];
            let bk: char = b[k];
            assert(ak as int == bk as int);
            assert(ak == bk);
            lemma_lex_connect(a, b, k + 1);
        }
    }
}

/// Lexicographic order is total.
pub proof fn lemma_lex_total(a: Seq<char>, b: Seq<char>)
    ensures
        lex_le(a, b) || lex_le(b, a),
{
    if !lex_lt(a, b) && !lex_lt(b, a) {
        lemma_lex_connect(a, b, 0);
        assert(a =~= b);
    }
}

/// Lexicographic order is transitive.
proof fn lemma_lex_trans_from(a: Seq<char>, b: Seq<char>, c: Seq<char>, k: int)
    requires
        0 <= k,
        lex_lt_from(a, b, k),
        lex_lt_from(b, c, k),
    ensures
        lex_lt_from(a, c, k),
    decreases a.len() - k,
{
    if k >= a.len() {
    } else {
        if a[k] == b[k] && b[k] == c[k] {
            lemma_lex_trans_from(a, b, c, k + 1);
        }
    }
}

pub proof fn lemma_lex_trans(a: Seq<char>, b: Seq<char>, c: Seq<char>)
    requires
        lex_lt(a, b),
        lex_lt(b, c),
    ensures
        lex_lt(a, c),
{
    lemma_lex_trans_from(a, b, c, 0);
}

/// Whether `a` sorts strictly before `b`, by code point.
pub fn str_lt(a: &str, b: &str) -> (r: bool)
    ensures
        r == lex_lt(a@, b@),
{
    let na = a.unicode_len();
    let nb = b.unicode_len();
    let mut i: usize = 0;
    while i < na && i < nb
        invariant
            i <= na,
            i <= nb,
            na == a@.len(),
            nb == b@.len(),
            lex_lt_from(a@, b@, 0) == lex_lt_from(a@, b@, i as int),
        decreases na - i,
    {
        let ca = a.get_char(i);
        let cb = b.get_char(i);
        if (ca as u32) < (cb as u32) {
            proof {
                assert((ca as int) < (cb as int));
            }
            return true;
        }
        if ca != cb {
            proof {
                assert((cb as int) < (ca as int));
            }
            return false;
        }
        i = i + 1;
    }
    i < nb
}

/// Whether `p` is a prefix of `s`.
pub open spec fn has_prefix(s: Seq<char>, p: Seq<char>) -> bool {
    p.len() <= s.len() && s.subrange(0, p.len() as int) == p
}

/// Whether the string starts with the given prefix.
pub fn str_starts_with(s: &str, p: &str) -> (r: bool)
    ensures
        r == has_prefix(s@, p@),
{
    let ns = s.unicode_len();
    let np = p.unicode_len();
    if np > ns {
        return false;
    }
    let mut i: usize = 0;
    while i < np
        invariant
            i <= np,
            np <= ns,
            ns == s@.len(),
            np == p@.len(),
            forall|j: int| 0 <= j < i ==> s@[j] == p@[j],
        decreases np - i,
    {
        if s.get_char(i) != p.get_char(i) {
            proof {
                if has_prefix(s@, p@) {
                    assert(s@.subrange(0, p@.len() as int)[i as int] == s@[i as int]);
                }
            }
            return false;
        }
        i = i + 1;
    }
    proof {
        assert(s@.subrange(0, p@.len() as int) =~= p@);
    }
    true
}

/// The ten decimal digit characters.
pub open spec fn is_digit(c: char) -> bool {
    0x30 <= (c as int) && (c as int) <= 0x39
}

pub open spec fn digit_val(c: char) -> nat {
    ((c as int) - 0x30) as nat
}

/// The number a sequence of decimal digits denotes, most significant first.
pub open spec fn digits_val(s: Seq<char>) -> nat
    decreases s.len(),
{
    if s.len() == 0 {
        0
    } else {
        digits_val(s.drop_last()) * 10 + digit_val(s.last())
    }
}

/// The digits of a number, after an optional leading plus sign.
pub open spec fn strip_plus(s: Seq<char>) -> Seq<char> {
    if s.len() > 0 && s[0] == '+' {
        s.subrange(1, s.len() as int)
    } else {
        s
    }
}

/// What `str::parse::<usize>` accepts: an optional plus sign, then one or
/// more decimal digits denoting a value that fits.
pub open spec fn valid_usize_literal(s: Seq<char>) -> bool {
    let d = strip_plus(s);
    d.len() > 0 && (forall|i: int| 0 <= i < d.len() ==> is_digit(d[i])) && digits_val(d)
        <= usize::MAX
}

/// A longer digit prefix never denotes a smaller number.
proof fn lemma_digits_val_mono(s: Seq<char>, i: int)
    requires
        0 <= i <= s.len(),
    ensures
        digits_val(s.take(i)) <= digits_val(s),
    decreases s.len() - i,
{
    if i < s.len() {
        assert(s.take(i + 1).drop_last() =~= s.take(i));
        assert(s.take(i + 1).last() == s[i]);
        assert(digits_val(s.take(i)) <= digits_val(s.take(i + 1)));
        lemma_digits_val_mono(s, i + 1);
    } else {
        assert(s.take(i) =~= s);
    }
}

/// Parses a decimal `usize`, accepting exactly what `str::parse::<usize>`
/// accepts on such input: an optional leading `+`, then digits, rejecting
/// anything else and values that overflow.
pub fn parse_usize(s: &str) -> (r: Option<usize>)
    ensures
        match r {
            Some(v) => valid_usize_literal(s@) && v == digits_val(strip_plus(s@)),
            None => !valid_usize_literal(s@),
        },
{
    let n = s.unicode_len();
    let mut start: usize = 0;
    if n > 0 && s.get_char(0) == '+' {
        start = 1;
    }
    let ghost d = strip_plus(s@);
    proof {
        assert(d =~= s@.subrange(start as int, n as int));
    }
    if start >= n {
        return None;
    }
    let mut v: usize = 0;
    let mut i: usize = start;
    proof {
        assert(d.take(0) =~= Seq::<char>::empty());
    }
    while i < n
        invariant
            start <= i <= n,
            n == s@.len(),
            d == strip_plus(s@),
            d == s@.subrange(start as int, n as int),
            d.len() == n - start,
            forall|j: int| 0 <= j < i - start ==> is_digit(d[j]),
            v == digits_val(d.take(i - start)),
        decreases n - i,
    {
        let c = s.get_char(i);
        let u = c as u32;
        proof {
            assert(u as int == c as int);
        }
        if u < 0x30 || u > 0x39 {
            proof {
                assert(d[i - start] == s@[i as int]);
                assert(!is_digit(d[i - start]));
                if valid_usize_literal(s@) {
                    assert(0 <= i - start < strip_plus(s@).len());
                    assert(is_digit(strip_plus(s@)[i - start]));
                    assert(false);
                }
            }
            return None;
        }
        let dig = (u - 0x30) as usize;
        proof {
            assert(d[i - start] == s@[i as int]);
            assert(digit_val(d[i - start]) == dig);
            assert(d.take(i - start + 1).drop_last() =~= d.take(i - start));
            assert(d.take(i - start + 1).last() == d[i - start]);
        }
        if v > (usize::MAX - dig) / 10 {
            proof {
                assert(v * 10 + dig > usize::MAX) by (nonlinear_arith)
                    requires
                        v > (usize::MAX - dig) / 10,
                        dig <= 9,
                ;
                assert(digits_val(d.take(i - start + 1)) > usize::MAX);
                lemma_digits_val_mono(d, i - start + 1);
                assert(digits_val(strip_plus(s@)) > usize::MAX);
                assert(!valid_usize_literal(s@));
            }
            return None;
        }
        proof {
            assert(v * 10 + dig <= usize::MAX) by (nonlinear_arith)
                requires
                    v <= (usize::MAX - dig) / 10,
                    dig <= 9,
            ;
        }
        v = v * 10 + dig;
        i = i + 1;
    }
    proof {
        assert(d.take(i - start) =~= d);
    }
    Some(v)
}

/// The decimal rendering of a number, without sign or padding.
pub open spec fn digit_char(d: nat) -> char {
    if d == 0 {
        '0'
    } else if d == 1 {
        '1'
    } else if d == 2 {
        '2'
    } else if d == 3 {
        '3'
    } else if d == 4 {
        '4'
    } else if d == 5 {
        '5'
    } else if d == 6 {
        '6'
    } else if d == 7 {
        '7'
    } else if d == 8 {
        '8'
    } else {
        '9'
    }
}

pub open spec fn dec_str(n: nat) -> Seq<char>
    decreases n,
{
    if n < 10 {
        seq![digit_char(n)]
    } else {
        dec_str(n / 10).push(digit_char(n % 10))
    }
}

fn digit_of(d: usize) -> (c: char)
    requires
        d < 10,
    ensures
        c == digit_char(d as nat),
{
    match d {
        0 => '0',
        1 => '1',
        2 => '2',
        3 => '3',
        4 => '4',
        5 => '5',
        6 => '6',
        7 => '7',
        8 => '8',
        _ => '9',
    }
}

fn push_dec(n: usize, out: &mut Vec<char>)
    ensures
        final(out)@ == old(out)@ + dec_str(n as nat),
    decreases n,
{
    if n < 10 {
        out.push(digit_of(n));
        proof {
            assert(out@ =~= old(out)@ + dec_str(n as nat));
        }
    } else {
        push_dec(n / 10, out);
        out.push(digit_of(n % 10));
        proof {
            assert(out@ =~= old(out)@ + dec_str(n as nat));
        }
    }
}

/// Renders a number in decimal.
pub fn dec_string(n: usize) -> (s: String)
    ensures
        s@ == dec_str(n as nat),
{
    let mut v: Vec<char> = Vec::new();
    push_dec(n, &mut v);
    proof {
        assert(v@ =~= dec_str(n as nat));
    }
    chars_to_string(&v)
}

/// A line's optional trailing carriage return, as a line ending of the
/// carriage-return-line-feed kind leaves one before the line feed.
pub open spec fn strip_tail_cr(l: Seq<char>) -> Seq<char> {
    if l.len() > 0 && l.last() == '\r' {
        l.drop_last()
    } else {
        l
    }
}

/// Splits text into lines from position `i` on: a line feed ends a line
/// (and takes one carriage return before it along), and text after the last
/// line feed is a final line only if it is non-empty.
pub open spec fn split_lines_from(
    s: Seq<char>,
    i: int,
    cur: Seq<char>,
    done: Seq<Seq<char>>,
) -> Seq<Seq<char>>
    decreases s.len() - i,
{
    if i < 0 || i >= s.len() {
        if cur.len() > 0 {
            done.push(cur)
        } else {
            done
        }
    } else if s[i] == '\n' {
        split_lines_from(s, i + 1, Seq::empty(), done.push(strip_tail_cr(cur)))
    } else {
        split_lines_from(s, i + 1, cur.push(s[i]), done)
    }
}

/// The lines of a text, as a history file is read.
pub open spec fn split_lines_spec(s: Seq<char>) -> Seq<Seq<char>> {
    split_lines_from(s, 0, Seq::empty(), Seq::empty())
}

/// Splits text into lines, line feeds ending lines and carriage returns
/// before them stripped; text after the last line feed counts only if
/// non-empty.
pub fn split_lines(content: &str) -> (r: Vec<String>)
    ensures
        tokens_view(r@) == split_lines_spec(content@),
{
    let ghost s = content@;
    let n = content.unicode_len();
    let mut done: Vec<String> = Vec::new();
    let mut cur: Vec<char> = Vec::new();
    let mut i: usize = 0;
    proof {
        assert(tokens_view(done@) =~= Seq::<Seq<char>>::empty());
        assert(cur@ =~= Seq::<char>::empty());
    }
    while i < n
        invariant
            i <= n,
            n == s.len(),
            s == content@,
            split_lines_from(s, i as int, cur@, tokens_view(done@)) == split_lines_spec(s),
        decreases n - i,
    {
        let c = content.get_char(i);
        if c == '\n' {
            let ghost pre_done = tokens_view(done@);
            let ghost pre_cur = cur@;
            if cur.len() > 0 && cur[cur.len() - 1] == '\r' {
                cur.pop();
                proof {
                    assert(cur@ =~= strip_tail_cr(pre_cur));
                }
            } else {
                proof {
                    assert(cur@ == strip_tail_cr(pre_cur));
                }
            }
            let line = chars_to_string(&cur);
            done.push(line);
            cur = Vec::new();
            proof {
                assert(tokens_view(done@) =~= pre_done.push(strip_tail_cr(pre_cur)));
                assert(cur@ =~= Seq::<char>::empty());
            }
        } else {
            cur.push(c);
        }
        i = i + 1;
    }
    if cur.len() > 0 {
        let ghost pre_done = tokens_view(done@);
        let line = chars_to_string(&cur);
        done.push(line);
        proof {
            assert(tokens_view(done@) =~= pre_done.push(cur@));
        }
    }
    done
}

/// Splits a list on colons, as a search path names its directories; empty
/// entries are kept.
pub open spec fn split_colons_from(
    s: Seq<char>,
    i: int,
    cur: Seq<char>,
    done: Seq<Seq<char>>,
) -> Seq<Seq<char>>
    decreases s.len() - i,
{
    if i < 0 || i >= s.len() {
        done.push(cur)
    } else if s[i] == ':' {
        split_colons_from(s, i + 1, Seq::empty(), done.push(cur))
    } else {
        split_colons_from(s, i + 1, cur.push(s[i]), done)
    }
}

pub open spec fn split_colons_spec(s: Seq<char>) -> Seq<Seq<char>> {
    split_colons_from(s, 0, Seq::empty(), Seq::empty())
}

/// Splits a colon-separated list into its entries, empty ones included.
pub fn split_colon_list(s: &str) -> (r: Vec<String>)
    ensures
        tokens_view(r@) == split_colons_spec(s@),
{
    let ghost sv = s@;
    let n = s.unicode_len();
    let mut done: Vec<String> = Vec::new();
    let mut cur: Vec<char> = Vec::new();
    let mut i: usize = 0;
    proof {
        assert(tokens_view(done@) =~= Seq::<Seq<char>>::empty());
        assert(cur@ =~= Seq::<char>::empty());
    }
    while i < n
        invariant
            i <= n,
            n == sv.len(),
            sv == s@,
            split_colons_from(sv, i as int, cur@, tokens_view(done@)) == split_colons_spec(sv),
        decreases n - i,
    {
        let c = s.get_char(i);
        if c == ':' {
            let ghost pre_done = tokens_view(done@);
            let ghost pre_cur = cur@;
            let entry = chars_to_string(&cur);
            done.push(entry);
            cur = Vec::new();
            proof {
                assert(tokens_view(done@) =~= pre_done.push(pre_cur));
                assert(cur@ =~= Seq::<char>::empty());
            }
        } else {
            cur.push(c);
        }
        i = i + 1;
    }
    let ghost pre_done = tokens_view(done@);
    let entry = chars_to_string(&cur);
    done.push(entry);
    proof {
        assert(tokens_view(done@) =~= pre_done.push(cur@));
    }
    done
}

/// Clones a vector of strings, keeping every character.
pub fn clone_strings(v: &Vec<String>) -> (r: Vec<String>)
    ensures
        tokens_view(r@) == tokens_view(v@),
{
    let mut r: Vec<String> = Vec::new();
    let mut i: usize = 0;
    proof {
        assert(tokens_view(r@) =~= tokens_view(v@).take(0));
    }
    while i < v.len()
        invariant
            i <= v@.len(),
            tokens_view(r@) == tokens_view(v@).take(i as int),
        decreases v@.len() - i,
    {
        let ghost pre = tokens_view(r@);
        let s = v[i].clone();
        proof {
            assert(s@ == tokens_view(v@)[i as int]);
        }
        r.push(s);
        i = i + 1;
        proof {
            assert(tokens_view(r@) =~= pre.push(s@));
            assert(tokens_view(r@) =~= tokens_view(v@).take(i as int));
        }
    }
    proof {
        assert(tokens_view(r@) =~= tokens_view(v@));
    }
    r
}

/// The arguments joined with single spaces, as `echo` prints them.
pub open spec fn join_spaced(args: Seq<Seq<char>>) -> Seq<char>
    decreases args.len(),
{
    if args.len() == 0 {
        Seq::empty()
    } else if args.len() == 1 {
        args[0]
    } else {
        join_spaced(args.drop_last()) + seq![' '] + args.last()
    }
}

/// Joins owned strings with single spaces.
pub fn join_with_spaces(args: &Vec<String>) -> (r: String)
    ensures
        r@ == join_spaced(tokens_view(args@)),
{
    let ghost vs = tokens_view(args@);
    let mut out = String::new();
    let mut i: usize = 0;
    while i < args.len()
        invariant
            i <= args@.len(),
            vs == tokens_view(args@),
            vs.len() == args@.len(),
            out@ == join_spaced(vs.take(i as int)),
        decreases args@.len() - i,
    {
        if i > 0 {
            out.append(" ");
        }
        out.append(args[i].as_str());
        proof {
            reveal_strlit(" ");
            assert(" "@ =~= seq![' ']);
            assert(vs.take(i + 1).drop_last() =~= vs.take(i as int));
            assert(vs.take(i + 1).last() == vs[i as int]);
            if i == 0 {
                assert(vs.take(1) =~= seq![vs[0]]);
                assert(out@ =~= join_spaced(vs.take(1)));
            } else {
                assert(out@ =~= join_spaced(vs.take(i + 1)));
            }
        }
        i = i + 1;
    }
    proof {
        assert(vs.take(args@.len() as int) =~= vs);
    }
    out
}

} // verus!
