//! Character-level ground rules of the line format: whitespace tokenization,
//! case-insensitive token matching, and decimal digit runs.
//!
//! The format is line-oriented: each line is split on whitespace into tokens,
//! the first token selects a record type, and the remaining tokens are
//! positional parameters.  All functions here are total and verified against
//! the spec functions that define the format's lexical grammar.

use vstd::prelude::*;

verus! {

/// The characters that separate tokens on a line.
pub open spec fn is_space_char(c: char) -> bool {
    c == ' ' || c == '\t' || c == '\r' || c == '\n' || c == '\u{000B}' || c == '\u{000C}'
}

/// Executable mirror of [`is_space_char`].
pub fn space_char(c: char) -> (r: bool)
    ensures
        r == is_space_char(c),
{
    c == ' ' || c == '\t' || c == '\r' || c == '\n' || c == '\u{000B}' || c == '\u{000C}'
}

/// Tokens of `s` with `cur` as the partially read token preceding `s`.
pub open spec fn spec_tokens_acc(s: Seq<char>, cur: Seq<char>) -> Seq<Seq<char>>
    decreases s.len(),
{
    if s.len() == 0 {
        if cur.len() == 0 {
            Seq::empty()
        } else {
            seq![cur]
        }
    } else if is_space_char(s[0]) {
        if cur.len() == 0 {
            spec_tokens_acc(s.drop_first(), Seq::empty())
        } else {
            seq![cur] + spec_tokens_acc(s.drop_first(), Seq::empty())
        }
    } else {
        spec_tokens_acc(s.drop_first(), cur.push(s[0]))
    }
}

/// The whitespace-separated tokens of a line, in order.
pub open spec fn spec_tokens(s: Seq<char>) -> Seq<Seq<char>> {
    spec_tokens_acc(s, Seq::empty())
}

/// Splits a line into its whitespace-separated tokens.
pub fn tokenize(line: &str) -> (toks: Vec<String>)
    ensures
        toks.deep_view() == spec_tokens(line@),
{
    let n: usize = line.unicode_len();
    let mut toks: Vec<String> = Vec::new();
    let mut start: Option<usize> = None;
    let mut i: usize = 0;
    proof {
        assert(line@.skip(0) =~= line@);
        assert(toks.deep_view() =~= Seq::<Seq<char>>::empty());
        assert(Seq::<Seq<char>>::empty() + spec_tokens_acc(line@, Seq::empty())
            =~= spec_tokens_acc(line@, Seq::empty()));
    }
    while i < n
        invariant
            n == line@.len(),
            i <= n,
            match start {
                Some(st) => st < i && spec_tokens(line@) == toks.deep_view() + spec_tokens_acc(
                    line@.skip(i as int),
                    line@.subrange(st as int, i as int),
                ),
                None => spec_tokens(line@) == toks.deep_view() + spec_tokens_acc(
                    line@.skip(i as int),
                    Seq::empty(),
                ),
            },
        decreases n - i,
    {
        let c = line.get_char(i);
        proof {
            assert(line@.skip(i as int).drop_first() =~= line@.skip(i as int + 1));
            assert(line@.skip(i as int)[0] == line@[i as int]);
        }
        if space_char(c) {
            if let Some(st) = start {
                let tok = String::from_str(line.substring_char(st, i));
                let ghost old_toks = toks.deep_view();
                toks.push(tok);
                proof {
                    assert(toks.deep_view() =~= old_toks.push(
                        line@.subrange(st as int, i as int),
                    ));
                    assert(old_toks.push(line@.subrange(st as int, i as int))
                        + spec_tokens_acc(line@.skip(i as int + 1), Seq::empty()) =~= old_toks + (
                    seq![line@.subrange(st as int, i as int)] + spec_tokens_acc(
                        line@.skip(i as int + 1),
                        Seq::empty(),
                    )));
                }
                start = None;
            }
        } else {
            match start {
                Some(st) => {
                    proof {
                        assert(line@.subrange(st as int, i as int).push(line@[i as int])
                            =~= line@.subrange(st as int, i as int + 1));
                    }
                }
                None => {
                    start = Some(i);
                    proof {
                        assert(Seq::<char>::empty().push(line@[i as int]) =~= line@.subrange(
                            i as int,
                            i as int + 1,
                        ));
                    }
                }
            }
        }
        i = i + 1;
    }
    proof {
        assert(line@.skip(n as int) =~= Seq::<char>::empty());
    }
    if let Some(st) = start {
        let tok = String::from_str(line.substring_char(st, n));
        let ghost old_toks = toks.deep_view();
        toks.push(tok);
        proof {
            assert(toks.deep_view() =~= old_toks.push(line@.subrange(st as int, n as int)));
            assert(old_toks.push(line@.subrange(st as int, n as int)) =~= old_toks + seq![
                line@.subrange(st as int, n as int),
            ]);
        }
    }
    toks
}

/// The tokens joined back into one string with single spaces between them.
pub open spec fn spec_join_spaces(ps: Seq<Seq<char>>) -> Seq<char>
    decreases ps.len(),
{
    if ps.len() == 0 {
        Seq::empty()
    } else if ps.len() == 1 {
        ps[0]
    } else {
        spec_join_spaces(ps.drop_last()) + seq![' '] + ps.last()
    }
}

/// Joins tokens with single spaces, as annotation records are stored.
pub fn join_spaces(parts: &Vec<String>) -> (r: String)
    ensures
        r@ == spec_join_spaces(parts.deep_view()),
{
    let mut out = String::new();
    let n = parts.len();
    let mut i: usize = 0;
    proof {
        assert(parts.deep_view().take(0) =~= Seq::<Seq<char>>::empty());
    }
    while i < n
        invariant
            i <= n,
            n == parts@.len(),
            out@ == spec_join_spaces(parts.deep_view().take(i as int)),
        decreases n - i,
    {
        proof {
            reveal_strlit(" ");
            assert(" "@ =~= seq![' ']);
            assert(parts.deep_view().take(i as int + 1).drop_last() =~= parts.deep_view().take(
                i as int,
            ));
            assert(parts.deep_view().take(i as int + 1).last() == parts.deep_view()[i as int]);
        }
        if i > 0 {
            out.append(" ");
        }
        out.append(parts[i].as_str());
        i = i + 1;
    }
    proof {
        assert(parts.deep_view().take(n as int) =~= parts.deep_view());
    }
    out
}

/// Copies the characters of `s` into a vector for random access.
pub fn to_chars(s: &str) -> (v: Vec<char>)
    ensures
        v@ == s@,
{
    let n: usize = s.unicode_len();
    let mut v: Vec<char> = Vec::new();
    let mut i: usize = 0;
    while i < n
        invariant
            n == s@.len(),
            i <= n,
            v@ == s@.subrange(0, i as int),
        decreases n - i,
    {
        let c = s.get_char(i);
        v.push(c);
        proof {
            assert(s@.subrange(0, i as int).push(s@[i as int]) =~= s@.subrange(0, i as int + 1));
        }
        i = i + 1;
    }
    proof {
        assert(s@.subrange(0, n as int) =~= s@);
    }
    v
}

/// Whether two strings hold the same characters.
pub fn str_eq(a: &str, b: &str) -> (r: bool)
    ensures
        r == (a@ == b@),
{
    let sa = String::from_str(a);
    let sb = String::from_str(b);
    sa.eq(&sb)
}

/// ASCII lower-case letters fold to upper case; all else is unchanged.
pub open spec fn spec_upper_char(c: char) -> char {
    if 'a' <= c && c <= 'z' {
        ((c as u32) - 32) as char
    } else {
        c
    }
}

/// A token folded to upper case, character by character.
pub open spec fn spec_upper(s: Seq<char>) -> Seq<char> {
    s.map_values(|c: char| spec_upper_char(c))
}

/// Whether `a` folded to upper case equals `b`.
pub fn upper_eq_char(a: char, b: char) -> (r: bool)
    ensures
        r == (spec_upper_char(a) == b),
{
    let au: u32 = a as u32;
    let bu: u32 = b as u32;
    if a >= 'a' && a <= 'z' {
        au - 32 == bu
    } else {
        au == bu
    }
}

/// Whether `s` folded to upper case equals `t` (given verbatim, upper case).
pub fn upper_eq(s: &str, t: &str) -> (r: bool)
    ensures
        r == (spec_upper(s@) == t@),
{
    let n: usize = s.unicode_len();
    let m: usize = t.unicode_len();
    if n != m {
        return false;
    }
    let mut i: usize = 0;
    while i < n
        invariant
            n == s@.len(),
            n == t@.len(),
            i <= n,
            forall|k: int| 0 <= k < i ==> spec_upper(s@)[k] == t@[k],
        decreases n - i,
    {
        if !upper_eq_char(s.get_char(i), t.get_char(i)) {
            assert(spec_upper(s@)[i as int] != t@[i as int]);
            return false;
        }
        i = i + 1;
    }
    proof {
        assert(spec_upper(s@) =~= t@);
    }
    true
}

} // verus!
