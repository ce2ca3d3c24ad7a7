//! Word tagger: spelled letters with a trailing number, and numbers with
//! trailing punctuation.
//!
//! "e s three" -> "es3", "twenty!" -> "20 !".

use vstd::prelude::*;

use crate::taggers::cardinal;
use crate::text;
use crate::text::{dec_rep, is_ascii_alpha_char, is_ascii_punct_char, tokens_of, view_opt_chars,
    view_opt_str};

verus! {

/// Concatenation of single-letter tokens in `toks[i..toks.len()-1]`, with
/// original casing; `None` when one of them is not a single ASCII letter.
pub open spec fn letters_spec(toks: Seq<Seq<char>>, i: int) -> Option<Seq<char>>
    decreases toks.len() - i,
{
    if i < 0 || i >= toks.len() - 1 {
        Some(Seq::empty())
    } else if toks[i].len() == 1 && is_ascii_alpha_char(toks[i][0]) {
        match letters_spec(toks, i + 1) {
            Some(rest) => Some(seq![toks[i][0]] + rest),
            None => None,
        }
    } else {
        None
    }
}

fn letters_into(toks: &Vec<Vec<char>>, i: usize, out: &mut Vec<char>) -> (ok: bool)
    requires
        i <= toks.len(),
    ensures
        match letters_spec(toks.deep_view(), i as int) {
            Some(d) => ok && final(out)@ == old(out)@ + d,
            None => !ok,
        },
    decreases toks.len() - i,
{
    if toks.len() == 0 || i >= toks.len() - 1 {
        proof {
            assert(out@ =~= old(out)@ + Seq::<char>::empty());
        }
        return true;
    }
    proof {
        assert(toks.deep_view()[i as int] == toks@[i as int]@);
    }
    if toks[i].len() == 1 && text::is_ascii_alpha_x(toks[i][0]) {
        let ghost pre = out@;
        out.push(toks[i][0]);
        let ok = letters_into(toks, i + 1, out);
        if !ok {
            return false;
        }
        proof {
            let d = letters_spec(toks.deep_view(), i as int);
            assert(out@ =~= pre + d->Some_0);
        }
        true
    } else {
        false
    }
}

/// "e s three" -> "es3": every token but the last is a single ASCII letter
/// (casing kept), and the last token reads as a number.
pub open spec fn spelled_spec(s: Seq<char>) -> Option<Seq<char>> {
    let toks = tokens_of(s);
    if toks.len() < 2 {
        None
    } else {
        match cardinal::words_value_i128(toks[toks.len() - 1]) {
            None => None,
            Some(n) => match letters_spec(toks, 0) {
                None => None,
                Some(ls) => Some(ls + dec_rep(n)),
            },
        }
    }
}

fn spelled_chars(cv: &Vec<char>) -> (r: Option<Vec<char>>)
    ensures
        view_opt_chars(r) == spelled_spec(cv@),
{
    let toks = text::tokenize(cv);
    if toks.len() < 2 {
        return None;
    }
    proof {
        assert(toks.deep_view()[toks@.len() - 1] == toks@[toks@.len() - 1]@);
    }
    let n = match cardinal::words_value_chars(&toks[toks.len() - 1]) {
        Some(n) => if n <= i128::MAX as u128 {
            n
        } else {
            return None;
        },
        None => {
            return None;
        },
    };
    let mut out: Vec<char> = Vec::new();
    if !letters_into(&toks, 0, &mut out) {
        return None;
    }
    let digits = text::dec_u128(n);
    text::push_all(&mut out, &digits);
    proof {
        let sp = spelled_spec(cv@);
        assert(out@ =~= sp->Some_0);
    }
    Some(out)
}

/// "twenty!" -> "20 !": a trailing ASCII punctuation character after a
/// phrase that reads as a cardinal. Single-character input never matches.
pub open spec fn number_punct_spec(s: Seq<char>) -> Option<Seq<char>> {
    if s.len() < 2 || !is_ascii_punct_char(s[s.len() - 1]) {
        None
    } else {
        match cardinal::cardinal_spec(s.subrange(0, s.len() - 1)) {
            Some(num) => Some(num + seq![' '] + seq![s[s.len() - 1]]),
            None => None,
        }
    }
}

fn number_punct_chars(cv: &Vec<char>) -> (r: Option<Vec<char>>)
    ensures
        view_opt_chars(r) == number_punct_spec(cv@),
{
    if cv.len() < 2 {
        return None;
    }
    let last = cv[cv.len() - 1];
    if !text::is_ascii_punct_x(last) {
        return None;
    }
    let head = text::copy_range(cv, 0, cv.len() - 1);
    match cardinal::parse_chars(&head) {
        Some(num) => {
            let mut out = num;
            out.push(' ');
            out.push(last);
            proof {
                let sp = number_punct_spec(cv@);
                assert(out@ =~= sp->Some_0);
            }
            Some(out)
        },
        None => None,
    }
}

/// The word tagger: spelled letters with a number, else number with
/// trailing punctuation.
pub open spec fn word_spec(s: Seq<char>) -> Option<Seq<char>> {
    match spelled_spec(s) {
        Some(r) => Some(r),
        None => number_punct_spec(s),
    }
}

/// Character-vector form of [`parse`].
pub fn parse_chars(cv: &Vec<char>) -> (r: Option<Vec<char>>)
    ensures
        view_opt_chars(r) == word_spec(cv@),
{
    match spelled_chars(cv) {
        Some(r) => Some(r),
        None => number_punct_chars(cv),
    }
}

/// Parse the special word patterns.
pub fn parse(input: &str) -> (r: Option<String>)
    ensures
        view_opt_str(r) == word_spec(input@),
{
    let cv = text::str_to_chars(input);
    match parse_chars(&cv) {
        Some(out) => Some(text::chars_to_string(&out)),
        None => None,
    }
}

} // verus!
