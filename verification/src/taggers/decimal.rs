//! Decimal number tagger.
//!
//! "three point one four" -> "3.14", "point five" -> ".5",
//! "five point two million" -> "5.2 million", "fifty billion" -> "50 billion".

use vstd::prelude::*;

use crate::taggers::cardinal;
use crate::text;
use crate::text::{
    contains_sub, dec_rep, find_sub, lower_seq, starts_with, tokens_of, trim_seq, view_opt_chars,
    view_opt_str,
};

verus! {

/// A spoken digit: "zero", "o" and "oh" stand for '0'.
pub open spec fn digit_word(t: Seq<char>) -> Option<char> {
    if t == "zero"@ || t == "o"@ || t == "oh"@ {
        Some('0')
    } else if t == "one"@ {
        Some('1')
    } else if t == "two"@ {
        Some('2')
    } else if t == "three"@ {
        Some('3')
    } else if t == "four"@ {
        Some('4')
    } else if t == "five"@ {
        Some('5')
    } else if t == "six"@ {
        Some('6')
    } else if t == "seven"@ {
        Some('7')
    } else if t == "eight"@ {
        Some('8')
    } else if t == "nine"@ {
        Some('9')
    } else {
        None
    }
}

pub fn digit_word_x(t: &Vec<char>) -> (r: Option<char>)
    ensures
        r == digit_word(t@),
{
    if text::eq_str(t, "zero") || text::eq_str(t, "o") || text::eq_str(t, "oh") {
        Some('0')
    } else if text::eq_str(t, "one") {
        Some('1')
    } else if text::eq_str(t, "two") {
        Some('2')
    } else if text::eq_str(t, "three") {
        Some('3')
    } else if text::eq_str(t, "four") {
        Some('4')
    } else if text::eq_str(t, "five") {
        Some('5')
    } else if text::eq_str(t, "six") {
        Some('6')
    } else if text::eq_str(t, "seven") {
        Some('7')
    } else if text::eq_str(t, "eight") {
        Some('8')
    } else if text::eq_str(t, "nine") {
        Some('9')
    } else {
        None
    }
}

/// Digits spelled out from position `i` of the token list: digit words give
/// one digit each, any other token must read as a number and contributes its
/// decimal digits ("twenty six" inside a digit sequence gives "26").
pub open spec fn digits_toks(toks: Seq<Seq<char>>, i: int) -> Option<Seq<char>>
    decreases toks.len() - i,
{
    if i < 0 || i >= toks.len() {
        Some(Seq::empty())
    } else {
        let head = match digit_word(toks[i]) {
            Some(c) => Some(seq![c]),
            None => match cardinal::words_value_i128(toks[i]) {
                Some(v) => Some(dec_rep(v)),
                None => None,
            },
        };
        match head {
            Some(h) => match digits_toks(toks, i + 1) {
                Some(rest) => Some(h + rest),
                None => None,
            },
            None => None,
        }
    }
}

/// The spelled-out digit string of a phrase, `None` when empty or unreadable.
pub open spec fn digits_spec(s: Seq<char>) -> Option<Seq<char>> {
    match digits_toks(tokens_of(s), 0) {
        Some(d) => if d.len() == 0 {
            None
        } else {
            Some(d)
        },
        None => None,
    }
}

fn digits_into(toks: &Vec<Vec<char>>, i: usize, out: &mut Vec<char>) -> (ok: bool)
    requires
        i <= toks.len(),
    ensures
        match digits_toks(toks.deep_view(), i as int) {
            Some(d) => ok && final(out)@ == old(out)@ + d,
            None => !ok,
        },
    decreases toks.len() - i,
{
    if i >= toks.len() {
        proof {
            assert(out@ =~= old(out)@ + Seq::<char>::empty());
        }
        return true;
    }
    proof {
        assert(toks.deep_view()[i as int] == toks@[i as int]@);
    }
    let ghost pre = out@;
    if let Some(c) = digit_word_x(&toks[i]) {
        out.push(c);
        proof {
            assert(out@ =~= pre + seq![c]);
        }
    } else {
        let wv = match cardinal::words_value_chars(&toks[i]) {
            Some(n) => if n <= i128::MAX as u128 {
                n
            } else {
                return false;
            },
            None => {
                return false;
            },
        };
        let digits = text::dec_u128(wv);
        text::push_all(out, &digits);
    }
    let ghost mid = out@;
    let ok = digits_into(toks, i + 1, out);
    if !ok {
        return false;
    }
    proof {
        let d = digits_toks(toks.deep_view(), i as int);
        assert(out@ =~= pre + d->Some_0);
    }
    true
}

/// Spell out the digits of a phrase held in a character vector.
pub fn digits_chars(v: &Vec<char>) -> (r: Option<Vec<char>>)
    ensures
        view_opt_chars(r) == digits_spec(v@),
{
    let toks = text::tokenize(v);
    let mut out: Vec<char> = Vec::new();
    if digits_into(&toks, 0, &mut out) {
        if out.len() == 0 {
            None
        } else {
            Some(out)
        }
    } else {
        None
    }
}

/// The "X point Y" form over an already lowercased phrase: an optional
/// "minus "/"negative " prefix, an optional integer part read as a cardinal,
/// the word "point", then spelled-out digits.
pub open spec fn point_decimal_spec(s: Seq<char>) -> Option<Seq<char>> {
    let neg = starts_with(s, "minus "@) || starts_with(s, "negative "@);
    let rest = if starts_with(s, "minus "@) {
        s.subrange(6, s.len() as int)
    } else if starts_with(s, "negative "@) {
        s.subrange(9, s.len() as int)
    } else {
        s
    };
    let parts = if starts_with(rest, "point "@) {
        Some((Seq::<char>::empty(), rest.subrange(6, rest.len() as int)))
    } else {
        match find_sub(rest, " point "@) {
            Some(ix) => Some((rest.subrange(0, ix), rest.subrange(ix + 7, rest.len() as int))),
            None => None,
        }
    };
    match parts {
        None => None,
        Some((int_str, dec_str)) => {
            let int_part = if int_str.len() == 0 {
                Some(Seq::<char>::empty())
            } else {
                match cardinal::words_value_i128(int_str) {
                    Some(v) => Some(dec_rep(v)),
                    None => None,
                }
            };
            match int_part {
                None => None,
                Some(ip) => match digits_spec(dec_str) {
                    None => None,
                    Some(dp) => {
                        let sign: Seq<char> = if neg {
                            seq!['-']
                        } else {
                            Seq::empty()
                        };
                        Some(sign + ip + seq!['.'] + dp)
                    },
                },
            }
        },
    }
}

/// Character-vector mirror of [`point_decimal_spec`].
pub fn point_decimal_chars(s: &Vec<char>) -> (r: Option<Vec<char>>)
    ensures
        view_opt_chars(r) == point_decimal_spec(s@),
{
    proof {
        reveal_strlit("minus ");
        reveal_strlit("negative ");
        reveal_strlit("point ");
        reveal_strlit(" point ");
    }
    let (neg, rest) = if text::starts_with_str(s, "minus ") {
        (true, text::copy_range(s, 6, s.len()))
    } else if text::starts_with_str(s, "negative ") {
        (true, text::copy_range(s, 9, s.len()))
    } else {
        (false, text::copy_range(s, 0, s.len()))
    };
    proof {
        assert(s@.subrange(0, s@.len() as int) =~= s@);
    }
    let (int_vec, dec_vec) = if text::starts_with_str(&rest, "point ") {
        (Vec::<char>::new(), text::copy_range(&rest, 6, rest.len()))
    } else {
        match text::find_str(&rest, " point ") {
            Some(ix) => {
                proof {
                    text::lemma_find_from_occurs(rest@, " point "@, 0);
                }
                (text::copy_range(&rest, 0, ix), text::copy_range(&rest, ix + 7, rest.len()))
            },
            None => {
                return None;
            },
        }
    };
    let int_part: Vec<char> = if int_vec.len() == 0 {
        Vec::new()
    } else {
        match cardinal::words_value_chars(&int_vec) {
            Some(v) => if v <= i128::MAX as u128 {
                text::dec_u128(v)
            } else {
                return None;
            },
            None => {
                return None;
            },
        }
    };
    let dec_part = match digits_chars(&dec_vec) {
        Some(d) => d,
        None => {
            return None;
        },
    };
    let mut out: Vec<char> = Vec::new();
    if neg {
        out.push('-');
    }
    text::push_all(&mut out, &int_part);
    out.push('.');
    text::push_all(&mut out, &dec_part);
    proof {
        let sign: Seq<char> = if neg {
            seq!['-']
        } else {
            Seq::empty()
        };
        assert(out@ =~= sign + int_part@ + seq!['.'] + dec_part@);
    }
    Some(out)
}

/// A number ending in a scale word: "five point two million" -> "5.2 million",
/// "fifty billion" -> "50 billion". The scale word keeps its original casing.
pub open spec fn with_scale_spec(orig: Seq<char>, low: Seq<char>) -> Option<Seq<char>> {
    if text::ends_with(low, "trillion"@) {
        scale_tail_spec(orig, low, 8)
    } else if text::ends_with(low, "billion"@) {
        scale_tail_spec(orig, low, 7)
    } else if text::ends_with(low, "million"@) {
        scale_tail_spec(orig, low, 7)
    } else if text::ends_with(low, "thousand"@) {
        scale_tail_spec(orig, low, 8)
    } else {
        None
    }
}

/// Shared tail of [`with_scale_spec`]: `sl` is the length of the scale word.
pub open spec fn scale_tail_spec(orig: Seq<char>, low: Seq<char>, sl: int) -> Option<Seq<char>> {
    if orig.len() != low.len() || sl > low.len() {
        None
    } else {
        let num_part = trim_seq(low.subrange(0, low.len() - sl));
        let orig_scale = orig.subrange(low.len() - sl, low.len() as int);
        if contains_sub(num_part, " point "@) {
            match point_decimal_spec(num_part) {
                Some(d) => Some(d + seq![' '] + orig_scale),
                None => None,
            }
        } else {
            match cardinal::words_value_i128(num_part) {
                Some(v) => Some(dec_rep(v) + seq![' '] + orig_scale),
                None => None,
            }
        }
    }
}

fn scale_tail_chars(orig: &Vec<char>, low: &Vec<char>, sl: usize) -> (r: Option<Vec<char>>)
    requires
        sl <= low.len(),
        orig@.len() == low@.len(),
    ensures
        view_opt_chars(r) == scale_tail_spec(orig@, low@, sl as int),
{
    proof {
        reveal_strlit(" point ");
    }
    let cut = text::copy_range(low, 0, low.len() - sl);
    let num_part = text::trim_chars(&cut);
    let orig_scale = text::copy_range(orig, low.len() - sl, low.len());
    let num = if text::contains_str(&num_part, " point ") {
        match point_decimal_chars(&num_part) {
            Some(d) => d,
            None => {
                return None;
            },
        }
    } else {
        match cardinal::words_value_chars(&num_part) {
            Some(v) => if v <= i128::MAX as u128 {
                text::dec_u128(v)
            } else {
                return None;
            },
            None => {
                return None;
            },
        }
    };
    let mut out = num;
    out.push(' ');
    text::push_all(&mut out, &orig_scale);
    proof {
        let spec_r = scale_tail_spec(orig@, low@, sl as int);
        assert(out@ =~= spec_r->Some_0);
    }
    Some(out)
}

/// The written form of a spoken decimal expression.
pub open spec fn decimal_spec(s: Seq<char>) -> Option<Seq<char>> {
    let orig = trim_seq(s);
    let low = lower_seq(orig);
    match with_scale_spec(orig, low) {
        Some(r) => Some(r),
        None => point_decimal_spec(low),
    }
}

/// Character-vector form of [`parse`].
pub fn parse_chars(cv: &Vec<char>) -> (r: Option<Vec<char>>)
    ensures
        view_opt_chars(r) == decimal_spec(cv@),
{
    let orig = text::trim_chars(cv);
    let low = text::lower_chars(&orig);
    proof {
        reveal_strlit("trillion");
        reveal_strlit("billion");
        reveal_strlit("million");
        reveal_strlit("thousand");
    }
    let scaled = if text::ends_with_str(&low, "trillion") {
        scale_tail_chars(&orig, &low, 8)
    } else if text::ends_with_str(&low, "billion") {
        scale_tail_chars(&orig, &low, 7)
    } else if text::ends_with_str(&low, "million") {
        scale_tail_chars(&orig, &low, 7)
    } else if text::ends_with_str(&low, "thousand") {
        scale_tail_chars(&orig, &low, 8)
    } else {
        None
    };
    match scaled {
        Some(r) => Some(r),
        None => point_decimal_chars(&low),
    }
}

/// Parse a spoken decimal expression to its written form.
pub fn parse(input: &str) -> (r: Option<String>)
    ensures
        view_opt_str(r) == decimal_spec(input@),
{
    let cv = text::str_to_chars(input);
    match parse_chars(&cv) {
        Some(out) => Some(text::chars_to_string(&out)),
        None => None,
    }
}

} // verus!
