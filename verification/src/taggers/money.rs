//! Money tagger: spoken currency expressions to written form.
//!
//! "five dollars" -> "$5", "five dollars and fifty cents" -> "$5.50",
//! "one cent" -> "$0.01", "fifty billion dollars" -> "$50 billion".

use vstd::prelude::*;

use crate::taggers::cardinal;
use crate::text;
use crate::text::{
    contains_sub, dec2_rep, dec_rep, ends_with, lower_seq, split2, splits_in_two, starts_with,
    strip_suffix_all, tokens_of, trim_seq, view_opt_chars, view_opt_str,
};

verus! {

// ---------------------------------------------------------------------------
// Digit sequences (strict: single digit words only)
// ---------------------------------------------------------------------------

/// Digit words from position `i` on, one character each; unlike the decimal
/// tagger there is no compound-number fallback. An empty list is allowed.
pub open spec fn money_digits_toks(toks: Seq<Seq<char>>, i: int) -> Option<Seq<char>>
    decreases toks.len() - i,
{
    if i < 0 || i >= toks.len() {
        Some(Seq::empty())
    } else {
        match crate::taggers::decimal::digit_word(toks[i]) {
            Some(c) => match money_digits_toks(toks, i + 1) {
                Some(rest) => Some(seq![c] + rest),
                None => None,
            },
            None => None,
        }
    }
}

pub open spec fn money_digits_spec(s: Seq<char>) -> Option<Seq<char>> {
    money_digits_toks(tokens_of(s), 0)
}

fn money_digits_into(toks: &Vec<Vec<char>>, i: usize, out: &mut Vec<char>) -> (ok: bool)
    requires
        i <= toks.len(),
    ensures
        match money_digits_toks(toks.deep_view(), i as int) {
            Some(d) => ok && final(out)@ == old(out)@ + d,
            None => !ok,
        },
    decreases toks.len() - i,
{
    if i >= toks.len() {
        proof {
            assert(out@ =~= old(out)@ + Seq::<char>::empty());
        }
        return true;
    }
    proof {
        assert(toks.deep_view()[i as int] == toks@[i as int]@);
    }
    let ghost pre = out@;
    match crate::taggers::decimal::digit_word_x(&toks[i]) {
        Some(c) => {
            out.push(c);
        },
        None => {
            return false;
        },
    }
    if !money_digits_into(toks, i + 1, out) {
        return false;
    }
    proof {
        let d = money_digits_toks(toks.deep_view(), i as int);
        assert(out@ =~= pre + d->Some_0);
    }
    true
}

fn money_digits_chars(v: &Vec<char>) -> (r: Option<Vec<char>>)
    ensures
        view_opt_chars(r) == money_digits_spec(v@),
{
    let toks = text::tokenize(v);
    let mut out: Vec<char> = Vec::new();
    if money_digits_into(&toks, 0, &mut out) {
        Some(out)
    } else {
        None
    }
}

// ---------------------------------------------------------------------------
// Formatting helpers
// ---------------------------------------------------------------------------

/// "$D.CC" with the cents zero-padded to two digits.
pub open spec fn fmt_dollars_cents(d: int, c: int) -> Seq<char> {
    seq!['$'] + dec_rep(d) + seq!['.'] + dec2_rep(c)
}

fn fmt_dollars_cents_x(d: u128, c: u128) -> (out: Vec<char>)
    ensures
        out@ == fmt_dollars_cents(d as int, c as int),
{
    let mut out: Vec<char> = Vec::new();
    out.push('$');
    let dd = text::dec_u128(d);
    text::push_all(&mut out, &dd);
    out.push('.');
    let cc = text::dec2_u128(c);
    text::push_all(&mut out, &cc);
    proof {
        assert(out@ =~= fmt_dollars_cents(d as int, c as int));
    }
    out
}

// ---------------------------------------------------------------------------
// Other currencies: won, yen, yuan
// ---------------------------------------------------------------------------

/// "X billion won" -> "₩X billion", "X billion yen" -> "¥X billion",
/// "X billion yuan" -> "X billion yuan" (no symbol, decimal value allowed).
pub open spec fn other_currency_spec(low: Seq<char>) -> Option<Seq<char>> {
    if ends_with(low, " trillion won"@) {
        won_yen_tail(low, " trillion won"@, '₩', "trillion"@)
    } else if ends_with(low, " billion won"@) {
        won_yen_tail(low, " billion won"@, '₩', "billion"@)
    } else if ends_with(low, " million won"@) {
        won_yen_tail(low, " million won"@, '₩', "million"@)
    } else if ends_with(low, " trillion yen"@) {
        won_yen_tail(low, " trillion yen"@, '¥', "trillion"@)
    } else if ends_with(low, " billion yen"@) {
        won_yen_tail(low, " billion yen"@, '¥', "billion"@)
    } else if ends_with(low, " million yen"@) {
        won_yen_tail(low, " million yen"@, '¥', "million"@)
    } else if ends_with(low, " trillion yuan"@) {
        yuan_tail(low, " trillion yuan"@, "trillion"@)
    } else if ends_with(low, " billion yuan"@) {
        yuan_tail(low, " billion yuan"@, "billion"@)
    } else if ends_with(low, " million yuan"@) {
        yuan_tail(low, " million yuan"@, "million"@)
    } else {
        None
    }
}

pub open spec fn won_yen_tail(
    low: Seq<char>,
    pat: Seq<char>,
    sym: char,
    scale: Seq<char>,
) -> Option<Seq<char>> {
    let num_part = strip_suffix_all(low, pat);
    match cardinal::words_value_i128(num_part) {
        Some(n) => Some(seq![sym] + dec_rep(n) + seq![' '] + scale),
        None => None,
    }
}

pub open spec fn yuan_tail(low: Seq<char>, pat: Seq<char>, scale: Seq<char>) -> Option<Seq<char>> {
    let num_part = strip_suffix_all(low, pat);
    if contains_sub(num_part, " point "@) && splits_in_two(num_part, " point "@) {
        match split2(num_part, " point "@) {
            Some((a, b)) => match cardinal::words_value_i128(a) {
                Some(n) => match money_digits_spec(b) {
                    Some(d) => Some(
                        dec_rep(n) + seq!['.'] + d + seq![' '] + scale + seq![' '] + "yuan"@,
                    ),
                    None => None,
                },
                None => None,
            },
            None => None,
        }
    } else {
        match cardinal::words_value_i128(num_part) {
            Some(n) => Some(dec_rep(n) + seq![' '] + scale + seq![' '] + "yuan"@),
            None => None,
        }
    }
}

fn wv_chars(v: &Vec<char>) -> (r: Option<u128>)
    ensures
        match r {
            Some(n) => cardinal::words_value_i128(v@) == Some(n as int),
            None => cardinal::words_value_i128(v@) is None,
        },
{
    match cardinal::words_value_chars(v) {
        Some(n) => if n <= i128::MAX as u128 {
            Some(n)
        } else {
            None
        },
        None => None,
    }
}

fn won_yen_tail_x(low: &Vec<char>, pat: &str, sym: char, scale: &str) -> (r: Option<Vec<char>>)
    ensures
        view_opt_chars(r) == won_yen_tail(low@, pat@, sym, scale@),
{
    let num_part = text::strip_suffix_all_x(low, pat);
    match wv_chars(&num_part) {
        Some(n) => {
            let mut out: Vec<char> = Vec::new();
            out.push(sym);
            let dd = text::dec_u128(n);
            text::push_all(&mut out, &dd);
            out.push(' ');
            text::push_str_chars(&mut out, scale);
            proof {
                assert(out@ =~= seq![sym] + dec_rep(n as int) + seq![' '] + scale@);
            }
            Some(out)
        },
        None => None,
    }
}

fn yuan_tail_x(low: &Vec<char>, pat: &str, scale: &str) -> (r: Option<Vec<char>>)
    ensures
        view_opt_chars(r) == yuan_tail(low@, pat@, scale@),
{
    proof {
        reveal_strlit(" point ");
    }
    let num_part = text::strip_suffix_all_x(low, pat);
    let two = if text::contains_str(&num_part, " point ") {
        match text::split2_x(&num_part, " point ") {
            Some((a, b)) => {
                let pv7 = text::str_to_chars(" point ");
                if text::find_sub_from(&b, &pv7, 0).is_none() {
                    Some((a, b))
                } else {
                    None
                }
            },
            None => None,
        }
    } else {
        None
    };
    match two {
        Some((a, b)) => {
            let n = match wv_chars(&a) {
                Some(n) => n,
                None => {
                    return None;
                },
            };
            let d = match money_digits_chars(&b) {
                Some(d) => d,
                None => {
                    return None;
                },
            };
            let mut out = text::dec_u128(n);
            out.push('.');
            text::push_all(&mut out, &d);
            out.push(' ');
            text::push_str_chars(&mut out, scale);
            out.push(' ');
            text::push_str_chars(&mut out, "yuan");
            proof {
                assert(out@ =~= dec_rep(n as int) + seq!['.'] + d@ + seq![' '] + scale@ + seq![' ']
                    + "yuan"@);
            }
            Some(out)
        },
        None => {
            match wv_chars(&num_part) {
                Some(n) => {
                    let mut out = text::dec_u128(n);
                    out.push(' ');
                    text::push_str_chars(&mut out, scale);
                    out.push(' ');
                    text::push_str_chars(&mut out, "yuan");
                    proof {
                        assert(out@ =~= dec_rep(n as int) + seq![' '] + scale@ + seq![' ']
                            + "yuan"@);
                    }
                    Some(out)
                },
                None => None,
            }
        },
    }
}

// ---------------------------------------------------------------------------
// Large dollar amounts with scale words
// ---------------------------------------------------------------------------

/// "X billion dollars" -> "$X billion", with decimal support
/// ("two point five billion dollars" -> "$2.5 billion"); the scale word
/// keeps its original casing.
pub open spec fn large_currency_spec(orig: Seq<char>, low: Seq<char>) -> Option<Seq<char>> {
    if ends_with(low, " trillion dollars"@) {
        large_tail(orig, low, 8)
    } else if ends_with(low, " billion dollars"@) {
        large_tail(orig, low, 7)
    } else if ends_with(low, " million dollars"@) {
        large_tail(orig, low, 7)
    } else {
        None
    }
}

/// `sl` is the scale word's length; the suffix " <scale> dollars" spans the
/// last `sl + 9` characters.
pub open spec fn large_tail(orig: Seq<char>, low: Seq<char>, sl: int) -> Option<Seq<char>> {
    if orig.len() != low.len() || low.len() < sl + 9 {
        None
    } else {
        let num_part = low.subrange(0, low.len() - (sl + 9));
        let orig_scale = orig.subrange(orig.len() - 8 - sl, orig.len() - 8);
        if contains_sub(num_part, " point "@) {
            if splits_in_two(num_part, " point "@) {
                match split2(num_part, " point "@) {
                    Some((a, b)) => match cardinal::words_value_i128(a) {
                        Some(n) => match money_digits_spec(b) {
                            Some(d) => Some(
                                seq!['$'] + dec_rep(n) + seq!['.'] + d + seq![' '] + orig_scale,
                            ),
                            None => None,
                        },
                        None => None,
                    },
                    None => None,
                }
            } else {
                None
            }
        } else {
            match cardinal::words_value_i128(num_part) {
                Some(n) => Some(seq!['$'] + dec_rep(n) + seq![' '] + orig_scale),
                None => None,
            }
        }
    }
}

fn large_tail_x(orig: &Vec<char>, low: &Vec<char>, sl: usize) -> (r: Option<Vec<char>>)
    requires
        orig@.len() == low@.len(),
        sl + 9 <= low.len(),
    ensures
        view_opt_chars(r) == large_tail(orig@, low@, sl as int),
{
    proof {
        reveal_strlit(" point ");
    }
    let num_part = text::copy_range(low, 0, low.len() - (sl + 9));
    let orig_scale = text::copy_range(orig, orig.len() - 8 - sl, orig.len() - 8);
    if text::contains_str(&num_part, " point ") {
        let (a, b) = match text::split2_x(&num_part, " point ") {
            Some((a, b)) => (a, b),
            None => {
                return None;
            },
        };
        let pv7 = text::str_to_chars(" point ");
        if text::find_sub_from(&b, &pv7, 0).is_some() {
            return None;
        }
        let n = match wv_chars(&a) {
            Some(n) => n,
            None => {
                return None;
            },
        };
        let d = match money_digits_chars(&b) {
            Some(d) => d,
            None => {
                return None;
            },
        };
        let mut out: Vec<char> = Vec::new();
        out.push('$');
        let dd = text::dec_u128(n);
        text::push_all(&mut out, &dd);
        out.push('.');
        text::push_all(&mut out, &d);
        out.push(' ');
        text::push_all(&mut out, &orig_scale);
        proof {
            assert(out@ =~= seq!['$'] + dec_rep(n as int) + seq!['.'] + d@ + seq![' ']
                + orig_scale@);
        }
        Some(out)
    } else {
        match wv_chars(&num_part) {
            Some(n) => {
                let mut out: Vec<char> = Vec::new();
                out.push('$');
                let dd = text::dec_u128(n);
                text::push_all(&mut out, &dd);
                out.push(' ');
                text::push_all(&mut out, &orig_scale);
                proof {
                    assert(out@ =~= seq!['$'] + dec_rep(n as int) + seq![' '] + orig_scale@);
                }
                Some(out)
            },
            None => None,
        }
    }
}

// ---------------------------------------------------------------------------
// Decimal dollars
// ---------------------------------------------------------------------------

/// "twenty point five o six dollars" -> "$20.506", "point five dollars"
/// -> "$.5".
pub open spec fn decimal_dollars_spec(low: Seq<char>) -> Option<Seq<char>> {
    let first = if ends_with(low, " dollars"@) && contains_sub(low, " point "@) {
        let np = strip_suffix_all(low, " dollars"@);
        match split2(np, " point "@) {
            Some((a, b)) => {
                let int_part = if a.len() == 0 {
                    Some(Seq::<char>::empty())
                } else {
                    match cardinal::words_value_i128(a) {
                        Some(n) => Some(dec_rep(n)),
                        None => None,
                    }
                };
                match int_part {
                    Some(ip) => match money_digits_spec(b) {
                        Some(d) => Some(Some(seq!['$'] + ip + seq!['.'] + d)),
                        None => Some(None),
                    },
                    None => Some(None),
                }
            },
            None => None,
        }
    } else {
        None
    };
    match first {
        Some(r) => r,
        None => if starts_with(low, "point "@) && ends_with(low, " dollars"@) && low.len() >= 14 {
            let mid = low.subrange(6, low.len() - 8);
            match money_digits_spec(mid) {
                Some(d) => Some(seq!['$'] + seq!['.'] + d),
                None => None,
            }
        } else {
            None
        },
    }
}

fn decimal_dollars_x(low: &Vec<char>) -> (r: Option<Vec<char>>)
    ensures
        view_opt_chars(r) == decimal_dollars_spec(low@),
{
    proof {
        reveal_strlit(" dollars");
        reveal_strlit(" point ");
        reveal_strlit("point ");
    }
    if text::ends_with_str(low, " dollars") && text::contains_str(low, " point ") {
        let np = text::strip_suffix_all_x(low, " dollars");
        match text::split2_x(&np, " point ") {
            Some((a, b)) => {
                let ip: Vec<char> = if a.len() == 0 {
                    Vec::new()
                } else {
                    match wv_chars(&a) {
                        Some(n) => text::dec_u128(n),
                        None => {
                            return None;
                        },
                    }
                };
                let d = match money_digits_chars(&b) {
                    Some(d) => d,
                    None => {
                        return None;
                    },
                };
                let mut out: Vec<char> = Vec::new();
                out.push('$');
                text::push_all(&mut out, &ip);
                out.push('.');
                text::push_all(&mut out, &d);
                proof {
                    assert(out@ =~= seq!['$'] + ip@ + seq!['.'] + d@);
                }
                return Some(out);
            },
            None => {},
        }
    }
    if text::starts_with_str(low, "point ") && text::ends_with_str(low, " dollars") && low.len()
        >= 14 {
        let mid = text::copy_range(low, 6, low.len() - 8);
        match money_digits_chars(&mid) {
            Some(d) => {
                let mut out: Vec<char> = Vec::new();
                out.push('$');
                out.push('.');
                text::push_all(&mut out, &d);
                proof {
                    assert(out@ =~= seq!['$'] + seq!['.'] + d@);
                }
                Some(out)
            },
            None => None,
        }
    } else {
        None
    }
}

// ---------------------------------------------------------------------------
// Dollars and cents
// ---------------------------------------------------------------------------

/// Does the separator occur, with the right-hand side ending in a cents word?
pub open spec fn dc_applies(low: Seq<char>, sep: Seq<char>) -> bool {
    match split2(low, sep) {
        Some((d, rest)) => ends_with(rest, " cents"@) || ends_with(rest, " cent"@),
        None => false,
    }
}

pub open spec fn dc_result(low: Seq<char>, sep: Seq<char>) -> Option<Seq<char>> {
    match split2(low, sep) {
        Some((d, rest)) => {
            let cw = strip_suffix_all(strip_suffix_all(rest, " cents"@), " cent"@);
            match cardinal::words_value_i128(d) {
                Some(dv) => match cardinal::words_value_i128(cw) {
                    Some(cv) => Some(fmt_dollars_cents(dv, cv)),
                    None => None,
                },
                None => None,
            }
        },
        None => None,
    }
}

/// "X dollars and Y cents" -> "$X.YY" (also "dollar and", "united states
/// dollars and", and the "X dollars Y" implied-cents form).
pub open spec fn dollars_cents_spec(low: Seq<char>) -> Option<Seq<char>> {
    if dc_applies(low, " united states dollars and "@) {
        dc_result(low, " united states dollars and "@)
    } else if dc_applies(low, " dollar and "@) {
        dc_result(low, " dollar and "@)
    } else if dc_applies(low, " dollars and "@) {
        dc_result(low, " dollars and "@)
    } else {
        match split2(low, " dollars "@) {
            Some((d, rest)) => if ends_with(rest, " cents"@) {
                let cw = strip_suffix_all(rest, " cents"@);
                match cardinal::words_value_i128(d) {
                    Some(dv) => match cardinal::words_value_i128(cw) {
                        Some(cv) => Some(fmt_dollars_cents(dv, cv)),
                        None => None,
                    },
                    None => None,
                }
            } else {
                match cardinal::words_value_i128(rest) {
                    Some(cv) => if 0 < cv < 100 {
                        match cardinal::words_value_i128(d) {
                            Some(dv) => Some(fmt_dollars_cents(dv, cv)),
                            None => None,
                        }
                    } else {
                        None
                    },
                    None => None,
                }
            },
            None => None,
        }
    }
}

fn dc_result_x(low: &Vec<char>, sep: &str) -> (r: Option<Vec<char>>)
    ensures
        view_opt_chars(r) == dc_result(low@, sep@),
{
    match text::split2_x(low, sep) {
        Some((d, rest)) => {
            let c1 = text::strip_suffix_all_x(&rest, " cents");
            let cw = text::strip_suffix_all_x(&c1, " cent");
            let dv = match wv_chars(&d) {
                Some(n) => n,
                None => {
                    return None;
                },
            };
            let cv = match wv_chars(&cw) {
                Some(n) => n,
                None => {
                    return None;
                },
            };
            Some(fmt_dollars_cents_x(dv, cv))
        },
        None => None,
    }
}

fn dc_applies_x(low: &Vec<char>, sep: &str) -> (r: bool)
    ensures
        r == dc_applies(low@, sep@),
{
    proof {
        reveal_strlit(" cents");
        reveal_strlit(" cent");
    }
    match text::split2_x(low, sep) {
        Some((_, rest)) => text::ends_with_str(&rest, " cents") || text::ends_with_str(
            &rest,
            " cent",
        ),
        None => false,
    }
}

fn dollars_cents_x(low: &Vec<char>) -> (r: Option<Vec<char>>)
    ensures
        view_opt_chars(r) == dollars_cents_spec(low@),
{
    proof {
        reveal_strlit(" cents");
    }
    if dc_applies_x(low, " united states dollars and ") {
        return dc_result_x(low, " united states dollars and ");
    }
    if dc_applies_x(low, " dollar and ") {
        return dc_result_x(low, " dollar and ");
    }
    if dc_applies_x(low, " dollars and ") {
        return dc_result_x(low, " dollars and ");
    }
    match text::split2_x(low, " dollars ") {
        Some((d, rest)) => {
            if text::ends_with_str(&rest, " cents") {
                let cw = text::strip_suffix_all_x(&rest, " cents");
                let dv = match wv_chars(&d) {
                    Some(n) => n,
                    None => {
                        return None;
                    },
                };
                let cv = match wv_chars(&cw) {
                    Some(n) => n,
                    None => {
                        return None;
                    },
                };
                return Some(fmt_dollars_cents_x(dv, cv));
            }
            let cv = match wv_chars(&rest) {
                Some(n) => n,
                None => {
                    return None;
                },
            };
            if 0 < cv && cv < 100 {
                let dv = match wv_chars(&d) {
                    Some(n) => n,
                    None => {
                        return None;
                    },
                };
                Some(fmt_dollars_cents_x(dv, cv))
            } else {
                None
            }
        },
        None => None,
    }
}

// ---------------------------------------------------------------------------
// Plain dollars and the shorthand money number
// ---------------------------------------------------------------------------

/// The shorthand money number: "X hundred" at the end multiplies the prefix
/// by 100 ("ninety nine hundred" is 9900); a leading single digit before a
/// two-digit compound reads positionally ("one fifty five" is 155);
/// otherwise the ordinary cardinal value.
pub open spec fn money_number_spec(s: Seq<char>) -> Option<int> {
    let toks = tokens_of(s);
    if toks.len() >= 2 && toks[toks.len() - 1] == "hundred"@ && cardinal::words_value_i128(
        text::join_range(toks, 0, toks.len() - 1),
    ) is Some {
        let n = cardinal::words_value_i128(text::join_range(toks, 0, toks.len() - 1))->Some_0;
        if n * 100 <= u128::MAX {
            Some(n * 100)
        } else {
            None
        }
    } else if toks.len() >= 2 && is_digit_word_1_9(toks[0]) && (match cardinal::words_value_i128(
        text::join_range(toks, 1, toks.len() as int),
    ) {
        Some(t) => 10 <= t <= 99,
        None => false,
    }) {
        let first = digit_word_1_9_val(toks[0]);
        let t = cardinal::words_value_i128(text::join_range(toks, 1, toks.len() as int))->Some_0;
        Some(first * 100 + t)
    } else {
        cardinal::words_value_i128(s)
    }
}

pub open spec fn is_digit_word_1_9(t: Seq<char>) -> bool {
    t == "one"@ || t == "two"@ || t == "three"@ || t == "four"@ || t == "five"@ || t == "six"@
        || t == "seven"@ || t == "eight"@ || t == "nine"@
}

pub open spec fn digit_word_1_9_val(t: Seq<char>) -> int {
    match cardinal::ones_val(t) {
        Some(v) => v,
        None => 0,
    }
}

fn money_number_x(s: &Vec<char>) -> (r: Option<u128>)
    ensures
        match r {
            Some(n) => money_number_spec(s@) == Some(n as int),
            None => money_number_spec(s@) is None,
        },
{
    let toks = text::tokenize(s);
    if toks.len() >= 2 {
        proof {
            assert(toks.deep_view()[toks@.len() - 1] == toks@[toks@.len() - 1]@);
            assert(toks.deep_view()[0] == toks@[0]@);
        }
        if text::eq_str(&toks[toks.len() - 1], "hundred") {
            let prefix = text::join_tokens(&toks, 0, toks.len() - 1);
            if let Some(n) = wv_chars(&prefix) {
                return n.checked_mul(100);
            }
        }
        let first_ok = text::eq_str(&toks[0], "one") || text::eq_str(&toks[0], "two")
            || text::eq_str(&toks[0], "three") || text::eq_str(&toks[0], "four") || text::eq_str(
            &toks[0],
            "five",
        ) || text::eq_str(&toks[0], "six") || text::eq_str(&toks[0], "seven") || text::eq_str(
            &toks[0],
            "eight",
        ) || text::eq_str(&toks[0], "nine");
        if first_ok {
            let rest = text::join_tokens(&toks, 1, toks.len());
            if let Some(t) = wv_chars(&rest) {
                if 10 <= t && t <= 99 {
                    let first = match cardinal::ones_x(&toks[0]) {
                        Some(v) => v,
                        None => 0,
                    };
                    return Some(first * 100 + t);
                }
            }
        }
    }
    wv_chars(s)
}

/// "one dollar" -> "$1", "X dollars" -> "$X" with the shorthand number.
pub open spec fn dollars_spec(low: Seq<char>) -> Option<Seq<char>> {
    if low == "one dollar"@ {
        Some("$1"@)
    } else if ends_with(low, " dollar"@) {
        match money_number_spec(strip_suffix_all(low, " dollar"@)) {
            Some(n) => Some(seq!['$'] + dec_rep(n)),
            None => None,
        }
    } else if ends_with(low, " dollars"@) {
        match money_number_spec(strip_suffix_all(low, " dollars"@)) {
            Some(n) => Some(seq!['$'] + dec_rep(n)),
            None => None,
        }
    } else {
        None
    }
}

fn dollars_x(low: &Vec<char>) -> (r: Option<Vec<char>>)
    ensures
        view_opt_chars(r) == dollars_spec(low@),
{
    proof {
        reveal_strlit(" dollar");
        reveal_strlit(" dollars");
    }
    if text::eq_str(low, "one dollar") {
        return Some(text::str_to_chars("$1"));
    }
    let num_part = if text::ends_with_str(low, " dollar") {
        text::strip_suffix_all_x(low, " dollar")
    } else if text::ends_with_str(low, " dollars") {
        text::strip_suffix_all_x(low, " dollars")
    } else {
        return None;
    };
    match money_number_x(&num_part) {
        Some(n) => {
            let mut out: Vec<char> = Vec::new();
            out.push('$');
            let dd = text::dec_u128(n);
            text::push_all(&mut out, &dd);
            proof {
                assert(out@ =~= seq!['$'] + dec_rep(n as int));
            }
            Some(out)
        },
        None => None,
    }
}

// ---------------------------------------------------------------------------
// Cents alone
// ---------------------------------------------------------------------------

/// "one cent" -> "$0.01", "X cents" -> "$0.XX".
pub open spec fn cents_spec(low: Seq<char>) -> Option<Seq<char>> {
    if low == "one cent"@ {
        Some("$0.01"@)
    } else if ends_with(low, " cents"@) {
        match cardinal::words_value_i128(strip_suffix_all(low, " cents"@)) {
            Some(c) => Some(seq!['$'] + seq!['0'] + seq!['.'] + dec2_rep(c)),
            None => None,
        }
    } else {
        None
    }
}

fn cents_x(low: &Vec<char>) -> (r: Option<Vec<char>>)
    ensures
        view_opt_chars(r) == cents_spec(low@),
{
    proof {
        reveal_strlit(" cents");
    }
    if text::eq_str(low, "one cent") {
        return Some(text::str_to_chars("$0.01"));
    }
    if !text::ends_with_str(low, " cents") {
        return None;
    }
    let num_part = text::strip_suffix_all_x(low, " cents");
    match wv_chars(&num_part) {
        Some(c) => {
            let mut out: Vec<char> = Vec::new();
            out.push('$');
            out.push('0');
            out.push('.');
            let cc = text::dec2_u128(c);
            text::push_all(&mut out, &cc);
            proof {
                assert(out@ =~= seq!['$'] + seq!['0'] + seq!['.'] + dec2_rep(c as int));
            }
            Some(out)
        },
        None => None,
    }
}

// ---------------------------------------------------------------------------
// The tagger
// ---------------------------------------------------------------------------

/// The written form of a spoken money expression; "one dollars" is
/// ungrammatical and declined.
pub open spec fn money_spec(s: Seq<char>) -> Option<Seq<char>> {
    let orig = trim_seq(s);
    let low = lower_seq(orig);
    if low == "one dollars"@ {
        None
    } else {
        match other_currency_spec(low) {
            Some(r) => Some(r),
            None => match large_currency_spec(orig, low) {
                Some(r) => Some(r),
                None => match decimal_dollars_spec(low) {
                    Some(r) => Some(r),
                    None => match dollars_cents_spec(low) {
                        Some(r) => Some(r),
                        None => match dollars_spec(low) {
                            Some(r) => Some(r),
                            None => cents_spec(low),
                        },
                    },
                },
            },
        }
    }
}

fn other_currency_x(low: &Vec<char>) -> (r: Option<Vec<char>>)
    ensures
        view_opt_chars(r) == other_currency_spec(low@),
{
    proof {
        reveal_strlit(" trillion won");
        reveal_strlit(" billion won");
        reveal_strlit(" million won");
        reveal_strlit(" trillion yen");
        reveal_strlit(" billion yen");
        reveal_strlit(" million yen");
        reveal_strlit(" trillion yuan");
        reveal_strlit(" billion yuan");
        reveal_strlit(" million yuan");
    }
    if text::ends_with_str(low, " trillion won") {
        won_yen_tail_x(low, " trillion won", '₩', "trillion")
    } else if text::ends_with_str(low, " billion won") {
        won_yen_tail_x(low, " billion won", '₩', "billion")
    } else if text::ends_with_str(low, " million won") {
        won_yen_tail_x(low, " million won", '₩', "million")
    } else if text::ends_with_str(low, " trillion yen") {
        won_yen_tail_x(low, " trillion yen", '¥', "trillion")
    } else if text::ends_with_str(low, " billion yen") {
        won_yen_tail_x(low, " billion yen", '¥', "billion")
    } else if text::ends_with_str(low, " million yen") {
        won_yen_tail_x(low, " million yen", '¥', "million")
    } else if text::ends_with_str(low, " trillion yuan") {
        yuan_tail_x(low, " trillion yuan", "trillion")
    } else if text::ends_with_str(low, " billion yuan") {
        yuan_tail_x(low, " billion yuan", "billion")
    } else if text::ends_with_str(low, " million yuan") {
        yuan_tail_x(low, " million yuan", "million")
    } else {
        None
    }
}

fn large_currency_x(orig: &Vec<char>, low: &Vec<char>) -> (r: Option<Vec<char>>)
    requires
        orig@.len() == low@.len(),
    ensures
        view_opt_chars(r) == large_currency_spec(orig@, low@),
{
    proof {
        reveal_strlit(" trillion dollars");
        reveal_strlit(" billion dollars");
        reveal_strlit(" million dollars");
    }
    if text::ends_with_str(low, " trillion dollars") {
        large_tail_x(orig, low, 8)
    } else if text::ends_with_str(low, " billion dollars") {
        large_tail_x(orig, low, 7)
    } else if text::ends_with_str(low, " million dollars") {
        large_tail_x(orig, low, 7)
    } else {
        None
    }
}

/// Character-vector form of [`parse`].
pub fn parse_chars(cv: &Vec<char>) -> (r: Option<Vec<char>>)
    ensures
        view_opt_chars(r) == money_spec(cv@),
{
    let orig = text::trim_chars(cv);
    let low = text::lower_chars(&orig);
    if text::eq_str(&low, "one dollars") {
        return None;
    }
    if let Some(r) = other_currency_x(&low) {
        return Some(r);
    }
    if let Some(r) = large_currency_x(&orig, &low) {
        return Some(r);
    }
    if let Some(r) = decimal_dollars_x(&low) {
        return Some(r);
    }
    if let Some(r) = dollars_cents_x(&low) {
        return Some(r);
    }
    if let Some(r) = dollars_x(&low) {
        return Some(r);
    }
    cents_x(&low)
}

/// Parse a spoken money expression to its written form.
pub fn parse(input: &str) -> (r: Option<String>)
    ensures
        view_opt_str(r) == money_spec(input@),
{
    let cv = text::str_to_chars(input);
    match parse_chars(&cv) {
        Some(out) => Some(text::chars_to_string(&out)),
        None => None,
    }
}

} // verus!
