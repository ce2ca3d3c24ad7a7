//! Ordinal number tagger: spoken ordinals to written form.
//!
//! "first" -> "1st", "twenty first" -> "21st", "one hundredth" -> "100th".

use vstd::prelude::*;

use crate::taggers::cardinal;
use crate::text;
use crate::text::{dec_rep, join_range, lower_seq, tokens_of, view_opt_chars, view_opt_str};

verus! {

/// Value of an ordinal ones or teens word ("zeroth" through "nineteenth").
pub open spec fn ord_ones_val(t: Seq<char>) -> Option<int> {
    if t == "zeroth"@ {
        Some(0)
    } else if t == "first"@ {
        Some(1)
    } else if t == "second"@ {
        Some(2)
    } else if t == "third"@ {
        Some(3)
    } else if t == "fourth"@ {
        Some(4)
    } else if t == "fifth"@ {
        Some(5)
    } else if t == "sixth"@ {
        Some(6)
    } else if t == "seventh"@ {
        Some(7)
    } else if t == "eighth"@ {
        Some(8)
    } else if t == "ninth"@ {
        Some(9)
    } else if t == "tenth"@ {
        Some(10)
    } else if t == "eleventh"@ {
        Some(11)
    } else if t == "twelfth"@ {
        Some(12)
    } else if t == "thirteenth"@ {
        Some(13)
    } else if t == "fourteenth"@ {
        Some(14)
    } else if t == "fifteenth"@ {
        Some(15)
    } else if t == "sixteenth"@ {
        Some(16)
    } else if t == "seventeenth"@ {
        Some(17)
    } else if t == "eighteenth"@ {
        Some(18)
    } else if t == "nineteenth"@ {
        Some(19)
    } else {
        None
    }
}

/// Value of an ordinal tens word ("twentieth" through "ninetieth").
pub open spec fn ord_tens_val(t: Seq<char>) -> Option<int> {
    if t == "twentieth"@ {
        Some(20)
    } else if t == "thirtieth"@ {
        Some(30)
    } else if t == "fortieth"@ {
        Some(40)
    } else if t == "fiftieth"@ {
        Some(50)
    } else if t == "sixtieth"@ {
        Some(60)
    } else if t == "seventieth"@ {
        Some(70)
    } else if t == "eightieth"@ {
        Some(80)
    } else if t == "ninetieth"@ {
        Some(90)
    } else {
        None
    }
}

/// Value of an ordinal scale word ("hundredth" through "billionth").
pub open spec fn ord_scale_val(t: Seq<char>) -> Option<int> {
    if t == "hundredth"@ {
        Some(100)
    } else if t == "thousandth"@ {
        Some(1000)
    } else if t == "millionth"@ {
        Some(1000000)
    } else if t == "billionth"@ {
        Some(1000000000)
    } else {
        None
    }
}

/// Value of any ordinal word.
pub open spec fn ord_val(t: Seq<char>) -> Option<int> {
    match ord_ones_val(t) {
        Some(v) => Some(v),
        None => match ord_tens_val(t) {
            Some(v) => Some(v),
            None => ord_scale_val(t),
        },
    }
}

fn ord_ones_x(t: &Vec<char>) -> (r: Option<u128>)
    ensures
        match r {
            Some(v) => ord_ones_val(t@) == Some(v as int),
            None => ord_ones_val(t@) is None,
        },
{
    if text::eq_str(t, "zeroth") {
        Some(0)
    } else if text::eq_str(t, "first") {
        Some(1)
    } else if text::eq_str(t, "second") {
        Some(2)
    } else if text::eq_str(t, "third") {
        Some(3)
    } else if text::eq_str(t, "fourth") {
        Some(4)
    } else if text::eq_str(t, "fifth") {
        Some(5)
    } else if text::eq_str(t, "sixth") {
        Some(6)
    } else if text::eq_str(t, "seventh") {
        Some(7)
    } else if text::eq_str(t, "eighth") {
        Some(8)
    } else if text::eq_str(t, "ninth") {
        Some(9)
    } else if text::eq_str(t, "tenth") {
        Some(10)
    } else if text::eq_str(t, "eleventh") {
        Some(11)
    } else if text::eq_str(t, "twelfth") {
        Some(12)
    } else if text::eq_str(t, "thirteenth") {
        Some(13)
    } else if text::eq_str(t, "fourteenth") {
        Some(14)
    } else if text::eq_str(t, "fifteenth") {
        Some(15)
    } else if text::eq_str(t, "sixteenth") {
        Some(16)
    } else if text::eq_str(t, "seventeenth") {
        Some(17)
    } else if text::eq_str(t, "eighteenth") {
        Some(18)
    } else if text::eq_str(t, "nineteenth") {
        Some(19)
    } else {
        None
    }
}

fn ord_tens_x(t: &Vec<char>) -> (r: Option<u128>)
    ensures
        match r {
            Some(v) => ord_tens_val(t@) == Some(v as int),
            None => ord_tens_val(t@) is None,
        },
{
    if text::eq_str(t, "twentieth") {
        Some(20)
    } else if text::eq_str(t, "thirtieth") {
        Some(30)
    } else if text::eq_str(t, "fortieth") {
        Some(40)
    } else if text::eq_str(t, "fiftieth") {
        Some(50)
    } else if text::eq_str(t, "sixtieth") {
        Some(60)
    } else if text::eq_str(t, "seventieth") {
        Some(70)
    } else if text::eq_str(t, "eightieth") {
        Some(80)
    } else if text::eq_str(t, "ninetieth") {
        Some(90)
    } else {
        None
    }
}

fn ord_scale_x(t: &Vec<char>) -> (r: Option<u128>)
    ensures
        match r {
            Some(v) => ord_scale_val(t@) == Some(v as int),
            None => ord_scale_val(t@) is None,
        },
{
    if text::eq_str(t, "hundredth") {
        Some(100)
    } else if text::eq_str(t, "thousandth") {
        Some(1000)
    } else if text::eq_str(t, "millionth") {
        Some(1000000)
    } else if text::eq_str(t, "billionth") {
        Some(1000000000)
    } else {
        None
    }
}

/// The English suffix of the ordinal `n`: 11, 12, 13 modulo 100 take "th";
/// otherwise the last digit decides (1 "st", 2 "nd", 3 "rd", else "th").
pub open spec fn ordinal_suffix(n: int) -> Seq<char> {
    if n % 100 == 11 || n % 100 == 12 || n % 100 == 13 {
        "th"@
    } else if n % 10 == 1 {
        "st"@
    } else if n % 10 == 2 {
        "nd"@
    } else if n % 10 == 3 {
        "rd"@
    } else {
        "th"@
    }
}

/// Digits of `n` followed by its English ordinal suffix.
pub open spec fn format_ordinal(n: int) -> Seq<char> {
    dec_rep(n) + ordinal_suffix(n)
}

pub fn format_ordinal_x(n: u128) -> (out: Vec<char>)
    ensures
        out@ == format_ordinal(n as int),
{
    let mut out = text::dec_u128(n);
    let m100 = n % 100;
    let m10 = n % 10;
    if m100 == 11 || m100 == 12 || m100 == 13 {
        text::push_str_chars(&mut out, "th");
    } else if m10 == 1 {
        text::push_str_chars(&mut out, "st");
    } else if m10 == 2 {
        text::push_str_chars(&mut out, "nd");
    } else if m10 == 3 {
        text::push_str_chars(&mut out, "rd");
    } else {
        text::push_str_chars(&mut out, "th");
    }
    out
}

/// The written form of a spoken ordinal: the last word must be an ordinal;
/// a scale ordinal multiplies the cardinal prefix, any other ordinal is
/// added to it.
pub open spec fn ordinal_spec(s: Seq<char>) -> Option<Seq<char>> {
    let toks = tokens_of(lower_seq(s));
    if toks.len() == 0 {
        None
    } else {
        let lastw = toks[toks.len() - 1];
        match ord_val(lastw) {
            None => None,
            Some(ov) => if toks.len() == 1 {
                Some(format_ordinal(ov))
            } else {
                let prefix = join_range(toks, 0, toks.len() - 1);
                match cardinal::words_value_i128(prefix) {
                    None => None,
                    Some(pv) => match ord_scale_val(lastw) {
                        Some(sc) => if pv * sc <= u128::MAX {
                            Some(format_ordinal(pv * sc))
                        } else {
                            None
                        },
                        None => if pv + ov <= u128::MAX {
                            Some(format_ordinal(pv + ov))
                        } else {
                            None
                        },
                    },
                }
            },
        }
    }
}

/// Character-vector form of [`parse`].
pub fn parse_chars(cv: &Vec<char>) -> (r: Option<Vec<char>>)
    ensures
        view_opt_chars(r) == ordinal_spec(cv@),
{
    let low = text::lower_chars(cv);
    let toks = text::tokenize(&low);
    if toks.len() == 0 {
        return None;
    }
    let lastw = &toks[toks.len() - 1];
    proof {
        assert(toks.deep_view()[toks@.len() - 1] == toks@[toks@.len() - 1]@);
    }
    let ov = match ord_ones_x(lastw) {
        Some(v) => v,
        None => match ord_tens_x(lastw) {
            Some(v) => v,
            None => match ord_scale_x(lastw) {
                Some(v) => v,
                None => {
                    return None;
                },
            },
        },
    };
    if toks.len() == 1 {
        return Some(format_ordinal_x(ov));
    }
    let prefix = text::join_tokens(&toks, 0, toks.len() - 1);
    let pv = match cardinal::words_value_chars(&prefix) {
        Some(n) => if n <= i128::MAX as u128 {
            n
        } else {
            return None;
        },
        None => {
            return None;
        },
    };
    match ord_scale_x(lastw) {
        Some(sc) => match pv.checked_mul(sc) {
            Some(v) => Some(format_ordinal_x(v)),
            None => None,
        },
        None => match pv.checked_add(ov) {
            Some(v) => Some(format_ordinal_x(v)),
            None => None,
        },
    }
}

/// Parse a spoken ordinal to its written form.
pub fn parse(input: &str) -> (r: Option<String>)
    ensures
        view_opt_str(r) == ordinal_spec(input@),
{
    let cv = text::str_to_chars(input);
    match parse_chars(&cv) {
        Some(out) => Some(text::chars_to_string(&out)),
        None => None,
    }
}

} // verus!
