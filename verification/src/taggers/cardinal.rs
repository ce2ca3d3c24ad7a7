//! Cardinal number tagger: spoken number words to digits.
//!
//! "one" -> "1", "twenty one" -> "21", "one hundred twenty three" -> "123",
//! "minus sixty" -> "-60". The word "zero" is kept as the literal "zero".

use vstd::prelude::*;

use crate::text;
use crate::text::{
    dec_rep, drop_conj, lower_seq, starts_with, tokens_of, trim_seq, view_opt_chars, view_opt_str,
};

verus! {

// ---------------------------------------------------------------------------
// Lexicons
// ---------------------------------------------------------------------------

/// Value of a ones or teens word ("zero" through "nineteen").
pub open spec fn ones_val(t: Seq<char>) -> Option<int> {
    if t == "zero"@ {
        Some(0)
    } else if t == "one"@ {
        Some(1)
    } else if t == "two"@ {
        Some(2)
    } else if t == "three"@ {
        Some(3)
    } else if t == "four"@ {
        Some(4)
    } else if t == "five"@ {
        Some(5)
    } else if t == "six"@ {
        Some(6)
    } else if t == "seven"@ {
        Some(7)
    } else if t == "eight"@ {
        Some(8)
    } else if t == "nine"@ {
        Some(9)
    } else if t == "ten"@ {
        Some(10)
    } else if t == "eleven"@ {
        Some(11)
    } else if t == "twelve"@ {
        Some(12)
    } else if t == "thirteen"@ {
        Some(13)
    } else if t == "fourteen"@ {
        Some(14)
    } else if t == "fifteen"@ {
        Some(15)
    } else if t == "sixteen"@ {
        Some(16)
    } else if t == "seventeen"@ {
        Some(17)
    } else if t == "eighteen"@ {
        Some(18)
    } else if t == "nineteen"@ {
        Some(19)
    } else {
        None
    }
}

/// Value of a tens word ("twenty" through "ninety").
pub open spec fn tens_val(t: Seq<char>) -> Option<int> {
    if t == "twenty"@ {
        Some(20)
    } else if t == "thirty"@ {
        Some(30)
    } else if t == "forty"@ {
        Some(40)
    } else if t == "fifty"@ {
        Some(50)
    } else if t == "sixty"@ {
        Some(60)
    } else if t == "seventy"@ {
        Some(70)
    } else if t == "eighty"@ {
        Some(80)
    } else if t == "ninety"@ {
        Some(90)
    } else {
        None
    }
}

/// Value of a scale word ("hundred" through "sextillion", plus the Indian
/// "lakh" and "crore").
pub open spec fn scale_val(t: Seq<char>) -> Option<int> {
    if t == "hundred"@ {
        Some(100)
    } else if t == "thousand"@ {
        Some(1000)
    } else if t == "million"@ {
        Some(1000000)
    } else if t == "billion"@ {
        Some(1000000000)
    } else if t == "trillion"@ {
        Some(1000000000000)
    } else if t == "quadrillion"@ {
        Some(1000000000000000)
    } else if t == "quintillion"@ {
        Some(1000000000000000000)
    } else if t == "sextillion"@ {
        Some(1000000000000000000000)
    } else if t == "lakh"@ {
        Some(100000)
    } else if t == "crore"@ {
        Some(10000000)
    } else {
        None
    }
}

pub fn ones_x(t: &Vec<char>) -> (r: Option<u128>)
    ensures
        match r {
            Some(v) => ones_val(t@) == Some(v as int),
            None => ones_val(t@) is None,
        },
{
    if text::eq_str(t, "zero") {
        Some(0)
    } else if text::eq_str(t, "one") {
        Some(1)
    } else if text::eq_str(t, "two") {
        Some(2)
    } else if text::eq_str(t, "three") {
        Some(3)
    } else if text::eq_str(t, "four") {
        Some(4)
    } else if text::eq_str(t, "five") {
        Some(5)
    } else if text::eq_str(t, "six") {
        Some(6)
    } else if text::eq_str(t, "seven") {
        Some(7)
    } else if text::eq_str(t, "eight") {
        Some(8)
    } else if text::eq_str(t, "nine") {
        Some(9)
    } else if text::eq_str(t, "ten") {
        Some(10)
    } else if text::eq_str(t, "eleven") {
        Some(11)
    } else if text::eq_str(t, "twelve") {
        Some(12)
    } else if text::eq_str(t, "thirteen") {
        Some(13)
    } else if text::eq_str(t, "fourteen") {
        Some(14)
    } else if text::eq_str(t, "fifteen") {
        Some(15)
    } else if text::eq_str(t, "sixteen") {
        Some(16)
    } else if text::eq_str(t, "seventeen") {
        Some(17)
    } else if text::eq_str(t, "eighteen") {
        Some(18)
    } else if text::eq_str(t, "nineteen") {
        Some(19)
    } else {
        None
    }
}

pub fn tens_x(t: &Vec<char>) -> (r: Option<u128>)
    ensures
        match r {
            Some(v) => tens_val(t@) == Some(v as int),
            None => tens_val(t@) is None,
        },
{
    if text::eq_str(t, "twenty") {
        Some(20)
    } else if text::eq_str(t, "thirty") {
        Some(30)
    } else if text::eq_str(t, "forty") {
        Some(40)
    } else if text::eq_str(t, "fifty") {
        Some(50)
    } else if text::eq_str(t, "sixty") {
        Some(60)
    } else if text::eq_str(t, "seventy") {
        Some(70)
    } else if text::eq_str(t, "eighty") {
        Some(80)
    } else if text::eq_str(t, "ninety") {
        Some(90)
    } else {
        None
    }
}

pub fn scales_x(t: &Vec<char>) -> (r: Option<u128>)
    ensures
        match r {
            Some(v) => scale_val(t@) == Some(v as int),
            None => scale_val(t@) is None,
        },
{
    if text::eq_str(t, "hundred") {
        Some(100)
    } else if text::eq_str(t, "thousand") {
        Some(1000)
    } else if text::eq_str(t, "million") {
        Some(1000000)
    } else if text::eq_str(t, "billion") {
        Some(1000000000)
    } else if text::eq_str(t, "trillion") {
        Some(1000000000000)
    } else if text::eq_str(t, "quadrillion") {
        Some(1000000000000000)
    } else if text::eq_str(t, "quintillion") {
        Some(1000000000000000000)
    } else if text::eq_str(t, "sextillion") {
        Some(1000000000000000000000)
    } else if text::eq_str(t, "lakh") {
        Some(100000)
    } else if text::eq_str(t, "crore") {
        Some(10000000)
    } else {
        None
    }
}

// ---------------------------------------------------------------------------
// The accumulator
// ---------------------------------------------------------------------------

/// Left-to-right accumulation over the tokens from position `i`.
///
/// Ones and tens add into `current`; "hundred" multiplies `current` by 100
/// (an empty `current` counts as 1); a scale of at least 1000 multiplies
/// `current` and moves it into `result`. An unknown token fails, and a sum
/// or product beyond `u128::MAX` fails.
pub open spec fn acc_from(
    toks: Seq<Seq<char>>,
    i: int,
    result: int,
    current: int,
    found: bool,
) -> Option<int>
    decreases toks.len() - i,
{
    if i < 0 || i >= toks.len() {
        if found && result + current <= u128::MAX {
            Some(result + current)
        } else {
            None
        }
    } else {
        let w = toks[i];
        match ones_val(w) {
            Some(v) => if current + v <= u128::MAX {
                acc_from(toks, i + 1, result, current + v, true)
            } else {
                None
            },
            None => match tens_val(w) {
                Some(v) => if current + v <= u128::MAX {
                    acc_from(toks, i + 1, result, current + v, true)
                } else {
                    None
                },
                None => if w == "hundred"@ {
                    let c = if current == 0 {
                        1
                    } else {
                        current
                    };
                    if c * 100 <= u128::MAX {
                        acc_from(toks, i + 1, result, c * 100, true)
                    } else {
                        None
                    }
                } else {
                    match scale_val(w) {
                        Some(sc) => if sc >= 1000 {
                            let c = if current == 0 {
                                1
                            } else {
                                current
                            };
                            if c * sc <= u128::MAX && result + c * sc <= u128::MAX {
                                acc_from(toks, i + 1, result + c * sc, 0, true)
                            } else {
                                None
                            }
                        } else {
                            acc_from(toks, i + 1, result, current, found)
                        },
                        None => None,
                    }
                },
            },
        }
    }
}

fn acc_from_x(toks: &Vec<Vec<char>>, i: usize, result: u128, current: u128, found: bool) -> (r:
    Option<u128>)
    requires
        i <= toks.len(),
    ensures
        match r {
            Some(v) => acc_from(toks.deep_view(), i as int, result as int, current as int, found)
                == Some(v as int),
            None => acc_from(toks.deep_view(), i as int, result as int, current as int, found)
                is None,
        },
    decreases toks.len() - i,
{
    if i >= toks.len() {
        if found {
            return result.checked_add(current);
        }
        return None;
    }
    let w = &toks[i];
    proof {
        assert(toks.deep_view()[i as int] == toks@[i as int]@);
    }
    if let Some(v) = ones_x(w) {
        match current.checked_add(v) {
            Some(c2) => acc_from_x(toks, i + 1, result, c2, true),
            None => None,
        }
    } else if let Some(v) = tens_x(w) {
        match current.checked_add(v) {
            Some(c2) => acc_from_x(toks, i + 1, result, c2, true),
            None => None,
        }
    } else if text::eq_str(w, "hundred") {
        let c: u128 = if current == 0 {
            1
        } else {
            current
        };
        match c.checked_mul(100) {
            Some(c2) => acc_from_x(toks, i + 1, result, c2, true),
            None => None,
        }
    } else if let Some(sc) = scales_x(w) {
        if sc >= 1000 {
            let c: u128 = if current == 0 {
                1
            } else {
                current
            };
            match c.checked_mul(sc) {
                Some(p) => match result.checked_add(p) {
                    Some(r2) => acc_from_x(toks, i + 1, r2, 0, true),
                    None => None,
                },
                None => None,
            }
        } else {
            acc_from_x(toks, i + 1, result, current, found)
        }
    } else {
        None
    }
}

// ---------------------------------------------------------------------------
// Token-list value, with the "eleven hundred" repairs
// ---------------------------------------------------------------------------

/// Value of the token list from position `i`.
///
/// A leading pair "X hundred" where X is a teens word (11-19) or a tens word
/// stands for X*100, optionally followed by a remainder ("eleven hundred
/// twenty one" is 1121); otherwise the general accumulator decides.
pub open spec fn toks_val(toks: Seq<Seq<char>>, i: int) -> Option<int>
    decreases toks.len() - i,
{
    let n = toks.len() - i;
    if i < 0 || n <= 0 {
        None
    } else if n >= 2 && toks[i + 1] == "hundred"@ && (match ones_val(toks[i]) {
        Some(v) => 11 <= v <= 99,
        None => false,
    }) {
        let v = ones_val(toks[i])->Some_0;
        if n == 2 {
            Some(v * 100)
        } else {
            match toks_val(toks, i + 2) {
                Some(rem) => if v * 100 + rem <= u128::MAX {
                    Some(v * 100 + rem)
                } else {
                    None
                },
                None => acc_from(toks, i, 0, 0, false),
            }
        }
    } else if n >= 2 && toks[i + 1] == "hundred"@ && tens_val(toks[i]) is Some {
        let v = tens_val(toks[i])->Some_0;
        if n == 2 {
            Some(v * 100)
        } else {
            match toks_val(toks, i + 2) {
                Some(rem) => if v * 100 + rem <= u128::MAX {
                    Some(v * 100 + rem)
                } else {
                    None
                },
                None => acc_from(toks, i, 0, 0, false),
            }
        }
    } else {
        acc_from(toks, i, 0, 0, false)
    }
}

fn toks_val_x(toks: &Vec<Vec<char>>, i: usize) -> (r: Option<u128>)
    requires
        i <= toks.len(),
    ensures
        match r {
            Some(v) => toks_val(toks.deep_view(), i as int) == Some(v as int),
            None => toks_val(toks.deep_view(), i as int) is None,
        },
    decreases toks.len() - i,
{
    if i >= toks.len() {
        return None;
    }
    proof {
        assert(toks.deep_view()[i as int] == toks@[i as int]@);
        if i + 1 < toks.len() {
            assert(toks.deep_view()[i + 1 as int] == toks@[i + 1 as int]@);
        }
    }
    if i + 1 < toks.len() && text::eq_str(&toks[i + 1], "hundred") {
        if let Some(v) = ones_x(&toks[i]) {
            if 11 <= v && v <= 99 {
                if toks.len() - i == 2 {
                    return Some(v * 100);
                }
                match toks_val_x(toks, i + 2) {
                    Some(rem) => {
                        return match (v * 100).checked_add(rem) {
                            Some(t) => Some(t),
                            None => None,
                        };
                    },
                    None => {
                        return acc_from_x(toks, i, 0, 0, false);
                    },
                }
            }
        }
        if let Some(v) = tens_x(&toks[i]) {
            if toks.len() - i == 2 {
                return Some(v * 100);
            }
            match toks_val_x(toks, i + 2) {
                Some(rem) => {
                    return match (v * 100).checked_add(rem) {
                        Some(t) => Some(t),
                        None => None,
                    };
                },
                None => {
                    return acc_from_x(toks, i, 0, 0, false);
                },
            }
        }
    }
    acc_from_x(toks, i, 0, 0, false)
}

// ---------------------------------------------------------------------------
// Words to number
// ---------------------------------------------------------------------------

/// Value of a whole phrase: lowercase, tokenize, drop the conjunctions
/// "and" and "a", then evaluate the token list.
pub open spec fn words_value(s: Seq<char>) -> Option<int> {
    toks_val(drop_conj(tokens_of(lower_seq(s)), 0), 0)
}

/// `words_value`, held to the `i128` range of the public interface.
pub open spec fn words_value_i128(s: Seq<char>) -> Option<int> {
    match words_value(s) {
        Some(v) => if v <= i128::MAX {
            Some(v)
        } else {
            None
        },
        None => None,
    }
}

/// Token-filtered evaluation over a character vector.
pub fn words_value_chars(v: &Vec<char>) -> (r: Option<u128>)
    ensures
        match r {
            Some(n) => words_value(v@) == Some(n as int),
            None => words_value(v@) is None,
        },
{
    let low = text::lower_chars(v);
    let toks = text::tokenize(&low);
    let ft = text::drop_conj_x(&toks);
    toks_val_x(&ft, 0)
}

/// Convert spoken number words to an integer.
///
/// Unknown words fail; "and" and "a" are dropped as conjunctions.
pub fn words_to_number(input: &str) -> (r: Option<i128>)
    ensures
        match r {
            Some(n) => words_value_i128(input@) == Some(n as int),
            None => words_value_i128(input@) is None,
        },
{
    let cv = text::str_to_chars(input);
    match words_value_chars(&cv) {
        Some(n) => if n <= i128::MAX as u128 {
            Some(n as i128)
        } else {
            None
        },
        None => None,
    }
}

// ---------------------------------------------------------------------------
// The public tagger
// ---------------------------------------------------------------------------

/// The written form of a spoken cardinal: "zero" stays "zero"; an optional
/// "minus " or "negative " prefix gives a leading '-'; otherwise the decimal
/// digits of the phrase's value.
pub open spec fn cardinal_spec(s: Seq<char>) -> Option<Seq<char>> {
    let low = trim_seq(lower_seq(s));
    if low == "zero"@ {
        Some("zero"@)
    } else if starts_with(low, "minus "@) {
        match words_value_i128(low.subrange(6, low.len() as int)) {
            Some(n) => Some(seq!['-'] + dec_rep(n)),
            None => None,
        }
    } else if starts_with(low, "negative "@) {
        match words_value_i128(low.subrange(9, low.len() as int)) {
            Some(n) => Some(seq!['-'] + dec_rep(n)),
            None => None,
        }
    } else {
        match words_value_i128(low) {
            Some(n) => Some(dec_rep(n)),
            None => None,
        }
    }
}

/// Character-vector form of [`parse`].
pub fn parse_chars(cv: &Vec<char>) -> (r: Option<Vec<char>>)
    ensures
        view_opt_chars(r) == cardinal_spec(cv@),
{
    let lowv = text::lower_chars(cv);
    let low = text::trim_chars(&lowv);
    if text::eq_str(&low, "zero") {
        let out = text::str_to_chars("zero");
        return Some(out);
    }
    proof {
        reveal_strlit("minus ");
        reveal_strlit("negative ");
    }
    let (neg, rest) = if text::starts_with_str(&low, "minus ") {
        (true, text::copy_range(&low, 6, low.len()))
    } else if text::starts_with_str(&low, "negative ") {
        (true, text::copy_range(&low, 9, low.len()))
    } else {
        (false, text::copy_range(&low, 0, low.len()))
    };
    proof {
        assert(low@.subrange(0, low@.len() as int) =~= low@);
    }
    let n = match words_value_chars(&rest) {
        Some(n) => if n <= i128::MAX as u128 {
            n
        } else {
            return None;
        },
        None => {
            return None;
        },
    };
    let digits = text::dec_u128(n);
    if neg {
        let mut out: Vec<char> = Vec::new();
        out.push('-');
        text::push_all(&mut out, &digits);
        proof {
            assert(out@ =~= seq!['-'] + dec_rep(n as int));
        }
        Some(out)
    } else {
        Some(digits)
    }
}

/// Parse a spoken cardinal number to its written form.
///
/// Returns `None` if the input cannot be read as a number.
pub fn parse(input: &str) -> (r: Option<String>)
    ensures
        view_opt_str(r) == cardinal_spec(input@),
{
    let cv = text::str_to_chars(input);
    match parse_chars(&cv) {
        Some(out) => Some(text::chars_to_string(&out)),
        None => None,
    }
}

} // verus!
