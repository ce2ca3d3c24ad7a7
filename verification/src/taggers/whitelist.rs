//! Whitelist tagger: fixed spoken phrases to written abbreviations.
//!
//! "doctor smith" -> "dr. smith", "for example" -> "e.g.",
//! "s and p five hundred" -> "S&P 500". Some technical patterns only fire
//! when they are the entire input; the rest replace anywhere, keeping the
//! case of the first replaced character.

use vstd::prelude::*;

use crate::text;
use crate::text::{
    contains_sub, find_sub, is_upper_char, lower_seq, trim_seq, upper_char, view_opt_chars,
    view_opt_str,
};

verus! {

/// `input` with the first occurrence of `pat` (found case-insensitively)
/// replaced by `rep`; when the matched position holds an uppercase letter,
/// the first character of `rep` is uppercased too.
pub open spec fn replace_case_spec(input: Seq<char>, pat: Seq<char>, rep: Seq<char>) -> Seq<char> {
    match find_sub(lower_seq(input), pat) {
        Some(st) => {
            let adj = if 0 <= st < input.len() && is_upper_char(input[st]) && rep.len() > 0 {
                seq![upper_char(rep[0])] + rep.subrange(1, rep.len() as int)
            } else {
                rep
            };
            input.subrange(0, st) + adj + input.subrange(st + pat.len(), input.len() as int)
        },
        None => input,
    }
}

fn replace_case_x(input: &Vec<char>, pat: &str, rep: &str) -> (out: Vec<char>)
    ensures
        out@ == replace_case_spec(input@, pat@, rep@),
{
    let low = text::lower_chars(input);
    let pv = text::str_to_chars(pat);
    match text::find_sub_from(&low, &pv, 0) {
        Some(st) => {
            proof {
                text::lemma_find_from_occurs(low@, pat@, 0);
            }
            let rv = text::str_to_chars(rep);
            let mut out = text::copy_range(input, 0, st);
            if st < input.len() && text::is_upper_x(input[st]) && rv.len() > 0 {
                out.push(text::upper_char_x(rv[0]));
                let tail = text::copy_range(&rv, 1, rv.len());
                text::push_all(&mut out, &tail);
            } else {
                text::push_all(&mut out, &rv);
            }
            let after = text::copy_range(input, st + pv.len(), input.len());
            text::push_all(&mut out, &after);
            proof {
                assert(out@ =~= replace_case_spec(input@, pat@, rep@));
            }
            out
        },
        None => text::dup_chars(input),
    }
}

/// One substring step of the whitelist scan: when the lowercased original
/// input contains `pat`, the current result is rewritten and the tagger is
/// marked as having fired.
pub open spec fn wl_step(
    state: (Seq<char>, bool),
    low: Seq<char>,
    pat: Seq<char>,
    rep: Seq<char>,
) -> (Seq<char>, bool) {
    if contains_sub(low, pat) {
        (replace_case_spec(state.0, pat, rep), true)
    } else {
        state
    }
}

/// The whitelist tagger over the raw input characters.
pub open spec fn whitelist_spec(s: Seq<char>) -> Option<Seq<char>> {
    let low = lower_seq(s);
    let t = trim_seq(low);
    let s1 = wl_step((s, false), low, "l g a eleven fifty"@, "LGA 1150"@);
    if t == "p c i e x eight"@ {
        Some("PCIe x8"@)
    } else {
        let s3 = wl_step(s1, low, "s and p five hundred"@, "S&P 500"@);
        let s4 = wl_step(s3, low, "seven eleven"@, "7-eleven"@);
        if t == "cat five e"@ {
            Some("CAT5e"@)
        } else if t == "c u d n n"@ {
            Some("cuDNN"@)
        } else if t == "r t x"@ {
            Some("RTX"@)
        } else {
            let s8 = wl_step(s4, low, "for example"@, "e.g."@);
            let s9 = wl_step(s8, low, "doctor"@, "dr."@);
            let s10 = wl_step(s9, low, "misses"@, "mrs."@);
            let s11 = wl_step(s10, low, "mister"@, "mr."@);
            let s12 = wl_step(s11, low, "saint"@, "st."@);
            if s12.1 {
                Some(s12.0)
            } else {
                None
            }
        }
    }
}

/// Character-vector form of [`parse`].
pub fn parse_chars(cv: &Vec<char>) -> (r: Option<Vec<char>>)
    ensures
        view_opt_chars(r) == whitelist_spec(cv@),
{
    let low = text::lower_chars(cv);
    let t = text::trim_chars(&low);
    let mut result = text::dup_chars(cv);
    let mut made = false;
    if text::contains_str(&low, "l g a eleven fifty") {
        result = replace_case_x(&result, "l g a eleven fifty", "LGA 1150");
        made = true;
    }
    if text::eq_str(&t, "p c i e x eight") {
        return Some(text::str_to_chars("PCIe x8"));
    }
    if text::contains_str(&low, "s and p five hundred") {
        result = replace_case_x(&result, "s and p five hundred", "S&P 500");
        made = true;
    }
    if text::contains_str(&low, "seven eleven") {
        result = replace_case_x(&result, "seven eleven", "7-eleven");
        made = true;
    }
    if text::eq_str(&t, "cat five e") {
        return Some(text::str_to_chars("CAT5e"));
    }
    if text::eq_str(&t, "c u d n n") {
        return Some(text::str_to_chars("cuDNN"));
    }
    if text::eq_str(&t, "r t x") {
        return Some(text::str_to_chars("RTX"));
    }
    if text::contains_str(&low, "for example") {
        result = replace_case_x(&result, "for example", "e.g.");
        made = true;
    }
    if text::contains_str(&low, "doctor") {
        result = replace_case_x(&result, "doctor", "dr.");
        made = true;
    }
    if text::contains_str(&low, "misses") {
        result = replace_case_x(&result, "misses", "mrs.");
        made = true;
    }
    if text::contains_str(&low, "mister") {
        result = replace_case_x(&result, "mister", "mr.");
        made = true;
    }
    if text::contains_str(&low, "saint") {
        result = replace_case_x(&result, "saint", "st.");
        made = true;
    }
    if made {
        Some(result)
    } else {
        None
    }
}

/// Apply the whitelist replacements; `None` when no pattern occurs.
pub fn parse(input: &str) -> (r: Option<String>)
    ensures
        view_opt_str(r) == whitelist_spec(input@),
{
    let cv = text::str_to_chars(input);
    match parse_chars(&cv) {
        Some(out) => Some(text::chars_to_string(&out)),
        None => None,
    }
}

} // verus!
