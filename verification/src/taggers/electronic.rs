//! Electronic address tagger: spoken emails, URLs and domains.
//!
//! "a at gmail dot com" -> "a@gmail.com", "w w w dot example dot com" ->
//! "www.example.com", "h t t p colon slash slash ..." -> "http://...".

use vstd::prelude::*;

use crate::taggers::decimal::digit_word;
use crate::text;
use crate::text::{
    contains_sub, find_sub, is_ascii_alpha_char, is_ascii_digit_char, lower_seq, starts_with,
    tokens_of, trim_seq, view_opt_chars, view_opt_str,
};

verus! {

// ---------------------------------------------------------------------------
// Email local part (original casing)
// ---------------------------------------------------------------------------

/// The written form of the tokens of an email's local part: "dot" becomes
/// '.' except as the very first token, "underscore" '_', "dash"/"hyphen"
/// '-', digit words their digit; single letters keep their casing, anything
/// else is lowercased.
pub open spec fn email_local(toks: Seq<Seq<char>>, i: int) -> Seq<char>
    decreases toks.len() - i,
{
    if i < 0 || i >= toks.len() {
        Seq::empty()
    } else {
        let w = toks[i];
        let wl = lower_seq(w);
        let piece = if wl == "dot"@ && i == 0 {
            w + seq![' ']
        } else if wl == "dot"@ {
            seq!['.']
        } else if wl == "underscore"@ {
            seq!['_']
        } else if wl == "dash"@ || wl == "hyphen"@ {
            seq!['-']
        } else {
            match digit_word(wl) {
                Some(c) => seq![c],
                None => if w.len() == 1 {
                    w
                } else {
                    wl
                },
            }
        };
        piece + email_local(toks, i + 1)
    }
}

fn email_local_into(toks: &Vec<Vec<char>>, i: usize, out: &mut Vec<char>)
    requires
        i <= toks.len(),
    ensures
        final(out)@ == old(out)@ + email_local(toks.deep_view(), i as int),
    decreases toks.len() - i,
{
    if i >= toks.len() {
        proof {
            assert(out@ =~= old(out)@ + Seq::<char>::empty());
        }
        return ;
    }
    proof {
        assert(toks.deep_view()[i as int] == toks@[i as int]@);
    }
    let w = &toks[i];
    let wl = text::lower_chars(w);
    let ghost pre = out@;
    if text::eq_str(&wl, "dot") && i == 0 {
        text::push_all(out, w);
        out.push(' ');
    } else if text::eq_str(&wl, "dot") {
        out.push('.');
    } else if text::eq_str(&wl, "underscore") {
        out.push('_');
    } else if text::eq_str(&wl, "dash") || text::eq_str(&wl, "hyphen") {
        out.push('-');
    } else {
        match crate::taggers::decimal::digit_word_x(&wl) {
            Some(c) => {
                out.push(c);
            },
            None => {
                if w.len() == 1 {
                    text::push_all(out, w);
                } else {
                    text::push_all(out, &wl);
                }
            },
        }
    }
    email_local_into(toks, i + 1, out);
    proof {
        assert(out@ =~= pre + email_local(toks.deep_view(), i as int));
    }
}

// ---------------------------------------------------------------------------
// Domain part
// ---------------------------------------------------------------------------

/// The written form of the tokens of a domain. The marker words "dot",
/// "slash", "colon", "hyphen" and "dash" (matched case-insensitively)
/// become their symbols, spelled digit words their digit; single letters
/// and every other token keep the casing of the source.
pub open spec fn domain_part(toks: Seq<Seq<char>>, i: int) -> Seq<char>
    decreases toks.len() - i,
{
    if i < 0 || i >= toks.len() {
        Seq::empty()
    } else {
        let w = toks[i];
        let wl = lower_seq(w);
        let piece = if wl == "dot"@ {
            seq!['.']
        } else if wl == "slash"@ {
            seq!['/']
        } else if wl == "colon"@ {
            seq![':']
        } else if wl == "hyphen"@ || wl == "dash"@ {
            seq!['-']
        } else if w.len() == 1 && (is_ascii_alpha_char(w[0]) || is_ascii_digit_char(w[0])) {
            seq![w[0]]
        } else {
            match digit_word(wl) {
                Some(c) => seq![c],
                None => w,
            }
        };
        piece + domain_part(toks, i + 1)
    }
}

fn domain_part_into(toks: &Vec<Vec<char>>, i: usize, out: &mut Vec<char>)
    requires
        i <= toks.len(),
    ensures
        final(out)@ == old(out)@ + domain_part(toks.deep_view(), i as int),
    decreases toks.len() - i,
{
    if i >= toks.len() {
        proof {
            assert(out@ =~= old(out)@ + Seq::<char>::empty());
        }
        return ;
    }
    proof {
        assert(toks.deep_view()[i as int] == toks@[i as int]@);
    }
    let w = &toks[i];
    let wl = text::lower_chars(w);
    let ghost pre = out@;
    if text::eq_str(&wl, "dot") {
        out.push('.');
    } else if text::eq_str(&wl, "slash") {
        out.push('/');
    } else if text::eq_str(&wl, "colon") {
        out.push(':');
    } else if text::eq_str(&wl, "hyphen") || text::eq_str(&wl, "dash") {
        out.push('-');
    } else if w.len() == 1 && (text::is_ascii_alpha_x(w[0]) || text::is_ascii_digit_x(w[0])) {
        out.push(w[0]);
    } else {
        match crate::taggers::decimal::digit_word_x(&wl) {
            Some(c) => {
                out.push(c);
            },
            None => {
                text::push_all(out, w);
            },
        }
    }
    domain_part_into(toks, i + 1, out);
    proof {
        assert(out@ =~= pre + domain_part(toks.deep_view(), i as int));
    }
}

pub open spec fn domain_of(s: Seq<char>) -> Seq<char> {
    domain_part(tokens_of(s), 0)
}

fn domain_of_x(s: &Vec<char>) -> (out: Vec<char>)
    ensures
        out@ == domain_of(s@),
{
    let toks = text::tokenize(s);
    let mut out: Vec<char> = Vec::new();
    domain_part_into(&toks, 0, &mut out);
    proof {
        assert(Seq::<char>::empty() + domain_of(s@) =~= domain_of(s@));
    }
    out
}

// ---------------------------------------------------------------------------
// Email
// ---------------------------------------------------------------------------

/// A spoken email: the input splits on " at " (found case-insensitively),
/// and the right side must contain " dot ". The local part keeps the
/// casing of its single letters, the domain the casing of its tokens.
pub open spec fn email_spec(orig: Seq<char>) -> Option<Seq<char>> {
    let low = lower_seq(orig);
    match find_sub(low, " at "@) {
        None => None,
        Some(p) => {
            let rhs_low = low.subrange(p + 4, low.len() as int);
            if !contains_sub(rhs_low, " dot "@) {
                None
            } else {
                let rhs = orig.subrange(p + 4, orig.len() as int);
                let orig_local = match find_sub(orig, " at "@) {
                    Some(q) => Some(orig.subrange(0, q)),
                    None => match find_sub(low, " at "@) {
                        Some(q) => Some(orig.subrange(0, q)),
                        None => None,
                    },
                };
                match orig_local {
                    None => None,
                    Some(ol) => Some(
                        email_local(tokens_of(ol), 0) + seq!['@'] + domain_part(
                            tokens_of(rhs),
                            0,
                        ),
                    ),
                }
            }
        },
    }
}

fn email_x(orig: &Vec<char>, low: &Vec<char>) -> (r: Option<Vec<char>>)
    requires
        low@ == lower_seq(orig@),
    ensures
        view_opt_chars(r) == email_spec(orig@),
{
    proof {
        reveal_strlit(" at ");
        reveal_strlit(" dot ");
    }
    let p = match text::find_str(low, " at ") {
        Some(p) => p,
        None => {
            return None;
        },
    };
    proof {
        text::lemma_find_from_occurs(low@, " at "@, 0);
        assert(p + 4 <= low.len());
        assert(orig@.len() == low@.len());
    }
    let rhs_low = text::copy_range(low, p + 4, low.len());
    if !text::contains_str(&rhs_low, " dot ") {
        return None;
    }
    let rhs = text::copy_range(orig, p + 4, orig.len());
    let ol = match text::find_str(orig, " at ") {
        Some(q) => {
            proof {
                text::lemma_find_from_occurs(orig@, " at "@, 0);
            }
            text::copy_range(orig, 0, q)
        },
        None => match text::find_str(low, " at ") {
            Some(q) => {
                proof {
                    text::lemma_find_from_occurs(low@, " at "@, 0);
                }
                text::copy_range(orig, 0, q)
            },
            None => {
                return None;
            },
        },
    };
    let ltoks = text::tokenize(&ol);
    let mut out: Vec<char> = Vec::new();
    email_local_into(&ltoks, 0, &mut out);
    out.push('@');
    let dom = domain_of_x(&rhs);
    text::push_all(&mut out, &dom);
    proof {
        let sp = email_spec(orig@);
        assert(out@ =~= sp->Some_0);
    }
    Some(out)
}

// ---------------------------------------------------------------------------
// URL and bare domain
// ---------------------------------------------------------------------------

/// A spoken URL: a spelled protocol prefix or "w w w dot " (recognized
/// case-insensitively), then a domain whose tokens keep source casing.
pub open spec fn url_spec(orig: Seq<char>) -> Option<Seq<char>> {
    let low = lower_seq(orig);
    if starts_with(low, "h t t p s colon slash slash "@) {
        Some("https://"@ + domain_of(orig.subrange(28, orig.len() as int)))
    } else if starts_with(low, "h t t p colon slash slash "@) {
        Some("http://"@ + domain_of(orig.subrange(26, orig.len() as int)))
    } else if starts_with(low, "https colon slash slash "@) {
        Some("https://"@ + domain_of(orig.subrange(24, orig.len() as int)))
    } else if starts_with(low, "http colon slash slash "@) {
        Some("http://"@ + domain_of(orig.subrange(23, orig.len() as int)))
    } else if starts_with(low, "w w w dot "@) {
        Some("www."@ + domain_of(orig.subrange(10, orig.len() as int)))
    } else {
        None
    }
}

fn url_x(orig: &Vec<char>, low: &Vec<char>) -> (r: Option<Vec<char>>)
    requires
        low@ == lower_seq(orig@),
    ensures
        view_opt_chars(r) == url_spec(orig@),
{
    proof {
        reveal_strlit("h t t p s colon slash slash ");
        reveal_strlit("h t t p colon slash slash ");
        reveal_strlit("https colon slash slash ");
        reveal_strlit("http colon slash slash ");
        reveal_strlit("w w w dot ");
    }
    let (written, cut): (&str, usize) = if text::starts_with_str(
        low,
        "h t t p s colon slash slash ",
    ) {
        ("https://", 28)
    } else if text::starts_with_str(low, "h t t p colon slash slash ") {
        ("http://", 26)
    } else if text::starts_with_str(low, "https colon slash slash ") {
        ("https://", 24)
    } else if text::starts_with_str(low, "http colon slash slash ") {
        ("http://", 23)
    } else if text::starts_with_str(low, "w w w dot ") {
        ("www.", 10)
    } else {
        return None;
    };
    proof {
        assert(orig@.len() == low@.len());
    }
    let rest = text::copy_range(orig, cut, orig.len());
    let mut out = text::str_to_chars(written);
    let dom = domain_of_x(&rest);
    text::push_all(&mut out, &dom);
    proof {
        let sp = url_spec(orig@);
        assert(out@ =~= sp->Some_0);
    }
    Some(out)
}

/// A bare spoken domain: its lowercase form must contain " dot " and the
/// written form a '.'; the tokens keep their source casing.
pub open spec fn bare_domain_spec(orig: Seq<char>) -> Option<Seq<char>> {
    if !contains_sub(lower_seq(orig), " dot "@) {
        None
    } else {
        let d = domain_of(orig);
        if contains_sub(d, "."@) {
            Some(d)
        } else {
            None
        }
    }
}

fn bare_domain_x(orig: &Vec<char>, low: &Vec<char>) -> (r: Option<Vec<char>>)
    requires
        low@ == lower_seq(orig@),
    ensures
        view_opt_chars(r) == bare_domain_spec(orig@),
{
    proof {
        reveal_strlit(" dot ");
        reveal_strlit(".");
    }
    if !text::contains_str(low, " dot ") {
        return None;
    }
    let d = domain_of_x(orig);
    if text::contains_str(&d, ".") {
        Some(d)
    } else {
        None
    }
}

// ---------------------------------------------------------------------------
// The tagger
// ---------------------------------------------------------------------------

/// The written form of a spoken electronic address: email, then URL, then
/// bare domain, each over the trimmed input with its casing intact.
pub open spec fn electronic_spec(s: Seq<char>) -> Option<Seq<char>> {
    let orig = trim_seq(s);
    match email_spec(orig) {
        Some(r) => Some(r),
        None => match url_spec(orig) {
            Some(r) => Some(r),
            None => bare_domain_spec(orig),
        },
    }
}

/// Character-vector form of [`parse`].
pub fn parse_chars(cv: &Vec<char>) -> (r: Option<Vec<char>>)
    ensures
        view_opt_chars(r) == electronic_spec(cv@),
{
    let orig = text::trim_chars(cv);
    let low = text::lower_chars(&orig);
    if let Some(r) = email_x(&orig, &low) {
        return Some(r);
    }
    if let Some(r) = url_x(&orig, &low) {
        return Some(r);
    }
    bare_domain_x(&orig, &low)
}

/// Parse a spoken electronic address to its written form.
pub fn parse(input: &str) -> (r: Option<String>)
    ensures
        view_opt_str(r) == electronic_spec(input@),
{
    let cv = text::str_to_chars(input);
    match parse_chars(&cv) {
        Some(out) => Some(text::chars_to_string(&out)),
        None => None,
    }
}

} // verus!
