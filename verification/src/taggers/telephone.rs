//! Telephone tagger: spoken phone numbers, IP addresses, SSNs and
//! alphanumeric codes.
//!
//! "one two three one two three five six seven eight" -> "123-123-5678",
//! "one two three dot one two three dot o dot four o" -> "123.123.0.40",
//! "x eighty six" -> "x86".

use vstd::prelude::*;

use crate::taggers::cardinal;
use crate::taggers::decimal::{digit_word, digit_word_x};
use crate::text;
use crate::text::{
    contains_sub, dec_rep, find_sub, is_ascii_alpha_char, join_range, lower_seq, split_all,
    starts_with, tokens_of, trim_seq, trim_start_seq, upper_seq, view_opt_chars, view_opt_str,
};

verus! {

// ---------------------------------------------------------------------------
// Word classes
// ---------------------------------------------------------------------------

pub open spec fn is_tens_w(w: Seq<char>) -> bool {
    w == "twenty"@ || w == "thirty"@ || w == "forty"@ || w == "fifty"@ || w == "sixty"@ || w
        == "seventy"@ || w == "eighty"@ || w == "ninety"@
}

fn is_tens_x(w: &Vec<char>) -> (r: bool)
    ensures
        r == is_tens_w(w@),
{
    text::eq_str(w, "twenty") || text::eq_str(w, "thirty") || text::eq_str(w, "forty")
        || text::eq_str(w, "fifty") || text::eq_str(w, "sixty") || text::eq_str(w, "seventy")
        || text::eq_str(w, "eighty") || text::eq_str(w, "ninety")
}

pub open spec fn is_teen_w(w: Seq<char>) -> bool {
    w == "ten"@ || w == "eleven"@ || w == "twelve"@ || w == "thirteen"@ || w == "fourteen"@ || w
        == "fifteen"@ || w == "sixteen"@ || w == "seventeen"@ || w == "eighteen"@ || w
        == "nineteen"@
}

fn is_teen_x(w: &Vec<char>) -> (r: bool)
    ensures
        r == is_teen_w(w@),
{
    text::eq_str(w, "ten") || text::eq_str(w, "eleven") || text::eq_str(w, "twelve")
        || text::eq_str(w, "thirteen") || text::eq_str(w, "fourteen") || text::eq_str(
        w,
        "fifteen",
    ) || text::eq_str(w, "sixteen") || text::eq_str(w, "seventeen") || text::eq_str(w, "eighteen")
        || text::eq_str(w, "nineteen")
}

pub open spec fn is_number_w(w: Seq<char>) -> bool {
    is_tens_w(w) || is_teen_w(w) || digit_word(w) is Some
}

fn is_number_x(w: &Vec<char>) -> (r: bool)
    ensures
        r == is_number_w(w@),
{
    is_tens_x(w) || is_teen_x(w) || digit_word_x(w).is_some()
}

/// A single ASCII letter other than 'o', which reads as zero here.
pub open spec fn is_single_letter_w(w: Seq<char>) -> bool {
    w.len() == 1 && is_ascii_alpha_char(w[0]) && w[0] != 'o' && w[0] != 'O'
}

fn is_single_letter_x(w: &Vec<char>) -> (r: bool)
    ensures
        r == is_single_letter_w(w@),
{
    w.len() == 1 && text::is_ascii_alpha_x(w[0]) && w[0] != 'o' && w[0] != 'O'
}

fn wv_chars(v: &Vec<char>) -> (r: Option<u128>)
    ensures
        match r {
            Some(n) => cardinal::words_value_i128(v@) == Some(n as int),
            None => cardinal::words_value_i128(v@) is None,
        },
{
    match cardinal::words_value_chars(v) {
        Some(n) => if n <= i128::MAX as u128 {
            Some(n)
        } else {
            None
        },
        None => None,
    }
}

/// The two tokens joined by a single space.
pub open spec fn pair_join(a: Seq<char>, b: Seq<char>) -> Seq<char> {
    a + seq![' '] + b
}

fn pair_join_x(a: &Vec<char>, b: &Vec<char>) -> (out: Vec<char>)
    ensures
        out@ == pair_join(a@, b@),
{
    let mut out = text::dup_chars(a);
    out.push(' ');
    text::push_all(&mut out, b);
    proof {
        assert(out@ =~= pair_join(a@, b@));
    }
    out
}

// ---------------------------------------------------------------------------
// IP addresses
// ---------------------------------------------------------------------------

/// The digits of one IP octet: "double X" doubles a digit or a number,
/// single digit words and compound numbers concatenate, unknown words are
/// skipped.
pub open spec fn octet_from(toks: Seq<Seq<char>>, i: int) -> Seq<char>
    decreases toks.len() - i,
{
    if i < 0 || i >= toks.len() {
        Seq::empty()
    } else {
        let w = toks[i];
        if w == "double"@ && i + 1 < toks.len() && digit_word(toks[i + 1]) is Some {
            let d = digit_word(toks[i + 1])->Some_0;
            seq![d, d] + octet_from(toks, i + 2)
        } else if w == "double"@ && i + 1 < toks.len() && cardinal::words_value_i128(
            toks[i + 1],
        ) is Some {
            let s = dec_rep(cardinal::words_value_i128(toks[i + 1])->Some_0);
            s + s + octet_from(toks, i + 2)
        } else if digit_word(w) is Some {
            seq![digit_word(w)->Some_0] + octet_from(toks, i + 1)
        } else if i + 1 < toks.len() && cardinal::words_value_i128(
            pair_join(w, toks[i + 1]),
        ) is Some {
            dec_rep(cardinal::words_value_i128(pair_join(w, toks[i + 1]))->Some_0) + octet_from(
                toks,
                i + 2,
            )
        } else if cardinal::words_value_i128(w) is Some {
            dec_rep(cardinal::words_value_i128(w)->Some_0) + octet_from(toks, i + 1)
        } else {
            octet_from(toks, i + 1)
        }
    }
}

fn octet_from_x(toks: &Vec<Vec<char>>, i: usize, out: &mut Vec<char>)
    requires
        i <= toks.len(),
    ensures
        final(out)@ == old(out)@ + octet_from(toks.deep_view(), i as int),
    decreases toks.len() - i,
{
    if i >= toks.len() {
        proof {
            assert(out@ =~= old(out)@ + Seq::<char>::empty());
        }
        return ;
    }
    proof {
        assert(toks.deep_view()[i as int] == toks@[i as int]@);
        if i + 1 < toks.len() {
            assert(toks.deep_view()[i + 1 as int] == toks@[i + 1 as int]@);
        }
    }
    let ghost pre = out@;
    let w = &toks[i];
    if text::eq_str(w, "double") && i + 1 < toks.len() {
        if let Some(d) = digit_word_x(&toks[i + 1]) {
            out.push(d);
            out.push(d);
            octet_from_x(toks, i + 2, out);
            proof {
                assert(out@ =~= pre + octet_from(toks.deep_view(), i as int));
            }
            return ;
        }
        if let Some(n) = wv_chars(&toks[i + 1]) {
            let s = text::dec_u128(n);
            text::push_all(out, &s);
            text::push_all(out, &s);
            octet_from_x(toks, i + 2, out);
            proof {
                assert(out@ =~= pre + octet_from(toks.deep_view(), i as int));
            }
            return ;
        }
    }
    if let Some(d) = digit_word_x(w) {
        out.push(d);
        octet_from_x(toks, i + 1, out);
        proof {
            assert(out@ =~= pre + octet_from(toks.deep_view(), i as int));
        }
        return ;
    }
    if i + 1 < toks.len() {
        let combined = pair_join_x(w, &toks[i + 1]);
        if let Some(n) = wv_chars(&combined) {
            let s = text::dec_u128(n);
            text::push_all(out, &s);
            octet_from_x(toks, i + 2, out);
            proof {
                assert(out@ =~= pre + octet_from(toks.deep_view(), i as int));
            }
            return ;
        }
    }
    if let Some(n) = wv_chars(w) {
        let s = text::dec_u128(n);
        text::push_all(out, &s);
        octet_from_x(toks, i + 1, out);
        proof {
            assert(out@ =~= pre + octet_from(toks.deep_view(), i as int));
        }
        return ;
    }
    octet_from_x(toks, i + 1, out);
    proof {
        assert(out@ =~= pre + octet_from(toks.deep_view(), i as int));
    }
}

/// The octets joined with dots; any empty octet fails the whole address.
pub open spec fn ip_parts(parts: Seq<Seq<char>>, i: int) -> Option<Seq<char>>
    decreases parts.len() - i,
{
    if i < 0 || i >= parts.len() {
        Some(Seq::empty())
    } else {
        let oct = octet_from(tokens_of(parts[i]), 0);
        if oct.len() == 0 {
            None
        } else {
            match ip_parts(parts, i + 1) {
                Some(rest) => if i == parts.len() - 1 {
                    Some(oct)
                } else {
                    Some(oct + seq!['.'] + rest)
                },
                None => None,
            }
        }
    }
}

/// "one two three dot one two three dot o dot four o" -> "123.123.0.40".
pub open spec fn ip_spec(t: Seq<char>) -> Option<Seq<char>> {
    let parts = split_all(t, " dot "@);
    if parts.len() < 2 {
        None
    } else {
        ip_parts(parts, 0)
    }
}

fn ip_parts_x(parts: &Vec<Vec<char>>, i: usize) -> (r: Option<Vec<char>>)
    requires
        i <= parts.len(),
    ensures
        view_opt_chars(r) == ip_parts(parts.deep_view(), i as int),
    decreases parts.len() - i,
{
    if i >= parts.len() {
        return Some(Vec::new());
    }
    proof {
        assert(parts.deep_view()[i as int] == parts@[i as int]@);
    }
    let toks = text::tokenize(&parts[i]);
    let mut oct: Vec<char> = Vec::new();
    octet_from_x(&toks, 0, &mut oct);
    proof {
        assert(Seq::<char>::empty() + octet_from(tokens_of(parts.deep_view()[i as int]), 0)
            =~= octet_from(tokens_of(parts.deep_view()[i as int]), 0));
    }
    if oct.len() == 0 {
        return None;
    }
    match ip_parts_x(parts, i + 1) {
        Some(rest) => {
            if i == parts.len() - 1 {
                Some(oct)
            } else {
                let mut out = oct;
                out.push('.');
                text::push_all(&mut out, &rest);
                proof {
                    let sp = ip_parts(parts.deep_view(), i as int);
                    assert(out@ =~= sp->Some_0);
                }
                Some(out)
            }
        },
        None => None,
    }
}

fn ip_x(t: &Vec<char>) -> (r: Option<Vec<char>>)
    ensures
        view_opt_chars(r) == ip_spec(t@),
{
    proof {
        reveal_strlit(" dot ");
    }
    let parts = text::split_all_x(t, " dot ");
    if parts.len() < 2 {
        return None;
    }
    ip_parts_x(&parts, 0)
}

// ---------------------------------------------------------------------------
// Digit sequences with "double" and "triple"
// ---------------------------------------------------------------------------

/// The digit string of a spoken phone sequence: "double"/"triple" repeat,
/// digit words append a digit, compound numbers their digits, unknown
/// words are skipped.
pub open spec fn dseq_from(toks: Seq<Seq<char>>, i: int) -> Seq<char>
    decreases toks.len() - i,
{
    if i < 0 || i >= toks.len() {
        Seq::empty()
    } else {
        let w = toks[i];
        if w == "double"@ && i + 1 < toks.len() && digit_word(toks[i + 1]) is Some {
            let d = digit_word(toks[i + 1])->Some_0;
            seq![d, d] + dseq_from(toks, i + 2)
        } else if w == "double"@ && i + 1 < toks.len() && cardinal::words_value_i128(
            toks[i + 1],
        ) is Some {
            let s = dec_rep(cardinal::words_value_i128(toks[i + 1])->Some_0);
            s + s + dseq_from(toks, i + 2)
        } else if w == "triple"@ && i + 1 < toks.len() && digit_word(toks[i + 1]) is Some {
            let d = digit_word(toks[i + 1])->Some_0;
            seq![d, d, d] + dseq_from(toks, i + 2)
        } else if digit_word(w) is Some {
            seq![digit_word(w)->Some_0] + dseq_from(toks, i + 1)
        } else if cardinal::words_value_i128(w) is Some {
            let num = cardinal::words_value_i128(w)->Some_0;
            if i + 1 < toks.len() && (match cardinal::words_value_i128(
                pair_join(w, toks[i + 1]),
            ) {
                Some(compound) => compound != num,
                None => false,
            }) {
                dec_rep(cardinal::words_value_i128(pair_join(w, toks[i + 1]))->Some_0)
                    + dseq_from(toks, i + 2)
            } else {
                dec_rep(num) + dseq_from(toks, i + 1)
            }
        } else {
            dseq_from(toks, i + 1)
        }
    }
}

fn dseq_from_x(toks: &Vec<Vec<char>>, i: usize, out: &mut Vec<char>)
    requires
        i <= toks.len(),
    ensures
        final(out)@ == old(out)@ + dseq_from(toks.deep_view(), i as int),
    decreases toks.len() - i,
{
    if i >= toks.len() {
        proof {
            assert(out@ =~= old(out)@ + Seq::<char>::empty());
        }
        return ;
    }
    proof {
        assert(toks.deep_view()[i as int] == toks@[i as int]@);
        if i + 1 < toks.len() {
            assert(toks.deep_view()[i + 1 as int] == toks@[i + 1 as int]@);
        }
    }
    let ghost pre = out@;
    let w = &toks[i];
    if text::eq_str(w, "double") && i + 1 < toks.len() {
        if let Some(d) = digit_word_x(&toks[i + 1]) {
            out.push(d);
            out.push(d);
            dseq_from_x(toks, i + 2, out);
            proof {
                assert(out@ =~= pre + dseq_from(toks.deep_view(), i as int));
            }
            return ;
        }
        if let Some(n) = wv_chars(&toks[i + 1]) {
            let s = text::dec_u128(n);
            text::push_all(out, &s);
            text::push_all(out, &s);
            dseq_from_x(toks, i + 2, out);
            proof {
                assert(out@ =~= pre + dseq_from(toks.deep_view(), i as int));
            }
            return ;
        }
    }
    if text::eq_str(w, "triple") && i + 1 < toks.len() {
        if let Some(d) = digit_word_x(&toks[i + 1]) {
            out.push(d);
            out.push(d);
            out.push(d);
            dseq_from_x(toks, i + 2, out);
            proof {
                assert(out@ =~= pre + dseq_from(toks.deep_view(), i as int));
            }
            return ;
        }
    }
    if let Some(d) = digit_word_x(w) {
        out.push(d);
        dseq_from_x(toks, i + 1, out);
        proof {
            assert(out@ =~= pre + dseq_from(toks.deep_view(), i as int));
        }
        return ;
    }
    if let Some(num) = wv_chars(w) {
        if i + 1 < toks.len() {
            let combined = pair_join_x(w, &toks[i + 1]);
            match wv_chars(&combined) {
                Some(compound) if compound != num => {
                    let s = text::dec_u128(compound);
                    text::push_all(out, &s);
                    dseq_from_x(toks, i + 2, out);
                    proof {
                        assert(out@ =~= pre + dseq_from(toks.deep_view(), i as int));
                    }
                    return ;
                },
                _ => {},
            }
        }
        let s = text::dec_u128(num);
        text::push_all(out, &s);
        dseq_from_x(toks, i + 1, out);
        proof {
            assert(out@ =~= pre + dseq_from(toks.deep_view(), i as int));
        }
        return ;
    }
    dseq_from_x(toks, i + 1, out);
    proof {
        assert(out@ =~= pre + dseq_from(toks.deep_view(), i as int));
    }
}

fn dseq_of(v: &Vec<char>) -> (out: Vec<char>)
    ensures
        out@ == dseq_from(tokens_of(v@), 0),
{
    let toks = text::tokenize(v);
    let mut out: Vec<char> = Vec::new();
    dseq_from_x(&toks, 0, &mut out);
    proof {
        assert(Seq::<char>::empty() + dseq_from(tokens_of(v@), 0) =~= dseq_from(
            tokens_of(v@),
            0,
        ));
    }
    out
}

// ---------------------------------------------------------------------------
// SSNs
// ---------------------------------------------------------------------------

/// "ssn is seven double nine one two three double one three" ->
/// "SSN is 799-12-3113"; the "SSN" keeps its original casing, and any text
/// before it is kept.
pub open spec fn ssn_spec(raw: Seq<char>, t: Seq<char>) -> Option<Seq<char>> {
    match find_sub(t, "ssn"@) {
        None => None,
        Some(ix) => {
            let prefix = t.subrange(0, ix);
            let after = trim_start_seq(t.subrange(ix + 3, t.len() as int));
            match find_sub(lower_seq(raw), "ssn"@) {
                None => None,
                Some(oix) => {
                    let orig_ssn = raw.subrange(oix, oix + 3);
                    let digits_part = if starts_with(after, "is "@) {
                        after.subrange(3, after.len() as int)
                    } else {
                        after
                    };
                    let ds = dseq_from(tokens_of(digits_part), 0);
                    if ds.len() == 0 || ds.len() < 9 {
                        None
                    } else {
                        let formatted = ds.subrange(0, 3) + seq!['-'] + ds.subrange(3, 5)
                            + seq!['-'] + ds.subrange(5, 9);
                        if prefix.len() == 0 {
                            Some(orig_ssn + " is "@ + formatted)
                        } else {
                            Some(trim_seq(prefix) + orig_ssn + " is "@ + formatted)
                        }
                    }
                },
            }
        },
    }
}

fn ssn_x(raw: &Vec<char>, t: &Vec<char>) -> (r: Option<Vec<char>>)
    ensures
        view_opt_chars(r) == ssn_spec(raw@, t@),
{
    proof {
        reveal_strlit("ssn");
        reveal_strlit("is ");
        reveal_strlit(" is ");
    }
    let ix = match text::find_str(t, "ssn") {
        Some(ix) => ix,
        None => {
            return None;
        },
    };
    proof {
        text::lemma_find_from_occurs(t@, "ssn"@, 0);
        assert(ix + 3 <= t.len());
    }
    let prefix = text::copy_range(t, 0, ix);
    let cut = text::copy_range(t, ix + 3, t.len());
    let after = text::trim_start_chars(&cut);
    let raw_low = text::lower_chars(raw);
    let oix = match text::find_str(&raw_low, "ssn") {
        Some(oix) => oix,
        None => {
            return None;
        },
    };
    proof {
        text::lemma_find_from_occurs(raw_low@, "ssn"@, 0);
        assert(oix + 3 <= raw.len());
    }
    let orig_ssn = text::copy_range(raw, oix, oix + 3);
    let digits_part = if text::starts_with_str(&after, "is ") {
        text::copy_range(&after, 3, after.len())
    } else {
        text::dup_chars(&after)
    };
    let ds = dseq_of(&digits_part);
    if ds.len() == 0 || ds.len() < 9 {
        return None;
    }
    let mut formatted = text::copy_range(&ds, 0, 3);
    formatted.push('-');
    let p2 = text::copy_range(&ds, 3, 5);
    text::push_all(&mut formatted, &p2);
    formatted.push('-');
    let p3 = text::copy_range(&ds, 5, 9);
    text::push_all(&mut formatted, &p3);
    let mut out: Vec<char> = Vec::new();
    if prefix.len() == 0 {
        text::push_all(&mut out, &orig_ssn);
        text::push_str_chars(&mut out, " is ");
        text::push_all(&mut out, &formatted);
    } else {
        let pt = text::trim_chars(&prefix);
        text::push_all(&mut out, &pt);
        text::push_all(&mut out, &orig_ssn);
        text::push_str_chars(&mut out, " is ");
        text::push_all(&mut out, &formatted);
    }
    proof {
        let sp = ssn_spec(raw@, t@);
        assert(out@ =~= sp->Some_0);
    }
    Some(out)
}

// ---------------------------------------------------------------------------
// Alphanumeric codes
// ---------------------------------------------------------------------------

/// Letter runs uppercased for the well-known hardware abbreviations.
pub open spec fn is_abbrev(run: Seq<char>) -> bool {
    run == "rtx"@ || run == "gtx"@ || run == "rx"@ || run == "amd"@ || run == "cpu"@ || run
        == "gpu"@ || run == "usb"@ || run == "hdmi"@
}

fn is_abbrev_x(run: &Vec<char>) -> (r: bool)
    ensures
        r == is_abbrev(run@),
{
    text::eq_str(run, "rtx") || text::eq_str(run, "gtx") || text::eq_str(run, "rx")
        || text::eq_str(run, "amd") || text::eq_str(run, "cpu") || text::eq_str(run, "gpu")
        || text::eq_str(run, "usb") || text::eq_str(run, "hdmi")
}

/// The flushed letter run: uppercased for known abbreviations.
pub open spec fn flush_run(run: Seq<char>) -> Seq<char> {
    if is_abbrev(run) {
        upper_seq(run)
    } else {
        run
    }
}

/// One state step of the alphanumeric scan; see [`alphanumeric_spec`].
pub open spec fn anc_loop(
    toks: Seq<Seq<char>>,
    i: int,
    result: Seq<char>,
    run: Seq<char>,
    prev: bool,
    compact: bool,
) -> Seq<char>
    decreases toks.len() - i, 1nat,
{
    if i < 0 || i >= toks.len() {
        if run.len() > 0 {
            result + flush_run(run)
        } else {
            result
        }
    } else {
        let w = toks[i];
        let wl = lower_seq(w);
        if is_single_letter_w(wl) {
            anc_loop(toks, i + 1, result, run + wl, prev, compact)
        } else {
            let r1 = if run.len() > 0 {
                let a = if !prev && !compact && result.len() > 0 && result[result.len() - 1]
                    != ' ' {
                    result + seq![' ']
                } else {
                    result
                };
                let b = a + flush_run(run);
                if !prev && !compact && run != "x"@ {
                    b + seq![' ']
                } else {
                    b
                }
            } else {
                result
            };
            let p1 = if run.len() > 0 {
                false
            } else {
                prev
            };
            anc_number_step(toks, i, r1, p1, compact)
        }
    }
}

/// The number-handling arms of the alphanumeric scan, after any letter run
/// has been flushed.
pub open spec fn anc_number_step(
    toks: Seq<Seq<char>>,
    i: int,
    result: Seq<char>,
    prev: bool,
    compact: bool,
) -> Seq<char>
    decreases toks.len() - i, 0nat,
{
    if i < 0 || i >= toks.len() {
        result
    } else {
        let w = toks[i];
        let wl = lower_seq(w);
        let nextl = if i + 1 < toks.len() {
            lower_seq(toks[i + 1])
        } else {
            Seq::empty()
        };
        if i + 1 < toks.len() && is_tens_w(wl) && is_tens_w(nextl) && cardinal::words_value_i128(
            wl,
        ) is Some && cardinal::words_value_i128(nextl) is Some {
            let t1 = cardinal::words_value_i128(wl)->Some_0;
            let t2 = cardinal::words_value_i128(nextl)->Some_0;
            if (t1 / 10) * 1000 + t2 <= u128::MAX {
                anc_loop(
                    toks,
                    i + 2,
                    result + dec_rep((t1 / 10) * 1000 + t2),
                    Seq::empty(),
                    true,
                    compact,
                )
            } else {
                result
            }
        } else if i + 1 < toks.len() && is_teen_w(wl) && is_tens_w(nextl)
            && cardinal::words_value_i128(wl) is Some && cardinal::words_value_i128(
            nextl,
        ) is Some {
            let t1 = cardinal::words_value_i128(wl)->Some_0;
            let t2 = cardinal::words_value_i128(nextl)->Some_0;
            if t1 * 100 + t2 <= u128::MAX {
                anc_loop(toks, i + 2, result + dec_rep(t1 * 100 + t2), Seq::empty(), true, compact)
            } else {
                result
            }
        } else if i + 1 < toks.len() && is_tens_w(wl) && (match cardinal::words_value_i128(
            pair_join(wl, nextl),
        ) {
            Some(num) => num > (match cardinal::words_value_i128(wl) {
                Some(v) => v,
                None => 0,
            }),
            None => false,
        }) {
            let num = cardinal::words_value_i128(pair_join(wl, nextl))->Some_0;
            anc_loop(toks, i + 2, result + dec_rep(num), Seq::empty(), true, compact)
        } else if digit_word(wl) is Some {
            anc_loop(
                toks,
                i + 1,
                result + seq![digit_word(wl)->Some_0],
                Seq::empty(),
                true,
                compact,
            )
        } else if (match cardinal::words_value_i128(wl) {
            Some(num) => 10 <= num <= 99,
            None => false,
        }) {
            let num = cardinal::words_value_i128(wl)->Some_0;
            anc_loop(toks, i + 1, result + dec_rep(num), Seq::empty(), true, compact)
        } else {
            let r2 = if result.len() > 0 && result[result.len() - 1] != ' ' {
                result + seq![' ']
            } else {
                result
            };
            anc_loop(toks, i + 1, r2 + w, Seq::empty(), false, compact)
        }
    }
}

fn anc_loop_x(
    toks: &Vec<Vec<char>>,
    i: usize,
    result: Vec<char>,
    run: Vec<char>,
    prev: bool,
    compact: bool,
) -> (out: Vec<char>)
    requires
        i <= toks.len(),
    ensures
        out@ == anc_loop(toks.deep_view(), i as int, result@, run@, prev, compact),
    decreases toks.len() - i, 1nat,
{
    if i >= toks.len() {
        if run.len() > 0 {
            let mut out = result;
            if is_abbrev_x(&run) {
                let up = text::upper_chars(&run);
                text::push_all(&mut out, &up);
            } else {
                text::push_all(&mut out, &run);
            }
            return out;
        }
        return result;
    }
    proof {
        assert(toks.deep_view()[i as int] == toks@[i as int]@);
    }
    let wl = text::lower_chars(&toks[i]);
    if is_single_letter_x(&wl) {
        let mut run2 = run;
        text::push_all(&mut run2, &wl);
        return anc_loop_x(toks, i + 1, result, run2, prev, compact);
    }
    let ghost res0 = result@;
    let ghost run0 = run@;
    let mut r1 = result;
    let mut p1 = prev;
    if run.len() > 0 {
        if !prev && !compact && r1.len() > 0 && r1[r1.len() - 1] != ' ' {
            r1.push(' ');
        }
        if is_abbrev_x(&run) {
            let up = text::upper_chars(&run);
            text::push_all(&mut r1, &up);
        } else {
            text::push_all(&mut r1, &run);
        }
        if !prev && !compact && !text::eq_str(&run, "x") {
            r1.push(' ');
        }
        p1 = false;
        proof {
            let a = if !prev && !compact && res0.len() > 0 && res0[res0.len() - 1] != ' ' {
                res0 + seq![' ']
            } else {
                res0
            };
            let b = a + flush_run(run0);
            let c = if !prev && !compact && run0 != "x"@ {
                b + seq![' ']
            } else {
                b
            };
            assert(r1@ =~= c);
        }
    }
    anc_number_x(toks, i, r1, p1, compact)
}

fn anc_number_x(
    toks: &Vec<Vec<char>>,
    i: usize,
    result: Vec<char>,
    prev: bool,
    compact: bool,
) -> (out: Vec<char>)
    requires
        i <= toks.len(),
    ensures
        out@ == anc_number_step(toks.deep_view(), i as int, result@, prev, compact),
    decreases toks.len() - i, 0nat,
{
    if i >= toks.len() {
        return result;
    }
    proof {
        assert(toks.deep_view()[i as int] == toks@[i as int]@);
        if i + 1 < toks.len() {
            assert(toks.deep_view()[i + 1 as int] == toks@[i + 1 as int]@);
        }
    }
    let wl = text::lower_chars(&toks[i]);
    let have_next = i + 1 < toks.len();
    let nextl: Vec<char> = if have_next {
        text::lower_chars(&toks[i + 1])
    } else {
        Vec::new()
    };
    if have_next && is_tens_x(&wl) && is_tens_x(&nextl) {
        if let Some(t1) = wv_chars(&wl) {
            if let Some(t2) = wv_chars(&nextl) {
                match (t1 / 10).checked_mul(1000) {
                    Some(p) => match p.checked_add(t2) {
                        Some(v) => {
                            let mut r = result;
                            let dd = text::dec_u128(v);
                            text::push_all(&mut r, &dd);
                            return anc_loop_x(toks, i + 2, r, Vec::new(), true, compact);
                        },
                        None => {
                            return result;
                        },
                    },
                    None => {
                        return result;
                    },
                }
            }
        }
    }
    if have_next && is_teen_x(&wl) && is_tens_x(&nextl) {
        if let Some(t1) = wv_chars(&wl) {
            if let Some(t2) = wv_chars(&nextl) {
                match t1.checked_mul(100) {
                    Some(p) => match p.checked_add(t2) {
                        Some(v) => {
                            let mut r = result;
                            let dd = text::dec_u128(v);
                            text::push_all(&mut r, &dd);
                            return anc_loop_x(toks, i + 2, r, Vec::new(), true, compact);
                        },
                        None => {
                            return result;
                        },
                    },
                    None => {
                        return result;
                    },
                }
            }
        }
    }
    if have_next && is_tens_x(&wl) {
        let combined = pair_join_x(&wl, &nextl);
        if let Some(num) = wv_chars(&combined) {
            let base: u128 = match wv_chars(&wl) {
                Some(v) => v,
                None => 0,
            };
            if num > base {
                let mut r = result;
                let dd = text::dec_u128(num);
                text::push_all(&mut r, &dd);
                return anc_loop_x(toks, i + 2, r, Vec::new(), true, compact);
            }
        }
    }
    if let Some(d) = digit_word_x(&wl) {
        let ghost res0 = result@;
        let mut r = result;
        r.push(d);
        proof {
            assert(r@ =~= res0 + seq![d]);
        }
        return anc_loop_x(toks, i + 1, r, Vec::new(), true, compact);
    }
    if let Some(num) = wv_chars(&wl) {
        if 10 <= num && num <= 99 {
            let mut r = result;
            let dd = text::dec_u128(num);
            text::push_all(&mut r, &dd);
            return anc_loop_x(toks, i + 1, r, Vec::new(), true, compact);
        }
    }
    let ghost res0 = result@;
    let mut r2 = result;
    if r2.len() > 0 && r2[r2.len() - 1] != ' ' {
        r2.push(' ');
    }
    text::push_all(&mut r2, &toks[i]);
    proof {
        let a = if res0.len() > 0 && res0[res0.len() - 1] != ' ' {
            res0 + seq![' ']
        } else {
            res0
        };
        assert(r2@ =~= a + toks.deep_view()[i as int]);
    }
    anc_loop_x(toks, i + 1, r2, Vec::new(), false, compact)
}

/// Any token a single letter?
pub open spec fn any_letter(toks: Seq<Seq<char>>, i: int) -> bool
    decreases toks.len() - i,
{
    if i < 0 || i >= toks.len() {
        false
    } else {
        is_single_letter_w(lower_seq(toks[i])) || any_letter(toks, i + 1)
    }
}

/// Any token a number word?
pub open spec fn any_number(toks: Seq<Seq<char>>, i: int) -> bool
    decreases toks.len() - i,
{
    if i < 0 || i >= toks.len() {
        false
    } else {
        is_number_w(lower_seq(toks[i])) || any_number(toks, i + 1)
    }
}

/// Every token a letter or number word (the compact-code shape)?
pub open spec fn all_code_words(toks: Seq<Seq<char>>, i: int) -> bool
    decreases toks.len() - i,
{
    if i < 0 || i >= toks.len() {
        true
    } else {
        (is_single_letter_w(lower_seq(toks[i])) || is_number_w(lower_seq(toks[i])))
            && all_code_words(toks, i + 1)
    }
}

/// "x eighty six" -> "x86", "r t x forty fifty" -> "RTX 4050", "five w k r a
/// three one" -> "5wkra31". The result must differ from the raw input.
pub open spec fn alphanumeric_spec(s: Seq<char>) -> Option<Seq<char>> {
    let toks = tokens_of(s);
    if toks.len() < 2 {
        None
    } else if !any_letter(toks, 0) || !any_number(toks, 0) {
        None
    } else {
        let compact = digit_word(lower_seq(toks[0])) is Some && all_code_words(toks, 0);
        let result = anc_loop(toks, 0, Seq::empty(), Seq::empty(), false, compact);
        if result.len() == 0 || result == s {
            None
        } else {
            Some(result)
        }
    }
}

fn alphanumeric_x(s: &Vec<char>) -> (r: Option<Vec<char>>)
    ensures
        view_opt_chars(r) == alphanumeric_spec(s@),
{
    let toks = text::tokenize(s);
    if toks.len() < 2 {
        return None;
    }
    let ghost dv = toks.deep_view();
    let mut has_letter = false;
    let mut has_number = false;
    let mut all_ok = true;
    let mut i: usize = 0;
    while i < toks.len()
        invariant
            i <= toks.len(),
            dv == toks.deep_view(),
            any_letter(dv, 0) == (has_letter || any_letter(dv, i as int)),
            any_number(dv, 0) == (has_number || any_number(dv, i as int)),
            all_code_words(dv, 0) == (all_ok && all_code_words(dv, i as int)),
        decreases toks.len() - i,
    {
        proof {
            assert(dv[i as int] == toks@[i as int]@);
        }
        let wl = text::lower_chars(&toks[i]);
        let sl = is_single_letter_x(&wl);
        let nw = is_number_x(&wl);
        if sl {
            has_letter = true;
        }
        if nw {
            has_number = true;
        }
        if !sl && !nw {
            all_ok = false;
        }
        i += 1;
    }
    if !has_letter || !has_number {
        return None;
    }
    proof {
        assert(dv[0] == toks@[0]@);
    }
    let first_l = text::lower_chars(&toks[0]);
    let compact = digit_word_x(&first_l).is_some() && all_ok;
    let result = anc_loop_x(&toks, 0, Vec::new(), Vec::new(), false, compact);
    if result.len() == 0 || text::eq_chars(&result, s) {
        return None;
    }
    Some(result)
}

// ---------------------------------------------------------------------------
// Phone numbers
// ---------------------------------------------------------------------------

/// The country-code scan after "plus ": single digits up to two places, or
/// one tens word.
pub open spec fn prefix_scan(toks: Seq<Seq<char>>, i: int, code: Seq<char>, consumed: int) -> (
    Seq<char>,
    int,
)
    decreases toks.len() - i,
{
    if i < 0 || i >= toks.len() {
        (code, consumed)
    } else {
        let w = toks[i];
        match digit_word(w) {
            Some(d) => {
                let code2 = code.push(d);
                if code2.len() >= 2 {
                    (code2, i + 1)
                } else {
                    prefix_scan(toks, i + 1, code2, i + 1)
                }
            },
            None => if is_tens_w(w) {
                if code.len() == 0 && (match cardinal::words_value_i128(w) {
                    Some(n) => 10 <= n <= 99,
                    None => false,
                }) {
                    (dec_rep(cardinal::words_value_i128(w)->Some_0), i + 1)
                } else {
                    (code, consumed)
                }
            } else {
                (code, consumed)
            },
        }
    }
}

/// The "+CC" prefix and the remaining input of a phone number.
pub open spec fn phone_prefix_spec(t: Seq<char>) -> (Seq<char>, Seq<char>) {
    if !starts_with(t, "plus "@) {
        (Seq::empty(), t)
    } else {
        let rest0 = t.subrange(5, t.len() as int);
        let words = tokens_of(rest0);
        let first = if words.len() >= 2 && is_tens_w(words[0]) && (
        match cardinal::words_value_i128(pair_join(words[0], words[1])) {
            Some(n) => 10 <= n <= 999,
            None => false,
        }) {
            Some((dec_rep(cardinal::words_value_i128(pair_join(words[0], words[1]))->Some_0), 2))
        } else {
            None
        };
        let cc = match first {
            Some(p) => p,
            None => prefix_scan(words, 0, Seq::empty(), 0),
        };
        let code = cc.0;
        let consumed = cc.1;
        if code.len() == 0 {
            (Seq::empty(), t)
        } else {
            let remaining = join_range(words, consumed, words.len() as int);
            let rem_start = if remaining.len() == 0 {
                t.len() as int
            } else {
                match find_sub(t, remaining) {
                    Some(ix) => ix,
                    None => t.len() as int,
                }
            };
            (seq!['+'] + code, t.subrange(rem_start, t.len() as int))
        }
    }
}

/// Grouping by digit count: 11 as "D DDD-DDD-DDDD", 10 as "DDD-DDD-DDDD",
/// 7 as "DDD-DDDD", 3 plain, other lengths above 3 as "DDD-rest".
pub open spec fn format_phone(d: Seq<char>) -> Seq<char> {
    if d.len() == 11 {
        d.subrange(0, 1) + seq![' '] + d.subrange(1, 4) + seq!['-'] + d.subrange(4, 7) + seq!['-']
            + d.subrange(7, 11)
    } else if d.len() == 10 {
        d.subrange(0, 3) + seq!['-'] + d.subrange(3, 6) + seq!['-'] + d.subrange(6, 10)
    } else if d.len() == 7 {
        d.subrange(0, 3) + seq!['-'] + d.subrange(3, 7)
    } else if d.len() == 3 {
        d
    } else if d.len() > 3 {
        d.subrange(0, 3) + seq!['-'] + d.subrange(3, d.len() as int)
    } else {
        d
    }
}

fn format_phone_x(d: &Vec<char>) -> (out: Vec<char>)
    ensures
        out@ == format_phone(d@),
{
    if d.len() == 11 {
        let mut out = text::copy_range(d, 0, 1);
        out.push(' ');
        let a = text::copy_range(d, 1, 4);
        text::push_all(&mut out, &a);
        out.push('-');
        let b = text::copy_range(d, 4, 7);
        text::push_all(&mut out, &b);
        out.push('-');
        let c = text::copy_range(d, 7, 11);
        text::push_all(&mut out, &c);
        proof {
            assert(out@ =~= format_phone(d@));
        }
        out
    } else if d.len() == 10 {
        let mut out = text::copy_range(d, 0, 3);
        out.push('-');
        let a = text::copy_range(d, 3, 6);
        text::push_all(&mut out, &a);
        out.push('-');
        let b = text::copy_range(d, 6, 10);
        text::push_all(&mut out, &b);
        proof {
            assert(out@ =~= format_phone(d@));
        }
        out
    } else if d.len() == 7 {
        let mut out = text::copy_range(d, 0, 3);
        out.push('-');
        let a = text::copy_range(d, 3, 7);
        text::push_all(&mut out, &a);
        proof {
            assert(out@ =~= format_phone(d@));
        }
        out
    } else if d.len() == 3 {
        text::dup_chars(d)
    } else if d.len() > 3 {
        let mut out = text::copy_range(d, 0, 3);
        out.push('-');
        let a = text::copy_range(d, 3, d.len());
        text::push_all(&mut out, &a);
        proof {
            assert(out@ =~= format_phone(d@));
        }
        out
    } else {
        text::dup_chars(d)
    }
}

/// A spoken phone number: optional "plus" country code, then the digit
/// sequence, formatted by its length. Without a country code at least
/// three digits are required.
pub open spec fn phone_spec(t: Seq<char>) -> Option<Seq<char>> {
    let has_plus = starts_with(t, "plus "@);
    let pr = phone_prefix_spec(t);
    let prefix = pr.0;
    let rest = pr.1;
    let ds = dseq_from(tokens_of(rest), 0);
    if ds.len() == 0 {
        None
    } else if !has_plus && ds.len() < 3 {
        None
    } else {
        let f = format_phone(ds);
        if prefix.len() == 0 {
            Some(f)
        } else {
            Some(prefix + seq![' '] + f)
        }
    }
}

fn prefix_scan_x(toks: &Vec<Vec<char>>, i: usize, code: Vec<char>, consumed: usize) -> (r: (
    Vec<char>,
    usize,
))
    requires
        i <= toks.len(),
        consumed <= toks.len(),
    ensures
        (r.0@, r.1 as int) == prefix_scan(toks.deep_view(), i as int, code@, consumed as int),
        r.1 <= toks.len(),
    decreases toks.len() - i,
{
    if i >= toks.len() {
        return (code, consumed);
    }
    proof {
        assert(toks.deep_view()[i as int] == toks@[i as int]@);
    }
    let w = &toks[i];
    if let Some(d) = digit_word_x(w) {
        let mut code2 = code;
        code2.push(d);
        if code2.len() >= 2 {
            return (code2, i + 1);
        }
        return prefix_scan_x(toks, i + 1, code2, i + 1);
    }
    if is_tens_x(w) {
        if code.len() == 0 {
            if let Some(n) = wv_chars(w) {
                if 10 <= n && n <= 99 {
                    return (text::dec_u128(n), i + 1);
                }
            }
        }
        return (code, consumed);
    }
    (code, consumed)
}

fn phone_prefix_x(t: &Vec<char>) -> (r: (Vec<char>, Vec<char>))
    ensures
        (r.0@, r.1@) == phone_prefix_spec(t@),
{
    proof {
        reveal_strlit("plus ");
    }
    if !text::starts_with_str(t, "plus ") {
        return (Vec::new(), text::dup_chars(t));
    }
    let rest0 = text::copy_range(t, 5, t.len());
    let words = text::tokenize(&rest0);
    proof {
        if words@.len() >= 2 {
            assert(words.deep_view()[0] == words@[0]@);
            assert(words.deep_view()[1] == words@[1]@);
        }
    }
    let mut code: Vec<char> = Vec::new();
    let mut consumed: usize = 0;
    let mut first_found = false;
    if words.len() >= 2 && is_tens_x(&words[0]) {
        let combined = pair_join_x(&words[0], &words[1]);
        if let Some(n) = wv_chars(&combined) {
            if 10 <= n && n <= 999 {
                code = text::dec_u128(n);
                consumed = 2;
                first_found = true;
            }
        }
    }
    if !first_found {
        let sc = prefix_scan_x(&words, 0, Vec::new(), 0);
        code = sc.0;
        consumed = sc.1;
    }
    if code.len() == 0 {
        return (Vec::new(), text::dup_chars(t));
    }
    let remaining = text::join_tokens(&words, consumed, words.len());
    let rem_start: usize = if remaining.len() == 0 {
        t.len()
    } else {
        match text::find_sub_from(t, &remaining, 0) {
            Some(ix) => ix,
            None => t.len(),
        }
    };
    proof {
        if remaining@.len() > 0 {
            text::lemma_find_from_occurs(t@, remaining@, 0);
        }
    }
    let mut prefix: Vec<char> = Vec::new();
    prefix.push('+');
    text::push_all(&mut prefix, &code);
    let rest = text::copy_range(t, rem_start, t.len());
    proof {
        let sp = phone_prefix_spec(t@);
        assert(prefix@ =~= sp.0);
    }
    (prefix, rest)
}

fn phone_x(t: &Vec<char>) -> (r: Option<Vec<char>>)
    ensures
        view_opt_chars(r) == phone_spec(t@),
{
    proof {
        reveal_strlit("plus ");
    }
    let has_plus = text::starts_with_str(t, "plus ");
    let (prefix, rest) = phone_prefix_x(t);
    let ds = dseq_of(&rest);
    if ds.len() == 0 {
        return None;
    }
    if !has_plus && ds.len() < 3 {
        return None;
    }
    let f = format_phone_x(&ds);
    if prefix.len() == 0 {
        return Some(f);
    }
    let mut out = prefix;
    out.push(' ');
    text::push_all(&mut out, &f);
    proof {
        let sp = phone_spec(t@);
        assert(out@ =~= sp->Some_0);
    }
    Some(out)
}

// ---------------------------------------------------------------------------
// Gates
// ---------------------------------------------------------------------------

/// A word that contributes digits to a phone reading.
pub open spec fn is_digitish(w: Seq<char>) -> bool {
    digit_word(w) is Some || w == "double"@ || w == "triple"@ || is_teen_w(w) || is_tens_w(w)
}

pub open spec fn any_digitish(toks: Seq<Seq<char>>, i: int) -> bool
    decreases toks.len() - i,
{
    if i < 0 || i >= toks.len() {
        false
    } else {
        is_digitish(toks[i]) || any_digitish(toks, i + 1)
    }
}

/// A scale word, which marks the input as a cardinal rather than a phone.
pub open spec fn is_scale_w(w: Seq<char>) -> bool {
    w == "hundred"@ || w == "thousand"@ || w == "million"@ || w == "billion"@ || w == "trillion"@
        || w == "quadrillion"@ || w == "quintillion"@ || w == "sextillion"@ || w == "crore"@ || w
        == "lakh"@
}

pub open spec fn any_scale(toks: Seq<Seq<char>>, i: int) -> bool
    decreases toks.len() - i,
{
    if i < 0 || i >= toks.len() {
        false
    } else {
        is_scale_w(toks[i]) || any_scale(toks, i + 1)
    }
}

fn is_digitish_x(w: &Vec<char>) -> (r: bool)
    ensures
        r == is_digitish(w@),
{
    digit_word_x(w).is_some() || text::eq_str(w, "double") || text::eq_str(w, "triple")
        || is_teen_x(w) || is_tens_x(w)
}

fn is_scale_x(w: &Vec<char>) -> (r: bool)
    ensures
        r == is_scale_w(w@),
{
    text::eq_str(w, "hundred") || text::eq_str(w, "thousand") || text::eq_str(w, "million")
        || text::eq_str(w, "billion") || text::eq_str(w, "trillion") || text::eq_str(
        w,
        "quadrillion",
    ) || text::eq_str(w, "quintillion") || text::eq_str(w, "sextillion") || text::eq_str(
        w,
        "crore",
    ) || text::eq_str(w, "lakh")
}

fn any_digitish_x(toks: &Vec<Vec<char>>) -> (r: bool)
    ensures
        r == any_digitish(toks.deep_view(), 0),
{
    let mut i: usize = 0;
    loop
        invariant
            i <= toks.len(),
            any_digitish(toks.deep_view(), 0) == any_digitish(toks.deep_view(), i as int),
        decreases toks.len() - i,
    {
        if i >= toks.len() {
            return false;
        }
        proof {
            assert(toks.deep_view()[i as int] == toks@[i as int]@);
        }
        if is_digitish_x(&toks[i]) {
            return true;
        }
        i += 1;
    }
}

fn any_scale_x(toks: &Vec<Vec<char>>) -> (r: bool)
    ensures
        r == any_scale(toks.deep_view(), 0),
{
    let mut i: usize = 0;
    loop
        invariant
            i <= toks.len(),
            any_scale(toks.deep_view(), 0) == any_scale(toks.deep_view(), i as int),
        decreases toks.len() - i,
    {
        if i >= toks.len() {
            return false;
        }
        proof {
            assert(toks.deep_view()[i as int] == toks@[i as int]@);
        }
        if is_scale_x(&toks[i]) {
            return true;
        }
        i += 1;
    }
}

// ---------------------------------------------------------------------------
// The tagger
// ---------------------------------------------------------------------------

/// The written form of a spoken telephone-like expression; commas decline,
/// " dot " routes to the IP reading, "ssn" to the SSN reading, then the
/// alphanumeric scan, and finally the plain phone number.
pub open spec fn telephone_spec(s: Seq<char>) -> Option<Seq<char>> {
    let t = trim_seq(lower_seq(s));
    if contains_sub(t, ","@) {
        None
    } else if contains_sub(t, " dot "@) {
        ip_spec(t)
    } else if contains_sub(t, "ssn"@) {
        ssn_spec(s, t)
    } else {
        match alphanumeric_spec(s) {
            Some(r) => Some(r),
            None => if !any_digitish(tokens_of(t), 0) {
                None
            } else if any_scale(tokens_of(t), 0) {
                None
            } else {
                phone_spec(t)
            },
        }
    }
}

/// Character-vector form of [`parse`].
pub fn parse_chars(cv: &Vec<char>) -> (r: Option<Vec<char>>)
    ensures
        view_opt_chars(r) == telephone_spec(cv@),
{
    proof {
        reveal_strlit(",");
        reveal_strlit(" dot ");
        reveal_strlit("ssn");
    }
    let low = text::lower_chars(cv);
    let t = text::trim_chars(&low);
    if text::contains_str(&t, ",") {
        return None;
    }
    if text::contains_str(&t, " dot ") {
        return ip_x(&t);
    }
    if text::contains_str(&t, "ssn") {
        return ssn_x(cv, &t);
    }
    if let Some(r) = alphanumeric_x(cv) {
        return Some(r);
    }
    let toks = text::tokenize(&t);
    if !any_digitish_x(&toks) {
        return None;
    }
    if any_scale_x(&toks) {
        return None;
    }
    phone_x(&t)
}

/// Parse a spoken telephone, IP, SSN or code expression to written form.
pub fn parse(input: &str) -> (r: Option<String>)
    ensures
        view_opt_str(r) == telephone_spec(input@),
{
    let cv = text::str_to_chars(input);
    match parse_chars(&cv) {
        Some(out) => Some(text::chars_to_string(&out)),
        None => None,
    }
}

} // verus!
