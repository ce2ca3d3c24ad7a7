//! Date tagger: spoken date expressions to written form.
//!
//! "july twenty fifth two thousand twelve" -> "july 25 2012",
//! "nineteen eighties" -> "1980s", "the fifteenth of january" ->
//! "15 january", "seven fifty b c" -> "750BC".

use vstd::prelude::*;

use crate::taggers::cardinal;
use crate::taggers::ordinal;
use crate::text;
use crate::text::{
    dec_rep, ends_with, find_sub, is_ascii_digit_char, join_range, lower_seq, starts_with,
    strip_prefix_all, tokens_of, trim_seq, view_opt_chars, view_opt_str,
};

verus! {

// ---------------------------------------------------------------------------
// Helpers
// ---------------------------------------------------------------------------

/// The ASCII digits of `s` from position `i`, in order.
pub open spec fn digits_of(s: Seq<char>, i: int) -> Seq<char>
    decreases s.len() - i,
{
    if i < 0 || i >= s.len() {
        Seq::empty()
    } else if is_ascii_digit_char(s[i]) {
        seq![s[i]] + digits_of(s, i + 1)
    } else {
        digits_of(s, i + 1)
    }
}

fn digits_of_x(s: &Vec<char>) -> (out: Vec<char>)
    ensures
        out@ == digits_of(s@, 0),
{
    let mut out: Vec<char> = Vec::new();
    digits_of_into(s, 0, &mut out);
    proof {
        assert(Seq::<char>::empty() + digits_of(s@, 0) =~= digits_of(s@, 0));
    }
    out
}

fn digits_of_into(s: &Vec<char>, i: usize, out: &mut Vec<char>)
    requires
        i <= s.len(),
    ensures
        final(out)@ == old(out)@ + digits_of(s@, i as int),
    decreases s.len() - i,
{
    if i >= s.len() {
        proof {
            assert(out@ =~= old(out)@ + Seq::<char>::empty());
        }
        return ;
    }
    let ghost pre = out@;
    if text::is_ascii_digit_x(s[i]) {
        out.push(s[i]);
    }
    digits_of_into(s, i + 1, out);
    proof {
        assert(out@ =~= pre + digits_of(s@, i as int));
    }
}

/// Is the token a month name?
pub open spec fn is_month(w: Seq<char>) -> bool {
    w == "january"@ || w == "february"@ || w == "march"@ || w == "april"@ || w == "may"@ || w
        == "june"@ || w == "july"@ || w == "august"@ || w == "september"@ || w == "october"@ || w
        == "november"@ || w == "december"@
}

fn is_month_x(w: &Vec<char>) -> (r: bool)
    ensures
        r == is_month(w@),
{
    text::eq_str(w, "january") || text::eq_str(w, "february") || text::eq_str(w, "march")
        || text::eq_str(w, "april") || text::eq_str(w, "may") || text::eq_str(w, "june")
        || text::eq_str(w, "july") || text::eq_str(w, "august") || text::eq_str(w, "september")
        || text::eq_str(w, "october") || text::eq_str(w, "november") || text::eq_str(w, "december")
}

/// The first original token whose lowercase form is `m`, else `m` itself.
pub open spec fn orig_month_from(toks: Seq<Seq<char>>, i: int, m: Seq<char>) -> Seq<char>
    decreases toks.len() - i,
{
    if i < 0 || i >= toks.len() {
        m
    } else if lower_seq(toks[i]) == m {
        toks[i]
    } else {
        orig_month_from(toks, i + 1, m)
    }
}

fn orig_month_x(toks: &Vec<Vec<char>>, m: &Vec<char>) -> (out: Vec<char>)
    ensures
        out@ == orig_month_from(toks.deep_view(), 0, m@),
{
    let mut i: usize = 0;
    loop
        invariant
            i <= toks.len(),
            orig_month_from(toks.deep_view(), 0, m@) == orig_month_from(
                toks.deep_view(),
                i as int,
                m@,
            ),
        decreases toks.len() - i,
    {
        if i >= toks.len() {
            return text::dup_chars(m);
        }
        proof {
            assert(toks.deep_view()[i as int] == toks@[i as int]@);
        }
        let wl = text::lower_chars(&toks[i]);
        if text::eq_chars(&wl, m) {
            return text::dup_chars(&toks[i]);
        }
        i += 1;
    }
}

fn wv_chars(v: &Vec<char>) -> (r: Option<u128>)
    ensures
        match r {
            Some(n) => cardinal::words_value_i128(v@) == Some(n as int),
            None => cardinal::words_value_i128(v@) is None,
        },
{
    match cardinal::words_value_chars(v) {
        Some(n) => if n <= i128::MAX as u128 {
            Some(n)
        } else {
            None
        },
        None => None,
    }
}

// ---------------------------------------------------------------------------
// Year numbers
// ---------------------------------------------------------------------------

/// The century value of a leading century word ("eleven" through "twenty").
pub open spec fn century_val(w: Seq<char>) -> Option<int> {
    if w == "nineteen"@ {
        Some(19)
    } else if w == "twenty"@ {
        Some(20)
    } else if w == "eighteen"@ {
        Some(18)
    } else if w == "seventeen"@ {
        Some(17)
    } else if w == "sixteen"@ {
        Some(16)
    } else if w == "fifteen"@ {
        Some(15)
    } else if w == "fourteen"@ {
        Some(14)
    } else if w == "thirteen"@ {
        Some(13)
    } else if w == "twelve"@ {
        Some(12)
    } else if w == "eleven"@ {
        Some(11)
    } else {
        None
    }
}

fn century_x(w: &Vec<char>) -> (r: Option<u128>)
    ensures
        match r {
            Some(v) => century_val(w@) == Some(v as int),
            None => century_val(w@) is None,
        },
{
    if text::eq_str(w, "nineteen") {
        Some(19)
    } else if text::eq_str(w, "twenty") {
        Some(20)
    } else if text::eq_str(w, "eighteen") {
        Some(18)
    } else if text::eq_str(w, "seventeen") {
        Some(17)
    } else if text::eq_str(w, "sixteen") {
        Some(16)
    } else if text::eq_str(w, "fifteen") {
        Some(15)
    } else if text::eq_str(w, "fourteen") {
        Some(14)
    } else if text::eq_str(w, "thirteen") {
        Some(13)
    } else if text::eq_str(w, "twelve") {
        Some(12)
    } else if text::eq_str(w, "eleven") {
        Some(11)
    } else {
        None
    }
}

/// The value of a spoken year: "two thousand [and] X", "one thousand X",
/// century-pair forms ("nineteen seventy six", "nineteen oh five"), or any
/// cardinal between 100 and 9999.
pub open spec fn year_number_spec(s: Seq<char>) -> Option<int> {
    let toks = tokens_of(s);
    if toks.len() == 0 {
        None
    } else if starts_with(s, "two thousand"@) {
        let rest = trim_seq(
            strip_prefix_all(trim_seq(s.subrange(12, s.len() as int)), "and "@),
        );
        if rest.len() == 0 {
            Some(2000)
        } else {
            match cardinal::words_value_i128(rest) {
                Some(y) => if 2000 + y <= u128::MAX {
                    Some(2000 + y)
                } else {
                    None
                },
                None => None,
            }
        }
    } else if starts_with(s, "one thousand"@) {
        let rest = trim_seq(s.subrange(12, s.len() as int));
        if rest.len() == 0 {
            Some(1000)
        } else {
            match cardinal::words_value_i128(rest) {
                Some(y) => if 1000 + y <= u128::MAX {
                    Some(1000 + y)
                } else {
                    None
                },
                None => None,
            }
        }
    } else {
        year_century_or_plain(s, toks)
    }
}

/// The century-pair and plain-cardinal tail of [`year_number_spec`].
pub open spec fn year_century_or_plain(s: Seq<char>, toks: Seq<Seq<char>>) -> Option<int> {
    if toks.len() >= 2 && century_val(toks[0]) is Some {
        let c = century_val(toks[0])->Some_0;
        let year_part = join_range(toks, 1, toks.len() as int);
        if starts_with(year_part, "oh "@) {
            match cardinal::words_value_i128(year_part.subrange(3, year_part.len() as int)) {
                Some(d) => if c * 100 + d <= u128::MAX {
                    Some(c * 100 + d)
                } else {
                    None
                },
                None => None,
            }
        } else if starts_with(year_part, "o "@) {
            match cardinal::words_value_i128(year_part.subrange(2, year_part.len() as int)) {
                Some(d) => if c * 100 + d <= u128::MAX {
                    Some(c * 100 + d)
                } else {
                    None
                },
                None => None,
            }
        } else if (match cardinal::words_value_i128(year_part) {
            Some(yy) => 0 <= yy <= 99,
            None => false,
        }) {
            Some(c * 100 + cardinal::words_value_i128(year_part)->Some_0)
        } else {
            year_plain(s)
        }
    } else {
        year_plain(s)
    }
}

/// A plain cardinal that looks like a year (three or four digits).
pub open spec fn year_plain(s: Seq<char>) -> Option<int> {
    match cardinal::words_value_i128(s) {
        Some(n) => if 100 <= n <= 9999 {
            Some(n)
        } else {
            None
        },
        None => None,
    }
}

fn year_plain_x(s: &Vec<char>) -> (r: Option<u128>)
    ensures
        match r {
            Some(n) => year_plain(s@) == Some(n as int),
            None => year_plain(s@) is None,
        },
{
    match wv_chars(s) {
        Some(n) => if 100 <= n && n <= 9999 {
            Some(n)
        } else {
            None
        },
        None => None,
    }
}

pub fn year_number_x(s: &Vec<char>) -> (r: Option<u128>)
    ensures
        match r {
            Some(n) => year_number_spec(s@) == Some(n as int),
            None => year_number_spec(s@) is None,
        },
{
    proof {
        reveal_strlit("two thousand");
        reveal_strlit("one thousand");
        reveal_strlit("and ");
        reveal_strlit("oh ");
        reveal_strlit("o ");
    }
    let toks = text::tokenize(s);
    if toks.len() == 0 {
        return None;
    }
    if text::starts_with_str(s, "two thousand") {
        let cut = text::copy_range(s, 12, s.len());
        let t1 = text::trim_chars(&cut);
        let t2 = text::strip_prefix_all_x(&t1, "and ");
        let rest = text::trim_chars(&t2);
        if rest.len() == 0 {
            return Some(2000);
        }
        return match wv_chars(&rest) {
            Some(y) => y.checked_add(2000),
            None => None,
        };
    }
    if text::starts_with_str(s, "one thousand") {
        let cut = text::copy_range(s, 12, s.len());
        let rest = text::trim_chars(&cut);
        if rest.len() == 0 {
            return Some(1000);
        }
        return match wv_chars(&rest) {
            Some(y) => y.checked_add(1000),
            None => None,
        };
    }
    if toks.len() >= 2 {
        proof {
            assert(toks.deep_view()[0] == toks@[0]@);
        }
        if let Some(c) = century_x(&toks[0]) {
            let year_part = text::join_tokens(&toks, 1, toks.len());
            if text::starts_with_str(&year_part, "oh ") {
                let dp = text::copy_range(&year_part, 3, year_part.len());
                return match wv_chars(&dp) {
                    Some(d) => (c * 100).checked_add(d),
                    None => None,
                };
            }
            if text::starts_with_str(&year_part, "o ") {
                let dp = text::copy_range(&year_part, 2, year_part.len());
                return match wv_chars(&dp) {
                    Some(d) => (c * 100).checked_add(d),
                    None => None,
                };
            }
            if let Some(yy) = wv_chars(&year_part) {
                if yy <= 99 {
                    return Some(c * 100 + yy);
                }
            }
            return year_plain_x(s);
        }
    }
    year_plain_x(s)
}

// ---------------------------------------------------------------------------
// Quarters
// ---------------------------------------------------------------------------

/// "second quarter of twenty twenty two" -> "Q2 2022".
pub open spec fn quarter_spec(low: Seq<char>) -> Option<Seq<char>> {
    if starts_with(low, "first quarter of "@) {
        quarter_tail(low, 17, "Q1"@)
    } else if starts_with(low, "second quarter of "@) {
        quarter_tail(low, 18, "Q2"@)
    } else if starts_with(low, "third quarter of "@) {
        quarter_tail(low, 17, "Q3"@)
    } else if starts_with(low, "fourth quarter of "@) {
        quarter_tail(low, 18, "Q4"@)
    } else {
        None
    }
}

pub open spec fn quarter_tail(low: Seq<char>, cut: int, q: Seq<char>) -> Option<Seq<char>> {
    if cut > low.len() {
        None
    } else {
        match year_number_spec(low.subrange(cut, low.len() as int)) {
            Some(y) => Some(q + seq![' '] + dec_rep(y)),
            None => None,
        }
    }
}

fn quarter_x(low: &Vec<char>) -> (r: Option<Vec<char>>)
    ensures
        view_opt_chars(r) == quarter_spec(low@),
{
    proof {
        reveal_strlit("first quarter of ");
        reveal_strlit("second quarter of ");
        reveal_strlit("third quarter of ");
        reveal_strlit("fourth quarter of ");
    }
    let (q, cut): (&str, usize) = if text::starts_with_str(low, "first quarter of ") {
        ("Q1", 17)
    } else if text::starts_with_str(low, "second quarter of ") {
        ("Q2", 18)
    } else if text::starts_with_str(low, "third quarter of ") {
        ("Q3", 17)
    } else if text::starts_with_str(low, "fourth quarter of ") {
        ("Q4", 18)
    } else {
        return None;
    };
    let year_part = text::copy_range(low, cut, low.len());
    match year_number_x(&year_part) {
        Some(y) => {
            let mut out = text::str_to_chars(q);
            out.push(' ');
            let yy = text::dec_u128(y);
            text::push_all(&mut out, &yy);
            proof {
                let sp = quarter_spec(low@);
                assert(out@ =~= sp->Some_0);
            }
            Some(out)
        },
        None => None,
    }
}

// ---------------------------------------------------------------------------
// Era years
// ---------------------------------------------------------------------------

/// "seven fifty" -> 750: a one-token century in 1..99 followed by a
/// two-digit remainder in 0..99.
pub open spec fn old_year_spec(s: Seq<char>) -> Option<int> {
    let toks = tokens_of(s);
    if toks.len() < 2 {
        None
    } else {
        match cardinal::words_value_i128(toks[0]) {
            Some(c) => if 1 <= c <= 99 {
                match cardinal::words_value_i128(join_range(toks, 1, toks.len() as int)) {
                    Some(y) => if 0 <= y <= 99 {
                        Some(c * 100 + y)
                    } else {
                        None
                    },
                    None => None,
                }
            } else {
                None
            },
            None => None,
        }
    }
}

fn old_year_x(s: &Vec<char>) -> (r: Option<u128>)
    ensures
        match r {
            Some(n) => old_year_spec(s@) == Some(n as int),
            None => old_year_spec(s@) is None,
        },
{
    let toks = text::tokenize(s);
    if toks.len() < 2 {
        return None;
    }
    proof {
        assert(toks.deep_view()[0] == toks@[0]@);
    }
    let c = match wv_chars(&toks[0]) {
        Some(c) => c,
        None => {
            return None;
        },
    };
    if !(1 <= c && c <= 99) {
        return None;
    }
    let rest = text::join_tokens(&toks, 1, toks.len());
    let y = match wv_chars(&rest) {
        Some(y) => y,
        None => {
            return None;
        },
    };
    if y <= 99 {
        Some(c * 100 + y)
    } else {
        None
    }
}

/// "seven fifty b c" -> "750BC": a year before an era suffix, the era
/// uppercased with its spaces removed.
pub open spec fn bc_year_spec(low: Seq<char>) -> Option<Seq<char>> {
    if ends_with(low, " b c"@) {
        bc_tail(low, 4, "BC"@)
    } else if ends_with(low, " bc"@) {
        bc_tail(low, 3, "BC"@)
    } else if ends_with(low, " a d"@) {
        bc_tail(low, 4, "AD"@)
    } else if ends_with(low, " ad"@) {
        bc_tail(low, 3, "AD"@)
    } else {
        None
    }
}

pub open spec fn bc_tail(low: Seq<char>, sl: int, era: Seq<char>) -> Option<Seq<char>> {
    if sl > low.len() {
        None
    } else {
        let num_part = low.subrange(0, low.len() - sl);
        match old_year_spec(num_part) {
            Some(y) => Some(dec_rep(y) + era),
            None => match cardinal::words_value_i128(num_part) {
                Some(y) => Some(dec_rep(y) + era),
                None => None,
            },
        }
    }
}

fn bc_year_x(low: &Vec<char>) -> (r: Option<Vec<char>>)
    ensures
        view_opt_chars(r) == bc_year_spec(low@),
{
    proof {
        reveal_strlit(" b c");
        reveal_strlit(" bc");
        reveal_strlit(" a d");
        reveal_strlit(" ad");
    }
    let (sl, era): (usize, &str) = if text::ends_with_str(low, " b c") {
        (4, "BC")
    } else if text::ends_with_str(low, " bc") {
        (3, "BC")
    } else if text::ends_with_str(low, " a d") {
        (4, "AD")
    } else if text::ends_with_str(low, " ad") {
        (3, "AD")
    } else {
        return None;
    };
    let num_part = text::copy_range(low, 0, low.len() - sl);
    let y = match old_year_x(&num_part) {
        Some(y) => y,
        None => match wv_chars(&num_part) {
            Some(y) => y,
            None => {
                return None;
            },
        },
    };
    let mut out = text::dec_u128(y);
    text::push_str_chars(&mut out, era);
    proof {
        let sp = bc_year_spec(low@);
        assert(out@ =~= sp->Some_0);
    }
    Some(out)
}

// ---------------------------------------------------------------------------
// Decades
// ---------------------------------------------------------------------------

/// The century prefix of a decade: "nineteen" -> 19, ..., "twenty one" -> 21.
pub open spec fn century_prefix_val(s: Seq<char>) -> Option<int> {
    if s == "ten"@ {
        Some(10)
    } else if s == "eleven"@ {
        Some(11)
    } else if s == "twelve"@ {
        Some(12)
    } else if s == "thirteen"@ {
        Some(13)
    } else if s == "fourteen"@ {
        Some(14)
    } else if s == "fifteen"@ {
        Some(15)
    } else if s == "sixteen"@ {
        Some(16)
    } else if s == "seventeen"@ {
        Some(17)
    } else if s == "eighteen"@ {
        Some(18)
    } else if s == "nineteen"@ {
        Some(19)
    } else if s == "twenty"@ {
        Some(20)
    } else if s == "twenty one"@ {
        Some(21)
    } else {
        None
    }
}

fn century_prefix_x(s: &Vec<char>) -> (r: Option<u128>)
    ensures
        match r {
            Some(v) => century_prefix_val(s@) == Some(v as int),
            None => century_prefix_val(s@) is None,
        },
{
    if text::eq_str(s, "ten") {
        Some(10)
    } else if text::eq_str(s, "eleven") {
        Some(11)
    } else if text::eq_str(s, "twelve") {
        Some(12)
    } else if text::eq_str(s, "thirteen") {
        Some(13)
    } else if text::eq_str(s, "fourteen") {
        Some(14)
    } else if text::eq_str(s, "fifteen") {
        Some(15)
    } else if text::eq_str(s, "sixteen") {
        Some(16)
    } else if text::eq_str(s, "seventeen") {
        Some(17)
    } else if text::eq_str(s, "eighteen") {
        Some(18)
    } else if text::eq_str(s, "nineteen") {
        Some(19)
    } else if text::eq_str(s, "twenty") {
        Some(20)
    } else if text::eq_str(s, "twenty one") {
        Some(21)
    } else {
        None
    }
}

/// "nineteen eighties" -> "1980s", "eighties" -> "80s".
pub open spec fn decade_spec(low: Seq<char>) -> Option<Seq<char>> {
    if ends_with(low, "twenties"@) {
        decade_tail(low, 8, 20)
    } else if ends_with(low, "thirties"@) {
        decade_tail(low, 8, 30)
    } else if ends_with(low, "forties"@) {
        decade_tail(low, 7, 40)
    } else if ends_with(low, "fifties"@) {
        decade_tail(low, 7, 50)
    } else if ends_with(low, "sixties"@) {
        decade_tail(low, 7, 60)
    } else if ends_with(low, "seventies"@) {
        decade_tail(low, 9, 70)
    } else if ends_with(low, "eighties"@) {
        decade_tail(low, 8, 80)
    } else if ends_with(low, "nineties"@) {
        decade_tail(low, 8, 90)
    } else {
        None
    }
}

pub open spec fn decade_tail(low: Seq<char>, sl: int, d: int) -> Option<Seq<char>> {
    if sl > low.len() {
        None
    } else {
        let prefix = trim_seq(low.subrange(0, low.len() - sl));
        if prefix.len() == 0 {
            Some(dec_rep(d) + seq!['s'])
        } else {
            match century_prefix_val(prefix) {
                Some(c) => Some(dec_rep(c) + dec_rep(d) + seq!['s']),
                None => None,
            }
        }
    }
}

fn decade_tail_x(low: &Vec<char>, sl: usize, d: u128) -> (r: Option<Vec<char>>)
    requires
        sl <= low.len(),
    ensures
        view_opt_chars(r) == decade_tail(low@, sl as int, d as int),
{
    let cut = text::copy_range(low, 0, low.len() - sl);
    let prefix = text::trim_chars(&cut);
    if prefix.len() == 0 {
        let mut out = text::dec_u128(d);
        out.push('s');
        proof {
            assert(out@ =~= dec_rep(d as int) + seq!['s']);
        }
        return Some(out);
    }
    match century_prefix_x(&prefix) {
        Some(c) => {
            let mut out = text::dec_u128(c);
            let dd = text::dec_u128(d);
            text::push_all(&mut out, &dd);
            out.push('s');
            proof {
                assert(out@ =~= dec_rep(c as int) + dec_rep(d as int) + seq!['s']);
            }
            Some(out)
        },
        None => None,
    }
}

fn decade_x(low: &Vec<char>) -> (r: Option<Vec<char>>)
    ensures
        view_opt_chars(r) == decade_spec(low@),
{
    proof {
        reveal_strlit("twenties");
        reveal_strlit("thirties");
        reveal_strlit("forties");
        reveal_strlit("fifties");
        reveal_strlit("sixties");
        reveal_strlit("seventies");
        reveal_strlit("eighties");
        reveal_strlit("nineties");
    }
    if text::ends_with_str(low, "twenties") {
        decade_tail_x(low, 8, 20)
    } else if text::ends_with_str(low, "thirties") {
        decade_tail_x(low, 8, 30)
    } else if text::ends_with_str(low, "forties") {
        decade_tail_x(low, 7, 40)
    } else if text::ends_with_str(low, "fifties") {
        decade_tail_x(low, 7, 50)
    } else if text::ends_with_str(low, "sixties") {
        decade_tail_x(low, 7, 60)
    } else if text::ends_with_str(low, "seventies") {
        decade_tail_x(low, 9, 70)
    } else if text::ends_with_str(low, "eighties") {
        decade_tail_x(low, 8, 80)
    } else if text::ends_with_str(low, "nineties") {
        decade_tail_x(low, 8, 90)
    } else {
        None
    }
}

// ---------------------------------------------------------------------------
// "the <ordinal> of <month> [year]"
// ---------------------------------------------------------------------------

/// "the fifteenth of january" -> "15 january"; the month keeps the casing
/// it has in the original input.
pub open spec fn day_of_month_spec(orig: Seq<char>, low: Seq<char>) -> Option<Seq<char>> {
    if !starts_with(low, "the "@) {
        None
    } else {
        let rest = low.subrange(4, low.len() as int);
        match find_sub(rest, " of "@) {
            None => None,
            Some(p) => {
                let day_part = rest.subrange(0, p);
                let my_part = rest.subrange(p + 4, rest.len() as int);
                match ordinal::ordinal_spec(day_part) {
                    None => None,
                    Some(day_str) => {
                        let day_num = digits_of(day_str, 0);
                        let words = tokens_of(my_part);
                        let orig_words = tokens_of(orig);
                        if words.len() == 0 || !is_month(words[0]) {
                            None
                        } else {
                            let om = orig_month_from(orig_words, 0, words[0]);
                            if words.len() == 1 {
                                Some(day_num + seq![' '] + om)
                            } else {
                                match year_number_spec(
                                    join_range(words, 1, words.len() as int),
                                ) {
                                    Some(y) => Some(
                                        day_num + seq![' '] + om + seq![' '] + dec_rep(y),
                                    ),
                                    None => None,
                                }
                            }
                        }
                    },
                }
            },
        }
    }
}

fn day_of_month_x(orig: &Vec<char>, low: &Vec<char>) -> (r: Option<Vec<char>>)
    ensures
        view_opt_chars(r) == day_of_month_spec(orig@, low@),
{
    proof {
        reveal_strlit("the ");
        reveal_strlit(" of ");
    }
    if !text::starts_with_str(low, "the ") {
        return None;
    }
    let rest = text::copy_range(low, 4, low.len());
    let p = match text::find_str(&rest, " of ") {
        Some(p) => p,
        None => {
            return None;
        },
    };
    proof {
        text::lemma_find_from_occurs(rest@, " of "@, 0);
        assert(p + 4 <= rest.len());
    }
    let day_part = text::copy_range(&rest, 0, p);
    let my_part = text::copy_range(&rest, p + 4, rest.len());
    let day_str = match ordinal::parse_chars(&day_part) {
        Some(d) => d,
        None => {
            return None;
        },
    };
    let day_num = digits_of_x(&day_str);
    let words = text::tokenize(&my_part);
    let orig_words = text::tokenize(orig);
    if words.len() == 0 {
        return None;
    }
    proof {
        assert(words.deep_view()[0] == words@[0]@);
    }
    if !is_month_x(&words[0]) {
        return None;
    }
    let om = orig_month_x(&orig_words, &words[0]);
    if words.len() == 1 {
        let mut out = day_num;
        out.push(' ');
        text::push_all(&mut out, &om);
        proof {
            let sp = day_of_month_spec(orig@, low@);
            assert(out@ =~= sp->Some_0);
        }
        return Some(out);
    }
    let yw = text::join_tokens(&words, 1, words.len());
    match year_number_x(&yw) {
        Some(y) => {
            let mut out = day_num;
            out.push(' ');
            text::push_all(&mut out, &om);
            out.push(' ');
            let yy = text::dec_u128(y);
            text::push_all(&mut out, &yy);
            proof {
                let sp = day_of_month_spec(orig@, low@);
                assert(out@ =~= sp->Some_0);
            }
            Some(out)
        },
        None => None,
    }
}

// ---------------------------------------------------------------------------
// "<month> <year>"
// ---------------------------------------------------------------------------

/// "july two thousand twelve" -> "july 2012"; the month keeps the casing of
/// the first original token.
pub open spec fn month_year_spec(orig: Seq<char>, low: Seq<char>) -> Option<Seq<char>> {
    let words = tokens_of(low);
    let orig_words = tokens_of(orig);
    if words.len() < 2 || !is_month(words[0]) {
        None
    } else {
        let om = if orig_words.len() > 0 {
            orig_words[0]
        } else {
            words[0]
        };
        match year_number_spec(join_range(words, 1, words.len() as int)) {
            Some(y) => Some(om + seq![' '] + dec_rep(y)),
            None => None,
        }
    }
}

fn month_year_x(orig: &Vec<char>, low: &Vec<char>) -> (r: Option<Vec<char>>)
    ensures
        view_opt_chars(r) == month_year_spec(orig@, low@),
{
    let words = text::tokenize(low);
    let orig_words = text::tokenize(orig);
    if words.len() < 2 {
        return None;
    }
    proof {
        assert(words.deep_view()[0] == words@[0]@);
        if orig_words.len() > 0 {
            assert(orig_words.deep_view()[0] == orig_words@[0]@);
        }
    }
    if !is_month_x(&words[0]) {
        return None;
    }
    let om = if orig_words.len() > 0 {
        text::dup_chars(&orig_words[0])
    } else {
        text::dup_chars(&words[0])
    };
    let yw = text::join_tokens(&words, 1, words.len());
    match year_number_x(&yw) {
        Some(y) => {
            let mut out = om;
            out.push(' ');
            let yy = text::dec_u128(y);
            text::push_all(&mut out, &yy);
            proof {
                let sp = month_year_spec(orig@, low@);
                assert(out@ =~= sp->Some_0);
            }
            Some(out)
        },
        None => None,
    }
}

// ---------------------------------------------------------------------------
// "<month> <day> [year]"
// ---------------------------------------------------------------------------

/// Ordinal-day splits tried at widths 2 through 4: "july twenty fifth two
/// thousand twelve" takes the first split whose day is an ordinal and whose
/// remainder, if any, is a year.
pub open spec fn mdy_try(om: Seq<char>, words: Seq<Seq<char>>, sp: int) -> Option<Seq<char>>
    decreases words.len() + 5 - sp,
{
    let bound = if words.len() < 4 {
        words.len() as int
    } else {
        4
    };
    if sp < 2 || sp > bound {
        None
    } else {
        let day_words = join_range(words, 1, sp);
        match ordinal::ordinal_spec(day_words) {
            Some(day_str) => {
                let day_num = digits_of(day_str, 0);
                if sp == words.len() {
                    Some(om + seq![' '] + day_num)
                } else {
                    match year_number_spec(join_range(words, sp, words.len() as int)) {
                        Some(y) => Some(om + seq![' '] + day_num + seq![' '] + dec_rep(y)),
                        None => mdy_try(om, words, sp + 1),
                    }
                }
            },
            None => mdy_try(om, words, sp + 1),
        }
    }
}

/// The cardinal-day fallback: "june thirty" -> "june 30".
pub open spec fn mdy_cardinal(om: Seq<char>, words: Seq<Seq<char>>) -> Option<Seq<char>> {
    if words.len() < 2 {
        None
    } else {
        match cardinal::words_value_i128(words[1]) {
            Some(day) => if 1 <= day <= 31 {
                if words.len() == 2 {
                    Some(om + seq![' '] + dec_rep(day))
                } else {
                    match year_number_spec(join_range(words, 2, words.len() as int)) {
                        Some(y) => Some(om + seq![' '] + dec_rep(day) + seq![' '] + dec_rep(y)),
                        None => None,
                    }
                }
            } else {
                None
            },
            None => None,
        }
    }
}

pub open spec fn month_day_year_spec(orig: Seq<char>, low: Seq<char>) -> Option<Seq<char>> {
    let words = tokens_of(low);
    let orig_words = tokens_of(orig);
    if words.len() == 0 || !is_month(words[0]) {
        None
    } else {
        let om = if orig_words.len() > 0 {
            orig_words[0]
        } else {
            words[0]
        };
        if words.len() < 2 {
            None
        } else {
            match mdy_try(om, words, 2) {
                Some(r) => Some(r),
                None => mdy_cardinal(om, words),
            }
        }
    }
}

fn mdy_try_x(om: &Vec<char>, words: &Vec<Vec<char>>, sp: usize) -> (r: Option<Vec<char>>)
    requires
        2 <= sp,
    ensures
        view_opt_chars(r) == mdy_try(om@, words.deep_view(), sp as int),
    decreases words.len() + 5 - sp,
{
    let bound = if words.len() < 4 {
        words.len()
    } else {
        4
    };
    if sp > bound {
        return None;
    }
    let day_words = text::join_tokens(words, 1, sp);
    let day_str = match ordinal::parse_chars(&day_words) {
        Some(d) => d,
        None => {
            return mdy_try_x(om, words, sp + 1);
        },
    };
    let day_num = digits_of_x(&day_str);
    if sp == words.len() {
        let mut out = text::dup_chars(om);
        out.push(' ');
        text::push_all(&mut out, &day_num);
        proof {
            let s = mdy_try(om@, words.deep_view(), sp as int);
            assert(out@ =~= s->Some_0);
        }
        return Some(out);
    }
    let yw = text::join_tokens(words, sp, words.len());
    match year_number_x(&yw) {
        Some(y) => {
            let mut out = text::dup_chars(om);
            out.push(' ');
            text::push_all(&mut out, &day_num);
            out.push(' ');
            let yy = text::dec_u128(y);
            text::push_all(&mut out, &yy);
            proof {
                let s = mdy_try(om@, words.deep_view(), sp as int);
                assert(out@ =~= s->Some_0);
            }
            Some(out)
        },
        None => mdy_try_x(om, words, sp + 1),
    }
}

fn month_day_year_x(orig: &Vec<char>, low: &Vec<char>) -> (r: Option<Vec<char>>)
    ensures
        view_opt_chars(r) == month_day_year_spec(orig@, low@),
{
    let words = text::tokenize(low);
    let orig_words = text::tokenize(orig);
    if words.len() == 0 {
        return None;
    }
    proof {
        assert(words.deep_view()[0] == words@[0]@);
        if orig_words.len() > 0 {
            assert(orig_words.deep_view()[0] == orig_words@[0]@);
        }
        if words@.len() > 1 {
            assert(words.deep_view()[1] == words@[1]@);
        }
    }
    if !is_month_x(&words[0]) {
        return None;
    }
    let om = if orig_words.len() > 0 {
        text::dup_chars(&orig_words[0])
    } else {
        text::dup_chars(&words[0])
    };
    if words.len() < 2 {
        return None;
    }
    if let Some(r) = mdy_try_x(&om, &words, 2) {
        return Some(r);
    }
    let day = match wv_chars(&words[1]) {
        Some(d) => d,
        None => {
            return None;
        },
    };
    if !(1 <= day && day <= 31) {
        return None;
    }
    if words.len() == 2 {
        let mut out = om;
        out.push(' ');
        let dd = text::dec_u128(day);
        text::push_all(&mut out, &dd);
        proof {
            let s = month_day_year_spec(orig@, low@);
            assert(out@ =~= s->Some_0);
        }
        return Some(out);
    }
    let yw = text::join_tokens(&words, 2, words.len());
    match year_number_x(&yw) {
        Some(y) => {
            let mut out = om;
            out.push(' ');
            let dd = text::dec_u128(day);
            text::push_all(&mut out, &dd);
            out.push(' ');
            let yy = text::dec_u128(y);
            text::push_all(&mut out, &yy);
            proof {
                let s = month_day_year_spec(orig@, low@);
                assert(out@ =~= s->Some_0);
            }
            Some(out)
        },
        None => None,
    }
}

// ---------------------------------------------------------------------------
// Standalone years
// ---------------------------------------------------------------------------

pub open spec fn is_teens_word(w: Seq<char>) -> bool {
    w == "ten"@ || w == "eleven"@ || w == "twelve"@ || w == "thirteen"@ || w == "fourteen"@ || w
        == "fifteen"@ || w == "sixteen"@ || w == "seventeen"@ || w == "eighteen"@ || w
        == "nineteen"@
}

fn is_teens_x(w: &Vec<char>) -> (r: bool)
    ensures
        r == is_teens_word(w@),
{
    text::eq_str(w, "ten") || text::eq_str(w, "eleven") || text::eq_str(w, "twelve")
        || text::eq_str(w, "thirteen") || text::eq_str(w, "fourteen") || text::eq_str(w, "fifteen")
        || text::eq_str(w, "sixteen") || text::eq_str(w, "seventeen") || text::eq_str(w, "eighteen")
        || text::eq_str(w, "nineteen")
}

pub open spec fn is_tens_suffix_word(w: Seq<char>) -> bool {
    is_teens_word(w) || w == "twenty"@ || w == "thirty"@ || w == "forty"@ || w == "fifty"@ || w
        == "sixty"@ || w == "seventy"@ || w == "eighty"@ || w == "ninety"@
}

fn is_tens_suffix_x(w: &Vec<char>) -> (r: bool)
    ensures
        r == is_tens_suffix_word(w@),
{
    is_teens_x(w) || text::eq_str(w, "twenty") || text::eq_str(w, "thirty") || text::eq_str(
        w,
        "forty",
    ) || text::eq_str(w, "fifty") || text::eq_str(w, "sixty") || text::eq_str(w, "seventy")
        || text::eq_str(w, "eighty") || text::eq_str(w, "ninety")
}

pub open spec fn is_low_century_word(w: Seq<char>) -> bool {
    w == "eleven"@ || w == "twelve"@ || w == "thirteen"@ || w == "fourteen"@ || w == "fifteen"@
        || w == "sixteen"@ || w == "seventeen"@ || w == "eighteen"@ || w == "nineteen"@
}

fn is_low_century_x(w: &Vec<char>) -> (r: bool)
    ensures
        r == is_low_century_word(w@),
{
    text::eq_str(w, "eleven") || text::eq_str(w, "twelve") || text::eq_str(w, "thirteen")
        || text::eq_str(w, "fourteen") || text::eq_str(w, "fifteen") || text::eq_str(w, "sixteen")
        || text::eq_str(w, "seventeen") || text::eq_str(w, "eighteen") || text::eq_str(
        w,
        "nineteen",
    )
}

/// A standalone year. Two-word forms are restricted so that "twenty one"
/// stays a cardinal: after "twenty" only teens words count as a year.
pub open spec fn year_spec(low: Seq<char>) -> Option<Seq<char>> {
    let words = tokens_of(low);
    if starts_with(low, "two thousand"@) || starts_with(low, "one thousand"@) {
        match year_number_spec(low) {
            Some(y) => Some(dec_rep(y)),
            None => None,
        }
    } else if words.len() == 2 && words[0] == "twenty"@ && is_teens_word(words[1]) {
        match year_number_spec(low) {
            Some(y) => Some(dec_rep(y)),
            None => None,
        }
    } else if words.len() == 2 && is_tens_suffix_word(words[1]) && is_low_century_word(words[0]) {
        match year_number_spec(low) {
            Some(y) => Some(dec_rep(y)),
            None => None,
        }
    } else if words.len() >= 3 && (is_low_century_word(words[0]) || words[0] == "twenty"@) {
        match year_number_spec(low) {
            Some(y) => Some(dec_rep(y)),
            None => None,
        }
    } else {
        None
    }
}

fn year_x(low: &Vec<char>) -> (r: Option<Vec<char>>)
    ensures
        view_opt_chars(r) == year_spec(low@),
{
    proof {
        reveal_strlit("two thousand");
        reveal_strlit("one thousand");
        reveal_strlit("twenty");
    }
    let words = text::tokenize(low);
    proof {
        if words@.len() > 0 {
            assert(words.deep_view()[0] == words@[0]@);
        }
        if words@.len() > 1 {
            assert(words.deep_view()[1] == words@[1]@);
        }
    }
    let applies = if text::starts_with_str(low, "two thousand") || text::starts_with_str(
        low,
        "one thousand",
    ) {
        true
    } else if words.len() == 2 && text::eq_str(&words[0], "twenty") && is_teens_x(&words[1]) {
        true
    } else if words.len() == 2 && is_tens_suffix_x(&words[1]) && is_low_century_x(&words[0]) {
        true
    } else if words.len() >= 3 && (is_low_century_x(&words[0]) || text::eq_str(
        &words[0],
        "twenty",
    )) {
        true
    } else {
        false
    };
    if !applies {
        return None;
    }
    match year_number_x(low) {
        Some(y) => Some(text::dec_u128(y)),
        None => None,
    }
}

// ---------------------------------------------------------------------------
// The tagger
// ---------------------------------------------------------------------------

/// The written form of a spoken date expression; the sub-patterns are tried
/// from most to least specific.
pub open spec fn date_spec(s: Seq<char>) -> Option<Seq<char>> {
    let orig = trim_seq(s);
    let low = lower_seq(orig);
    match quarter_spec(low) {
        Some(r) => Some(r),
        None => match bc_year_spec(low) {
            Some(r) => Some(r),
            None => match decade_spec(low) {
                Some(r) => Some(r),
                None => match day_of_month_spec(orig, low) {
                    Some(r) => Some(r),
                    None => match month_year_spec(orig, low) {
                        Some(r) => Some(r),
                        None => match month_day_year_spec(orig, low) {
                            Some(r) => Some(r),
                            None => year_spec(low),
                        },
                    },
                },
            },
        },
    }
}

/// Character-vector form of [`parse`].
pub fn parse_chars(cv: &Vec<char>) -> (r: Option<Vec<char>>)
    ensures
        view_opt_chars(r) == date_spec(cv@),
{
    let orig = text::trim_chars(cv);
    let low = text::lower_chars(&orig);
    if let Some(r) = quarter_x(&low) {
        return Some(r);
    }
    if let Some(r) = bc_year_x(&low) {
        return Some(r);
    }
    if let Some(r) = decade_x(&low) {
        return Some(r);
    }
    if let Some(r) = day_of_month_x(&orig, &low) {
        return Some(r);
    }
    if let Some(r) = month_year_x(&orig, &low) {
        return Some(r);
    }
    if let Some(r) = month_day_year_x(&orig, &low) {
        return Some(r);
    }
    year_x(&low)
}

/// Parse a spoken date expression to its written form.
pub fn parse(input: &str) -> (r: Option<String>)
    ensures
        view_opt_str(r) == date_spec(input@),
{
    let cv = text::str_to_chars(input);
    match parse_chars(&cv) {
        Some(out) => Some(text::chars_to_string(&out)),
        None => None,
    }
}

} // verus!
