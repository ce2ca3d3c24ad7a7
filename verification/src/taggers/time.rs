//! Time tagger: spoken time expressions to written form.
//!
//! "two thirty" -> "02:30", "two thirty pm" -> "02:30 p.m.",
//! "quarter past one" -> "01:15", "quarter to one" -> "12:45".

use vstd::prelude::*;

use crate::taggers::cardinal;
use crate::text;
use crate::text::{
    contains_sub, dec2_rep, dec_rep, ends_with, is_ascii_alpha_char, is_upper_char, join_range,
    lower_seq, split2, splits_in_two, starts_with, strip_prefix_all, strip_suffix_all, tokens_of,
    trim_seq, upper_seq, view_opt_chars, view_opt_str,
};

verus! {

// ---------------------------------------------------------------------------
// Formatting
// ---------------------------------------------------------------------------

/// A clock field padded to two digits; a negative value keeps its sign.
pub open spec fn fmt02(n: int) -> Seq<char> {
    if n < 0 {
        seq!['-'] + dec_rep(-n)
    } else {
        dec2_rep(n)
    }
}

fn fmt02_x(n: i128) -> (out: Vec<char>)
    requires
        n > i128::MIN,
    ensures
        out@ == fmt02(n as int),
{
    if n < 0 {
        let mut out: Vec<char> = Vec::new();
        out.push('-');
        let m: u128 = (-n) as u128;
        let dd = text::dec_u128(m);
        text::push_all(&mut out, &dd);
        proof {
            assert(out@ =~= seq!['-'] + dec_rep(m as int));
        }
        out
    } else {
        text::dec2_u128(n as u128)
    }
}

/// "HH:MM", then the period, then the timezone, each after a single space
/// when present.
pub open spec fn fmt_time(h: int, m: int, period: Seq<char>, tz: Seq<char>) -> Seq<char> {
    let base = fmt02(h) + seq![':'] + fmt02(m);
    let with_p = if period.len() > 0 {
        base + seq![' '] + period
    } else {
        base
    };
    if tz.len() > 0 {
        with_p + seq![' '] + tz
    } else {
        with_p
    }
}

fn fmt_time_x(h: i128, m: i128, period: &Vec<char>, tz: &Vec<char>) -> (out: Vec<char>)
    requires
        h > i128::MIN,
        m > i128::MIN,
    ensures
        out@ == fmt_time(h as int, m as int, period@, tz@),
{
    let mut out = fmt02_x(h);
    out.push(':');
    let mm = fmt02_x(m);
    text::push_all(&mut out, &mm);
    if period.len() > 0 {
        out.push(' ');
        text::push_all(&mut out, period);
    }
    if tz.len() > 0 {
        out.push(' ');
        text::push_all(&mut out, tz);
    }
    proof {
        assert(out@ =~= fmt_time(h as int, m as int, period@, tz@));
    }
    out
}

// ---------------------------------------------------------------------------
// Period and timezone extraction
// ---------------------------------------------------------------------------

/// The characters of `s` from position `i` with spaces removed.
pub open spec fn sans_spaces(s: Seq<char>, i: int) -> Seq<char>
    decreases s.len() - i,
{
    if i < 0 || i >= s.len() {
        Seq::empty()
    } else if s[i] == ' ' {
        sans_spaces(s, i + 1)
    } else {
        seq![s[i]] + sans_spaces(s, i + 1)
    }
}

fn sans_spaces_into(s: &Vec<char>, i: usize, out: &mut Vec<char>)
    requires
        i <= s.len(),
    ensures
        final(out)@ == old(out)@ + sans_spaces(s@, i as int),
    decreases s.len() - i,
{
    if i >= s.len() {
        proof {
            assert(out@ =~= old(out)@ + Seq::<char>::empty());
        }
        return ;
    }
    let ghost pre = out@;
    if s[i] != ' ' {
        out.push(s[i]);
    }
    sans_spaces_into(s, i + 1, out);
    proof {
        assert(out@ =~= pre + sans_spaces(s@, i as int));
    }
}

/// The length of the spelled timezone pattern whose despaced form matches,
/// else the timezone's own length.
pub open spec fn tz_pattern_len(tz: Seq<char>) -> int {
    if tz == "gmt"@ || tz == "est"@ || tz == "pst"@ || tz == "cst"@ || tz == "mst"@ {
        5
    } else {
        tz.len() as int
    }
}

fn tz_pattern_len_x(tz: &Vec<char>) -> (n: usize)
    ensures
        n as int == tz_pattern_len(tz@),
{
    if text::eq_str(tz, "gmt") || text::eq_str(tz, "est") || text::eq_str(tz, "pst")
        || text::eq_str(tz, "cst") || text::eq_str(tz, "mst") {
        5
    } else {
        tz.len()
    }
}

/// The written period for the matched suffix: "in the ..." phrases map
/// straight to "a.m."/"p.m."; otherwise the suffix's own casing decides
/// between "A.M."/"P.M." and "a.m."/"p.m.".
pub open spec fn format_period(orig_suffix: Seq<char>, pat: Seq<char>) -> Seq<char> {
    if contains_sub(pat, "in the"@) {
        if contains_sub(pat, "morning"@) {
            "a.m."@
        } else {
            "p.m."@
        }
    } else {
        let t = trim_seq(orig_suffix);
        let all_upper = forall|j: int|
            0 <= j < t.len() && is_ascii_alpha_char(t[j]) ==> is_upper_char(t[j]);
        if all_upper {
            if contains_sub(upper_seq(orig_suffix), "A"@) {
                "A.M."@
            } else {
                "P.M."@
            }
        } else {
            if contains_sub(pat, "a"@) {
                "a.m."@
            } else {
                "p.m."@
            }
        }
    }
}

fn format_period_x(orig_suffix: &Vec<char>, pat: &str) -> (out: Vec<char>)
    ensures
        out@ == format_period(orig_suffix@, pat@),
{
    proof {
        reveal_strlit("in the");
        reveal_strlit("morning");
        reveal_strlit("a");
        reveal_strlit("A");
    }
    let pv = text::str_to_chars(pat);
    if text::contains_str(&pv, "in the") {
        if text::contains_str(&pv, "morning") {
            return text::str_to_chars("a.m.");
        }
        return text::str_to_chars("p.m.");
    }
    let t = text::trim_chars(orig_suffix);
    let mut all_upper = true;
    let mut i: usize = 0;
    while i < t.len()
        invariant
            i <= t.len(),
            all_upper == (forall|j: int|
                0 <= j < i && is_ascii_alpha_char(t@[j]) ==> is_upper_char(t@[j])),
        decreases t.len() - i,
    {
        if text::is_ascii_alpha_x(t[i]) && !text::is_upper_x(t[i]) {
            all_upper = false;
        }
        i += 1;
    }
    if all_upper {
        let up = text::upper_chars(orig_suffix);
        if text::contains_str(&up, "A") {
            text::str_to_chars("A.M.")
        } else {
            text::str_to_chars("P.M.")
        }
    } else {
        if text::contains_str(&pv, "a") {
            text::str_to_chars("a.m.")
        } else {
            text::str_to_chars("p.m.")
        }
    }
}

/// Strip the timezone suffix: the lowercased remainder, trimmed, and the
/// timezone from the original with its spaces removed (casing kept).
pub open spec fn tz_take(orig: Seq<char>, low: Seq<char>, n: int) -> (Seq<char>, Seq<char>) {
    if n > low.len() || orig.len() != low.len() {
        (low, Seq::empty())
    } else {
        (trim_seq(low.subrange(0, low.len() - n)), sans_spaces(orig.subrange(orig.len() - n, orig.len() as int), 0))
    }
}

/// The timezone step over the lowercased input.
pub open spec fn tz_step(orig: Seq<char>, low: Seq<char>) -> (Seq<char>, Seq<char>) {
    if ends_with(low, "g m t"@) {
        tz_take(orig, low, 5)
    } else if ends_with(low, "gmt"@) {
        tz_take(orig, low, 3)
    } else if ends_with(low, "e s t"@) {
        tz_take(orig, low, 5)
    } else if ends_with(low, "est"@) {
        tz_take(orig, low, 3)
    } else if ends_with(low, "p s t"@) {
        tz_take(orig, low, 5)
    } else if ends_with(low, "pst"@) {
        tz_take(orig, low, 3)
    } else if ends_with(low, "c s t"@) {
        tz_take(orig, low, 5)
    } else if ends_with(low, "cst"@) {
        tz_take(orig, low, 3)
    } else if ends_with(low, "m s t"@) {
        tz_take(orig, low, 5)
    } else if ends_with(low, "mst"@) {
        tz_take(orig, low, 3)
    } else {
        (low, Seq::empty())
    }
}

fn tz_take_x(orig: &Vec<char>, low: &Vec<char>, n: usize) -> (r: (Vec<char>, Vec<char>))
    requires
        n <= low.len(),
        orig@.len() == low@.len(),
    ensures
        (r.0@, r.1@) == tz_take(orig@, low@, n as int),
{
    let cut = text::copy_range(low, 0, low.len() - n);
    let tp = text::trim_chars(&cut);
    let tail = text::copy_range(orig, orig.len() - n, orig.len());
    let mut tz: Vec<char> = Vec::new();
    sans_spaces_into(&tail, 0, &mut tz);
    proof {
        assert(Seq::<char>::empty() + sans_spaces(tail@, 0) =~= sans_spaces(tail@, 0));
    }
    (tp, tz)
}

fn tz_step_x(orig: &Vec<char>, low: &Vec<char>) -> (r: (Vec<char>, Vec<char>))
    requires
        orig@.len() == low@.len(),
    ensures
        (r.0@, r.1@) == tz_step(orig@, low@),
{
    proof {
        reveal_strlit("g m t");
        reveal_strlit("gmt");
        reveal_strlit("e s t");
        reveal_strlit("est");
        reveal_strlit("p s t");
        reveal_strlit("pst");
        reveal_strlit("c s t");
        reveal_strlit("cst");
        reveal_strlit("m s t");
        reveal_strlit("mst");
    }
    if text::ends_with_str(low, "g m t") {
        tz_take_x(orig, low, 5)
    } else if text::ends_with_str(low, "gmt") {
        tz_take_x(orig, low, 3)
    } else if text::ends_with_str(low, "e s t") {
        tz_take_x(orig, low, 5)
    } else if text::ends_with_str(low, "est") {
        tz_take_x(orig, low, 3)
    } else if text::ends_with_str(low, "p s t") {
        tz_take_x(orig, low, 5)
    } else if text::ends_with_str(low, "pst") {
        tz_take_x(orig, low, 3)
    } else if text::ends_with_str(low, "c s t") {
        tz_take_x(orig, low, 5)
    } else if text::ends_with_str(low, "cst") {
        tz_take_x(orig, low, 3)
    } else if text::ends_with_str(low, "m s t") {
        tz_take_x(orig, low, 5)
    } else if text::ends_with_str(low, "mst") {
        tz_take_x(orig, low, 3)
    } else {
        (text::dup_chars(low), Vec::new())
    }
}

/// One period pattern applied to the state after the timezone step. `cut`
/// is how many characters leave with the suffix; for the "in the morning"
/// and "in the afternoon" phrases it is one more than the phrase length,
/// so one extra character of the hour text goes with them.
pub open spec fn period_take(
    orig: Seq<char>,
    tp: Seq<char>,
    tz: Seq<char>,
    pat: Seq<char>,
    cut: int,
) -> (Seq<char>, Seq<char>) {
    if cut > tp.len() {
        (tp, Seq::empty())
    } else {
        let adj = if tz.len() == 0 {
            0
        } else {
            tz_pattern_len(tz)
        };
        let sfx_start = if orig.len() >= tz.len() + adj {
            orig.len() - tz.len() - adj
        } else {
            0
        };
        let time_original = trim_seq(
            if tz.len() == 0 {
                orig
            } else {
                orig.subrange(0, sfx_start)
            },
        );
        let p_start = if time_original.len() >= cut {
            time_original.len() - cut
        } else {
            0
        };
        let orig_suffix = time_original.subrange(p_start, time_original.len() as int);
        let period = format_period(orig_suffix, pat);
        (trim_seq(tp.subrange(0, tp.len() - cut)), period)
    }
}

/// The period step: the first matching suffix pattern decides.
pub open spec fn period_step(orig: Seq<char>, tp: Seq<char>, tz: Seq<char>) -> (Seq<char>, Seq<char>) {
    if ends_with(tp, " a m"@) && 4 <= tp.len() {
        period_take(orig, tp, tz, " a m"@, 4)
    } else if ends_with(tp, " am"@) && 3 <= tp.len() {
        period_take(orig, tp, tz, " am"@, 3)
    } else if ends_with(tp, " p m"@) && 4 <= tp.len() {
        period_take(orig, tp, tz, " p m"@, 4)
    } else if ends_with(tp, " pm"@) && 3 <= tp.len() {
        period_take(orig, tp, tz, " pm"@, 3)
    } else if ends_with(tp, " in the morning"@) && 16 <= tp.len() {
        period_take(orig, tp, tz, " in the morning"@, 16)
    } else if ends_with(tp, " in the afternoon"@) && 18 <= tp.len() {
        period_take(orig, tp, tz, " in the afternoon"@, 18)
    } else if ends_with(tp, " in the evening"@) && 15 <= tp.len() {
        period_take(orig, tp, tz, " in the evening"@, 15)
    } else {
        (tp, Seq::empty())
    }
}

fn period_take_x(orig: &Vec<char>, tp: &Vec<char>, tz: &Vec<char>, pat: &str, cut: usize) -> (r: (
    Vec<char>,
    Vec<char>,
))
    requires
        cut <= tp.len(),
    ensures
        (r.0@, r.1@) == period_take(orig@, tp@, tz@, pat@, cut as int),
{
    let adj: usize = if tz.len() == 0 {
        0
    } else {
        tz_pattern_len_x(tz)
    };
    let sfx_start: usize = if orig.len() >= tz.len() && orig.len() - tz.len() >= adj {
        orig.len() - tz.len() - adj
    } else {
        0
    };
    let head = if tz.len() == 0 {
        text::dup_chars(orig)
    } else {
        text::copy_range(orig, 0, sfx_start)
    };
    let time_original = text::trim_chars(&head);
    let p_start: usize = if time_original.len() >= cut {
        time_original.len() - cut
    } else {
        0
    };
    let orig_suffix = text::copy_range(&time_original, p_start, time_original.len());
    let period = format_period_x(&orig_suffix, pat);
    let cutv = text::copy_range(tp, 0, tp.len() - cut);
    let tp2 = text::trim_chars(&cutv);
    (tp2, period)
}

fn period_step_x(orig: &Vec<char>, tp: &Vec<char>, tz: &Vec<char>) -> (r: (Vec<char>, Vec<char>))
    ensures
        (r.0@, r.1@) == period_step(orig@, tp@, tz@),
{
    proof {
        reveal_strlit(" a m");
        reveal_strlit(" am");
        reveal_strlit(" p m");
        reveal_strlit(" pm");
        reveal_strlit(" in the morning");
        reveal_strlit(" in the afternoon");
        reveal_strlit(" in the evening");
    }
    if text::ends_with_str(tp, " a m") {
        period_take_x(orig, tp, tz, " a m", 4)
    } else if text::ends_with_str(tp, " am") {
        period_take_x(orig, tp, tz, " am", 3)
    } else if text::ends_with_str(tp, " p m") {
        period_take_x(orig, tp, tz, " p m", 4)
    } else if text::ends_with_str(tp, " pm") {
        period_take_x(orig, tp, tz, " pm", 3)
    } else if text::ends_with_str(tp, " in the morning") && 16 <= tp.len() {
        period_take_x(orig, tp, tz, " in the morning", 16)
    } else if text::ends_with_str(tp, " in the afternoon") && 18 <= tp.len() {
        period_take_x(orig, tp, tz, " in the afternoon", 18)
    } else if text::ends_with_str(tp, " in the evening") {
        period_take_x(orig, tp, tz, " in the evening", 15)
    } else {
        (text::dup_chars(tp), Vec::new())
    }
}

// ---------------------------------------------------------------------------
// Hour and minute words
// ---------------------------------------------------------------------------

/// A simple clock hour word, "one" through "twelve".
pub open spec fn simple_hour_val(w: Seq<char>) -> Option<int> {
    if w == "one"@ {
        Some(1)
    } else if w == "two"@ {
        Some(2)
    } else if w == "three"@ {
        Some(3)
    } else if w == "four"@ {
        Some(4)
    } else if w == "five"@ {
        Some(5)
    } else if w == "six"@ {
        Some(6)
    } else if w == "seven"@ {
        Some(7)
    } else if w == "eight"@ {
        Some(8)
    } else if w == "nine"@ {
        Some(9)
    } else if w == "ten"@ {
        Some(10)
    } else if w == "eleven"@ {
        Some(11)
    } else if w == "twelve"@ {
        Some(12)
    } else {
        None
    }
}

fn simple_hour_x(w: &Vec<char>) -> (r: Option<u128>)
    ensures
        match r {
            Some(v) => simple_hour_val(w@) == Some(v as int),
            None => simple_hour_val(w@) is None,
        },
{
    if text::eq_str(w, "one") {
        Some(1)
    } else if text::eq_str(w, "two") {
        Some(2)
    } else if text::eq_str(w, "three") {
        Some(3)
    } else if text::eq_str(w, "four") {
        Some(4)
    } else if text::eq_str(w, "five") {
        Some(5)
    } else if text::eq_str(w, "six") {
        Some(6)
    } else if text::eq_str(w, "seven") {
        Some(7)
    } else if text::eq_str(w, "eight") {
        Some(8)
    } else if text::eq_str(w, "nine") {
        Some(9)
    } else if text::eq_str(w, "ten") {
        Some(10)
    } else if text::eq_str(w, "eleven") {
        Some(11)
    } else if text::eq_str(w, "twelve") {
        Some(12)
    } else {
        None
    }
}

fn wv_chars(v: &Vec<char>) -> (r: Option<u128>)
    ensures
        match r {
            Some(n) => cardinal::words_value_i128(v@) == Some(n as int),
            None => cardinal::words_value_i128(v@) is None,
        },
{
    match cardinal::words_value_chars(v) {
        Some(n) => if n <= i128::MAX as u128 {
            Some(n)
        } else {
            None
        },
        None => None,
    }
}

/// A minute phrase: "oh five" and "o five" give single digits, one word
/// gives a value below 60, and two words must be a tens word with a units
/// word ("forty five"); digit runs like "nine nine" are rejected.
pub open spec fn minute_spec(s: Seq<char>) -> Option<int> {
    let words = tokens_of(s);
    if words.len() == 0 {
        None
    } else if words.len() == 2 && (words[0] == "o"@ || words[0] == "oh"@) {
        match cardinal::words_value_i128(words[1]) {
            Some(m) => if 0 <= m <= 9 {
                Some(m)
            } else {
                None
            },
            None => None,
        }
    } else if words.len() == 1 {
        match cardinal::words_value_i128(words[0]) {
            Some(m) => if 0 <= m <= 59 {
                Some(m)
            } else {
                None
            },
            None => None,
        }
    } else if words.len() == 2 {
        let tens_ok = words[0] == "twenty"@ || words[0] == "thirty"@ || words[0] == "forty"@
            || words[0] == "fifty"@;
        let units_ok = words[1] == "one"@ || words[1] == "two"@ || words[1] == "three"@
            || words[1] == "four"@ || words[1] == "five"@ || words[1] == "six"@ || words[1]
            == "seven"@ || words[1] == "eight"@ || words[1] == "nine"@;
        if tens_ok && units_ok {
            match cardinal::words_value_i128(s) {
                Some(m) => if 0 <= m <= 59 {
                    Some(m)
                } else {
                    None
                },
                None => None,
            }
        } else {
            None
        }
    } else {
        None
    }
}

fn minute_x(s: &Vec<char>) -> (r: Option<u128>)
    ensures
        match r {
            Some(m) => minute_spec(s@) == Some(m as int),
            None => minute_spec(s@) is None,
        },
{
    let words = text::tokenize(s);
    if words.len() == 0 {
        return None;
    }
    proof {
        assert(words.deep_view()[0] == words@[0]@);
        if words@.len() > 1 {
            assert(words.deep_view()[1] == words@[1]@);
        }
    }
    if words.len() == 2 && (text::eq_str(&words[0], "o") || text::eq_str(&words[0], "oh")) {
        return match wv_chars(&words[1]) {
            Some(m) => if m <= 9 {
                Some(m)
            } else {
                None
            },
            None => None,
        };
    }
    if words.len() == 1 {
        return match wv_chars(&words[0]) {
            Some(m) => if m <= 59 {
                Some(m)
            } else {
                None
            },
            None => None,
        };
    }
    if words.len() == 2 {
        let tens_ok = text::eq_str(&words[0], "twenty") || text::eq_str(&words[0], "thirty")
            || text::eq_str(&words[0], "forty") || text::eq_str(&words[0], "fifty");
        let units_ok = text::eq_str(&words[1], "one") || text::eq_str(&words[1], "two")
            || text::eq_str(&words[1], "three") || text::eq_str(&words[1], "four") || text::eq_str(
            &words[1],
            "five",
        ) || text::eq_str(&words[1], "six") || text::eq_str(&words[1], "seven") || text::eq_str(
            &words[1],
            "eight",
        ) || text::eq_str(&words[1], "nine");
        if tens_ok && units_ok {
            return match wv_chars(s) {
                Some(m) => if m <= 59 {
                    Some(m)
                } else {
                    None
                },
                None => None,
            };
        }
        return None;
    }
    None
}

// ---------------------------------------------------------------------------
// The four time patterns
// ---------------------------------------------------------------------------

/// "quarter past H" -> HH:15, "half past H" -> HH:30.
pub open spec fn quarter_half_spec(tp: Seq<char>, period: Seq<char>, tz: Seq<char>) -> Option<
    Seq<char>,
> {
    if starts_with(tp, "quarter past "@) {
        match cardinal::words_value_i128(strip_prefix_all(tp, "quarter past "@)) {
            Some(h) => Some(fmt_time(h, 15, period, tz)),
            None => None,
        }
    } else if starts_with(tp, "half past "@) {
        match cardinal::words_value_i128(strip_prefix_all(tp, "half past "@)) {
            Some(h) => Some(fmt_time(h, 30, period, tz)),
            None => None,
        }
    } else {
        None
    }
}

fn quarter_half_x(tp: &Vec<char>, period: &Vec<char>, tz: &Vec<char>) -> (r: Option<Vec<char>>)
    ensures
        view_opt_chars(r) == quarter_half_spec(tp@, period@, tz@),
{
    proof {
        reveal_strlit("quarter past ");
        reveal_strlit("half past ");
    }
    if text::starts_with_str(tp, "quarter past ") {
        let hp = text::strip_prefix_all_x(tp, "quarter past ");
        return match wv_chars(&hp) {
            Some(h) => Some(fmt_time_x(h as i128, 15, period, tz)),
            None => None,
        };
    }
    if text::starts_with_str(tp, "half past ") {
        let hp = text::strip_prefix_all_x(tp, "half past ");
        return match wv_chars(&hp) {
            Some(h) => Some(fmt_time_x(h as i128, 30, period, tz)),
            None => None,
        };
    }
    None
}

/// "H o'clock" -> HH:00.
pub open spec fn oclock_spec(tp: Seq<char>, period: Seq<char>, tz: Seq<char>) -> Option<Seq<char>> {
    if ends_with(tp, " o'clock"@) || ends_with(tp, " oclock"@) {
        let hp = strip_suffix_all(strip_suffix_all(tp, " o'clock"@), " oclock"@);
        match cardinal::words_value_i128(hp) {
            Some(h) => Some(fmt_time(h, 0, period, tz)),
            None => None,
        }
    } else {
        None
    }
}

fn oclock_x(tp: &Vec<char>, period: &Vec<char>, tz: &Vec<char>) -> (r: Option<Vec<char>>)
    ensures
        view_opt_chars(r) == oclock_spec(tp@, period@, tz@),
{
    proof {
        reveal_strlit(" o'clock");
        reveal_strlit(" oclock");
    }
    if text::ends_with_str(tp, " o'clock") || text::ends_with_str(tp, " oclock") {
        let h1 = text::strip_suffix_all_x(tp, " o'clock");
        let hp = text::strip_suffix_all_x(&h1, " oclock");
        return match wv_chars(&hp) {
            Some(h) => Some(fmt_time_x(h as i128, 0, period, tz)),
            None => None,
        };
    }
    None
}

/// "quarter to H" -> (H-1):45 with 1 wrapping to 12, and "N [minutes] to H"
/// -> (H-1):(60-N).
pub open spec fn to_pattern_spec(tp: Seq<char>, period: Seq<char>, tz: Seq<char>) -> Option<
    Seq<char>,
> {
    if starts_with(tp, "quarter to "@) {
        match cardinal::words_value_i128(strip_prefix_all(tp, "quarter to "@)) {
            Some(h) => {
                let prev = if h == 1 {
                    12
                } else {
                    h - 1
                };
                Some(fmt_time(prev, 45, period, tz))
            },
            None => None,
        }
    } else if contains_sub(tp, " to "@) && splits_in_two(tp, " to "@) {
        match split2(tp, " to "@) {
            Some((a, b)) => {
                let mp = strip_suffix_all(
                    strip_suffix_all(
                        strip_suffix_all(strip_suffix_all(a, " min"@), " mins"@),
                        " minute"@,
                    ),
                    " minutes"@,
                );
                match cardinal::words_value_i128(mp) {
                    Some(mb) => match cardinal::words_value_i128(b) {
                        Some(h) => {
                            let prev = if h == 1 {
                                12
                            } else {
                                h - 1
                            };
                            Some(fmt_time(prev, 60 - mb, period, tz))
                        },
                        None => None,
                    },
                    None => None,
                }
            },
            None => None,
        }
    } else {
        None
    }
}

fn to_pattern_x(tp: &Vec<char>, period: &Vec<char>, tz: &Vec<char>) -> (r: Option<Vec<char>>)
    ensures
        view_opt_chars(r) == to_pattern_spec(tp@, period@, tz@),
{
    proof {
        reveal_strlit("quarter to ");
        reveal_strlit(" to ");
        reveal_strlit(" min");
        reveal_strlit(" mins");
        reveal_strlit(" minute");
        reveal_strlit(" minutes");
    }
    if text::starts_with_str(tp, "quarter to ") {
        let hp = text::strip_prefix_all_x(tp, "quarter to ");
        return match wv_chars(&hp) {
            Some(h) => {
                let prev: i128 = if h == 1 {
                    12
                } else {
                    (h as i128) - 1
                };
                Some(fmt_time_x(prev, 45, period, tz))
            },
            None => None,
        };
    }
    if text::contains_str(tp, " to ") {
        match text::split2_x(tp, " to ") {
            Some((a, b)) => {
                let pv = text::str_to_chars(" to ");
                if text::find_sub_from(&b, &pv, 0).is_some() {
                    return None;
                }
                let m1 = text::strip_suffix_all_x(&a, " min");
                let m2 = text::strip_suffix_all_x(&m1, " mins");
                let m3 = text::strip_suffix_all_x(&m2, " minute");
                let mp = text::strip_suffix_all_x(&m3, " minutes");
                let mb = match wv_chars(&mp) {
                    Some(m) => m,
                    None => {
                        return None;
                    },
                };
                let h = match wv_chars(&b) {
                    Some(h) => h,
                    None => {
                        return None;
                    },
                };
                let prev: i128 = if h == 1 {
                    12
                } else {
                    (h as i128) - 1
                };
                let minute: i128 = 60 - (mb as i128);
                return Some(fmt_time_x(prev, minute, period, tz));
            },
            None => {
                return None;
            },
        }
    }
    None
}

/// "<hour word> <minute words>", with the guards that keep cardinals and
/// historical years out of the clock.
pub open spec fn standard_spec(tp: Seq<char>, period: Seq<char>, tz: Seq<char>) -> Option<
    Seq<char>,
> {
    let words = tokens_of(tp);
    if words.len() == 0 {
        None
    } else if words.len() == 1 {
        if period.len() == 0 && tz.len() == 0 {
            None
        } else {
            match cardinal::words_value_i128(words[0]) {
                Some(h) => if 1 <= h <= 24 {
                    Some(fmt_time(h, 0, period, tz))
                } else {
                    None
                },
                None => None,
            }
        }
    } else {
        match simple_hour_val(words[0]) {
            None => None,
            Some(h) => if period.len() == 0 && tz.len() == 0 && !(1 <= h <= 12) {
                None
            } else {
                match minute_spec(join_range(words, 1, words.len() as int)) {
                    None => None,
                    Some(m) => if period.len() == 0 && tz.len() == 0 && 10 <= h <= 19 && 10 <= m
                        <= 99 {
                        None
                    } else if 0 <= m < 60 {
                        Some(fmt_time(h, m, period, tz))
                    } else {
                        None
                    },
                }
            },
        }
    }
}

fn standard_x(tp: &Vec<char>, period: &Vec<char>, tz: &Vec<char>) -> (r: Option<Vec<char>>)
    ensures
        view_opt_chars(r) == standard_spec(tp@, period@, tz@),
{
    let words = text::tokenize(tp);
    if words.len() == 0 {
        return None;
    }
    proof {
        assert(words.deep_view()[0] == words@[0]@);
    }
    if words.len() == 1 {
        if period.len() == 0 && tz.len() == 0 {
            return None;
        }
        return match wv_chars(&words[0]) {
            Some(h) => if 1 <= h && h <= 24 {
                Some(fmt_time_x(h as i128, 0, period, tz))
            } else {
                None
            },
            None => None,
        };
    }
    let h = match simple_hour_x(&words[0]) {
        Some(h) => h,
        None => {
            return None;
        },
    };
    if period.len() == 0 && tz.len() == 0 && !(1 <= h && h <= 12) {
        return None;
    }
    let mw = text::join_tokens(&words, 1, words.len());
    let m = match minute_x(&mw) {
        Some(m) => m,
        None => {
            return None;
        },
    };
    if period.len() == 0 && tz.len() == 0 && 10 <= h && h <= 19 && 10 <= m && m <= 99 {
        return None;
    }
    if m < 60 {
        Some(fmt_time_x(h as i128, m as i128, period, tz))
    } else {
        None
    }
}

// ---------------------------------------------------------------------------
// The tagger
// ---------------------------------------------------------------------------

/// The written form of a spoken time expression.
pub open spec fn time_spec(s: Seq<char>) -> Option<Seq<char>> {
    let orig = trim_seq(s);
    let low = lower_seq(orig);
    let tzs = tz_step(orig, low);
    let ps = period_step(orig, tzs.0, tzs.1);
    let tp = ps.0;
    let period = ps.1;
    let tz = tzs.1;
    match quarter_half_spec(tp, period, tz) {
        Some(r) => Some(r),
        None => match oclock_spec(tp, period, tz) {
            Some(r) => Some(r),
            None => match to_pattern_spec(tp, period, tz) {
                Some(r) => Some(r),
                None => standard_spec(tp, period, tz),
            },
        },
    }
}

/// Character-vector form of [`parse`].
pub fn parse_chars(cv: &Vec<char>) -> (r: Option<Vec<char>>)
    ensures
        view_opt_chars(r) == time_spec(cv@),
{
    let orig = text::trim_chars(cv);
    let low = text::lower_chars(&orig);
    let (tp1, tz) = tz_step_x(&orig, &low);
    let (tp, period) = period_step_x(&orig, &tp1, &tz);
    if let Some(r) = quarter_half_x(&tp, &period, &tz) {
        return Some(r);
    }
    if let Some(r) = oclock_x(&tp, &period, &tz) {
        return Some(r);
    }
    if let Some(r) = to_pattern_x(&tp, &period, &tz) {
        return Some(r);
    }
    standard_x(&tp, &period, &tz)
}

/// Parse a spoken time expression to its written form.
pub fn parse(input: &str) -> (r: Option<String>)
    ensures
        view_opt_str(r) == time_spec(input@),
{
    let cv = text::str_to_chars(input);
    match parse_chars(&cv) {
        Some(out) => Some(text::chars_to_string(&out)),
        None => None,
    }
}

} // verus!
