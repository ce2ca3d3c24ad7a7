//! Inverse text normalization: spoken-form English text to written form.
//!
//! "two hundred thirty two" becomes "232", "five dollars and fifty cents"
//! becomes "$5.50", "january fifth twenty twenty five" becomes
//! "january 5 2025". The crate offers a single-expression entry point,
//! [`normalize`], and a sentence scanner, [`normalize_sentence`], that
//! replaces normalizable spans inside longer text while leaving the rest
//! untouched. User-defined replacements live in an explicit
//! [`custom_rules::CustomRules`] store consulted before every built-in
//! recognizer.

use vstd::prelude::*;

pub mod custom_rules;
pub mod laws;
pub mod taggers;
pub mod text;

use crate::custom_rules::CustomRules;
use crate::text::{join_range, lower_seq, tokens_of, trim_seq};

verus! {

/// Default maximum token span considered when scanning a sentence.
pub const DEFAULT_MAX_SPAN_TOKENS: usize = 16;

// ---------------------------------------------------------------------------
// Single-expression normalization
// ---------------------------------------------------------------------------

/// The single-expression result: the custom rules first, then each built-in
/// tagger from most to least specific, and the trimmed input when none
/// accepts.
pub open spec fn normalize_spec(rules: Seq<(Seq<char>, Seq<char>)>, s: Seq<char>) -> Seq<char> {
    let t = trim_seq(s);
    match custom_rules::lookup(rules, trim_seq(lower_seq(t))) {
        Some(r) => r,
        None => match taggers::whitelist::whitelist_spec(t) {
            Some(r) => r,
            None => match taggers::punctuation::punctuation_spec(t) {
                Some(r) => r,
                None => match taggers::word::word_spec(t) {
                    Some(r) => r,
                    None => match taggers::time::time_spec(t) {
                        Some(r) => r,
                        None => match taggers::date::date_spec(t) {
                            Some(r) => r,
                            None => match taggers::money::money_spec(t) {
                                Some(r) => r,
                                None => match taggers::measure::measure_spec(t) {
                                    Some(r) => r,
                                    None => match taggers::decimal::decimal_spec(t) {
                                        Some(r) => r,
                                        None => match taggers::telephone::telephone_spec(t) {
                                            Some(r) => r,
                                            None => match taggers::electronic::electronic_spec(
                                                t,
                                            ) {
                                                Some(r) => r,
                                                None => match taggers::decimal::decimal_spec(t) {
                                                    Some(r) => r,
                                                    None => match taggers::ordinal::ordinal_spec(
                                                        t,
                                                    ) {
                                                        Some(r) => r,
                                                        None
                                                            => match taggers::cardinal::cardinal_spec(
                                                            t,
                                                        ) {
                                                            Some(r) => r,
                                                            None => t,
                                                        },
                                                    },
                                                },
                                            },
                                        },
                                    },
                                },
                            },
                        },
                    },
                },
            },
        },
    }
}

fn normalize_chars(rules: &CustomRules, cv: &Vec<char>) -> (out: Vec<char>)
    ensures
        out@ == normalize_spec(rules@, cv@),
{
    let t = text::trim_chars(cv);
    if let Some(r) = custom_rules::parse_rules_chars(rules, &t) {
        return r;
    }
    if let Some(r) = taggers::whitelist::parse_chars(&t) {
        return r;
    }
    if let Some(r) = taggers::punctuation::parse_chars(&t) {
        return r;
    }
    if let Some(r) = taggers::word::parse_chars(&t) {
        return r;
    }
    if let Some(r) = taggers::time::parse_chars(&t) {
        return r;
    }
    if let Some(r) = taggers::date::parse_chars(&t) {
        return r;
    }
    if let Some(r) = taggers::money::parse_chars(&t) {
        return r;
    }
    if let Some(r) = taggers::measure::parse_chars(&t) {
        return r;
    }
    if let Some(r) = taggers::decimal::parse_chars(&t) {
        return r;
    }
    if let Some(r) = taggers::telephone::parse_chars(&t) {
        return r;
    }
    if let Some(r) = taggers::electronic::parse_chars(&t) {
        return r;
    }
    if let Some(r) = taggers::decimal::parse_chars(&t) {
        return r;
    }
    if let Some(r) = taggers::ordinal::parse_chars(&t) {
        return r;
    }
    if let Some(r) = taggers::cardinal::parse_chars(&t) {
        return r;
    }
    t
}

/// Normalize a single spoken-form expression, consulting the given custom
/// rules first. Unrecognized input comes back trimmed but unchanged.
pub fn normalize_with_rules(rules: &CustomRules, input: &str) -> (r: String)
    ensures
        r@ == normalize_spec(rules@, input@),
{
    let cv = text::str_to_chars(input);
    let out = normalize_chars(rules, &cv);
    text::chars_to_string(&out)
}

/// Normalize a single spoken-form expression with no custom rules.
pub fn normalize(input: &str) -> (r: String)
    ensures
        r@ == normalize_spec(Seq::<(Seq<char>, Seq<char>)>::empty(), input@),
{
    let rules = CustomRules::new();
    normalize_with_rules(&rules, input)
}

/// Normalize with a language selector; only English exists, so the
/// selector is ignored.
pub fn normalize_with_lang(input: &str, _lang: &str) -> (r: String)
    ensures
        r@ == normalize_spec(Seq::<(Seq<char>, Seq<char>)>::empty(), input@),
{
    normalize(input)
}

// ---------------------------------------------------------------------------
// The sentence scanner
// ---------------------------------------------------------------------------

/// A candidate replacement for a span, with its priority score. The word
/// and telephone taggers are left out, and the cardinal only fires on
/// spans of at most four tokens. Opaque: the scanner's lemmas reason over
/// span results, not over the taggers' own definitions.
#[verifier::opaque]
pub open spec fn span_spec(rules: Seq<(Seq<char>, Seq<char>)>, s: Seq<char>) -> Option<
    (Seq<char>, int),
> {
    let tc = tokens_of(s).len();
    if tc == 0 {
        None
    } else {
        match custom_rules::lookup(rules, trim_seq(lower_seq(s))) {
            Some(r) => Some((r, 110)),
            None => match taggers::whitelist::whitelist_spec(s) {
                Some(r) => Some((r, 100)),
                None => match taggers::punctuation::punctuation_spec(s) {
                    Some(r) => Some((r, 98)),
                    None => match taggers::money::money_spec(s) {
                        Some(r) => Some((r, 95)),
                        None => match taggers::measure::measure_spec(s) {
                            Some(r) => Some((r, 90)),
                            None => match taggers::date::date_spec(s) {
                                Some(r) => Some((r, 88)),
                                None => match taggers::time::time_spec(s) {
                                    Some(r) => Some((r, 85)),
                                    None => match taggers::electronic::electronic_spec(s) {
                                        Some(r) => Some((r, 82)),
                                        None => match taggers::decimal::decimal_spec(s) {
                                            Some(r) => Some((r, 80)),
                                            None => match taggers::ordinal::ordinal_spec(s) {
                                                Some(r) => Some((r, 75)),
                                                None => if tc <= 4 {
                                                    match taggers::cardinal::cardinal_spec(s) {
                                                        Some(r) => Some((r, 70)),
                                                        None => None,
                                                    }
                                                } else {
                                                    None
                                                },
                                            },
                                        },
                                    },
                                },
                            },
                        },
                    },
                },
            },
        }
    }
}

fn span_x(rules: &CustomRules, s: &Vec<char>) -> (r: Option<(Vec<char>, u8)>)
    ensures
        match r {
            Some((c, p)) => span_spec(rules@, s@) == Some((c@, p as int)),
            None => span_spec(rules@, s@) is None,
        },
{
    proof {
        reveal(crate::span_spec);
    }
    let toks = text::tokenize(s);
    if toks.len() == 0 {
        return None;
    }
    if let Some(r) = custom_rules::parse_rules_chars(rules, s) {
        return Some((r, 110));
    }
    if let Some(r) = taggers::whitelist::parse_chars(s) {
        return Some((r, 100));
    }
    if let Some(r) = taggers::punctuation::parse_chars(s) {
        return Some((r, 98));
    }
    if let Some(r) = taggers::money::parse_chars(s) {
        return Some((r, 95));
    }
    if let Some(r) = taggers::measure::parse_chars(s) {
        return Some((r, 90));
    }
    if let Some(r) = taggers::date::parse_chars(s) {
        return Some((r, 88));
    }
    if let Some(r) = taggers::time::parse_chars(s) {
        return Some((r, 85));
    }
    if let Some(r) = taggers::electronic::parse_chars(s) {
        return Some((r, 82));
    }
    if let Some(r) = taggers::decimal::parse_chars(s) {
        return Some((r, 80));
    }
    if let Some(r) = taggers::ordinal::parse_chars(s) {
        return Some((r, 75));
    }
    if toks.len() <= 4 {
        if let Some(r) = taggers::cardinal::parse_chars(s) {
            return Some((r, 70));
        }
    }
    None
}

/// The longest span starting at `i` and ending at or before `end` whose
/// candidate is accepted: non-empty after trimming and different from the
/// span text itself.
pub open spec fn best_at(
    rules: Seq<(Seq<char>, Seq<char>)>,
    toks: Seq<Seq<char>>,
    i: int,
    end: int,
) -> Option<(int, Seq<char>)>
    decreases end - i,
{
    if end <= i {
        None
    } else {
        let span = join_range(toks, i, end);
        match span_spec(rules, span) {
            Some((cand, pri)) => if trim_seq(cand).len() != 0 && trim_seq(cand) != span {
                Some((end, cand))
            } else {
                best_at(rules, toks, i, end - 1)
            },
            None => best_at(rules, toks, i, end - 1),
        }
    }
}

/// A chosen span always reaches past its start and stays in range.
pub proof fn lemma_best_at_bounds(
    rules: Seq<(Seq<char>, Seq<char>)>,
    toks: Seq<Seq<char>>,
    i: int,
    end: int,
)
    ensures
        match best_at(rules, toks, i, end) {
            Some((e, c)) => i < e <= end,
            None => true,
        },
    decreases end - i,
{
    if end <= i {
    } else {
        lemma_best_at_bounds(rules, toks, i, end - 1);
    }
}

#[via_fn]
proof fn scan_from_dec(
    rules: Seq<(Seq<char>, Seq<char>)>,
    toks: Seq<Seq<char>>,
    i: int,
    max_span: int,
) {
    if 0 <= i < toks.len() {
        let max_end = if toks.len() < i + max_span {
            toks.len() as int
        } else {
            i + max_span
        };
        lemma_best_at_bounds(rules, toks, i, max_end);
    }
}

/// The output pieces of the scan from token `i` on: the chosen
/// replacement for the longest accepted span, or the original token.
pub open spec fn scan_from(
    rules: Seq<(Seq<char>, Seq<char>)>,
    toks: Seq<Seq<char>>,
    i: int,
    max_span: int,
) -> Seq<Seq<char>>
    decreases toks.len() - i,
    via scan_from_dec
{
    if i < 0 || i >= toks.len() {
        Seq::empty()
    } else {
        let max_end = if toks.len() < i + max_span {
            toks.len() as int
        } else {
            i + max_span
        };
        match best_at(rules, toks, i, max_end) {
            Some((end, cand)) => seq![cand] + scan_from(rules, toks, end, max_span),
            None => seq![toks[i]] + scan_from(rules, toks, i + 1, max_span),
        }
    }
}

/// The sentence result: tokens of the trimmed input, scanned with the
/// given window, joined with single spaces. Empty input gives the empty
/// string, and a window of zero is treated as one.
pub open spec fn sentence_spec(
    rules: Seq<(Seq<char>, Seq<char>)>,
    s: Seq<char>,
    max_span_arg: int,
) -> Seq<char> {
    let t = trim_seq(s);
    if t.len() == 0 {
        t
    } else {
        let max_span = if max_span_arg == 0 {
            1
        } else {
            max_span_arg
        };
        let toks = tokens_of(t);
        let pieces = scan_from(rules, toks, 0, max_span);
        join_range(pieces, 0, pieces.len() as int)
    }
}

fn best_at_x(rules: &CustomRules, toks: &Vec<Vec<char>>, i: usize, end: usize) -> (r: Option<
    (usize, Vec<char>),
>)
    requires
        end <= toks.len(),
    ensures
        match r {
            Some((e, c)) => best_at(rules@, toks.deep_view(), i as int, end as int) == Some(
                (e as int, c@),
            ) && i < e <= end,
            None => best_at(rules@, toks.deep_view(), i as int, end as int) is None,
        },
    decreases end - i,
{
    if end <= i {
        return None;
    }
    let span = text::join_tokens(toks, i, end);
    match span_x(rules, &span) {
        Some((cand, _pri)) => {
            let ct = text::trim_chars(&cand);
            if ct.len() != 0 && !text::eq_chars(&ct, &span) {
                Some((end, cand))
            } else {
                best_at_x(rules, toks, i, end - 1)
            }
        },
        None => best_at_x(rules, toks, i, end - 1),
    }
}

#[verifier::rlimit(80)]
fn scan_into(
    rules: &CustomRules,
    toks: &Vec<Vec<char>>,
    i: usize,
    max_span: usize,
    out: &mut Vec<Vec<char>>,
)
    requires
        max_span >= 1,
    ensures
        final(out).deep_view() == old(out).deep_view() + scan_from(
            rules@,
            toks.deep_view(),
            i as int,
            max_span as int,
        ),
    decreases toks.len() - i,
{
    if i >= toks.len() {
        proof {
            assert(out.deep_view() =~~= old(out).deep_view() + scan_from(
                rules@,
                toks.deep_view(),
                i as int,
                max_span as int,
            ));
        }
        return ;
    }
    let max_end = if toks.len() - i < max_span {
        toks.len()
    } else {
        i + max_span
    };
    match best_at_x(rules, toks, i, max_end) {
        Some((end, cand)) => {
            let ghost pre = out.deep_view();
            out.push(cand);
            proof {
                let sf = scan_from(rules@, toks.deep_view(), i as int, max_span as int);
                assert(out.deep_view() =~~= pre.push(sf[0]));
            }
            scan_into(rules, toks, end, max_span, out);
            proof {
                let sf = scan_from(rules@, toks.deep_view(), i as int, max_span as int);
                assert(out.deep_view() =~~= old(out).deep_view() + sf);
            }
        },
        None => {
            proof {
                assert(toks.deep_view()[i as int] == toks@[i as int]@);
            }
            let word = text::dup_chars(&toks[i]);
            let ghost pre = out.deep_view();
            out.push(word);
            proof {
                let sf = scan_from(rules@, toks.deep_view(), i as int, max_span as int);
                assert(out.deep_view() =~~= pre.push(sf[0]));
            }
            scan_into(rules, toks, i + 1, max_span, out);
            proof {
                let sf = scan_from(rules@, toks.deep_view(), i as int, max_span as int);
                assert(out.deep_view() =~~= old(out).deep_view() + sf);
            }
        },
    }
}

/// Sentence-mode normalization with explicit custom rules and window.
pub fn normalize_sentence_with_rules_and_max_span(
    rules: &CustomRules,
    input: &str,
    max_span_tokens: usize,
) -> (r: String)
    ensures
        r@ == sentence_spec(rules@, input@, max_span_tokens as int),
        trim_seq(input@).len() == 0 ==> r@.len() == 0,
{
    let cv = text::str_to_chars(input);
    let t = text::trim_chars(&cv);
    if t.len() == 0 {
        return text::chars_to_string(&t);
    }
    let max_span: usize = if max_span_tokens == 0 {
        1
    } else {
        max_span_tokens
    };
    let toks = text::tokenize(&t);
    let mut pieces: Vec<Vec<char>> = Vec::new();
    scan_into(rules, &toks, 0, max_span, &mut pieces);
    proof {
        assert(pieces.deep_view() =~~= scan_from(
            rules@,
            tokens_of(t@),
            0,
            max_span as int,
        ));
    }
    let joined = text::join_tokens(&pieces, 0, pieces.len());
    text::chars_to_string(&joined)
}

/// Sentence-mode normalization with a configurable window and no custom
/// rules.
pub fn normalize_sentence_with_max_span(input: &str, max_span_tokens: usize) -> (r: String)
    ensures
        r@ == sentence_spec(
            Seq::<(Seq<char>, Seq<char>)>::empty(),
            input@,
            max_span_tokens as int,
        ),
        trim_seq(input@).len() == 0 ==> r@.len() == 0,
{
    let rules = CustomRules::new();
    normalize_sentence_with_rules_and_max_span(&rules, input, max_span_tokens)
}

/// Sentence-mode normalization with custom rules and the default window.
pub fn normalize_sentence_with_rules(rules: &CustomRules, input: &str) -> (r: String)
    ensures
        r@ == sentence_spec(rules@, input@, DEFAULT_MAX_SPAN_TOKENS as int),
        trim_seq(input@).len() == 0 ==> r@.len() == 0,
{
    normalize_sentence_with_rules_and_max_span(rules, input, DEFAULT_MAX_SPAN_TOKENS)
}

/// Sentence-mode normalization with the default window of sixteen tokens.
pub fn normalize_sentence(input: &str) -> (r: String)
    ensures
        r@ == sentence_spec(
            Seq::<(Seq<char>, Seq<char>)>::empty(),
            input@,
            DEFAULT_MAX_SPAN_TOKENS as int,
        ),
        trim_seq(input@).len() == 0 ==> r@.len() == 0,
{
    normalize_sentence_with_max_span(input, DEFAULT_MAX_SPAN_TOKENS)
}

/// Library version string.
pub fn version() -> (r: String)
    ensures
        r@ == "0.1.0"@,
{
    let v = text::str_to_chars("0.1.0");
    text::chars_to_string(&v)
}

} // verus!
