//! Library-wide properties, stated and proved over the same spec functions
//! that the public contracts use.

use vstd::prelude::*;

use crate::custom_rules::{lookup, lookup_from, remove_from, remove_key, upsert, upsert_from};
use crate::text::{join_range, tokens_of, trim_seq};

verus! {

// ---------------------------------------------------------------------------
// Custom rules round trip
// ---------------------------------------------------------------------------

proof fn lemma_lookup_upsert_from(
    rules: Seq<(Seq<char>, Seq<char>)>,
    i: int,
    key: Seq<char>,
    w: Seq<char>,
)
    requires
        0 <= i <= rules.len(),
    ensures
        lookup_from(upsert_from(rules, i, key, w), 0, key) == Some(w),
    decreases rules.len() - i,
{
    if i >= rules.len() {
    } else if rules[i].0 == key {
    } else {
        lemma_lookup_upsert_from(rules, i + 1, key, w);
        let tail = upsert_from(rules, i + 1, key, w);
        assert(upsert_from(rules, i, key, w) == seq![rules[i]] + tail);
        assert((seq![rules[i]] + tail)[0] == rules[i]);
        assert forall|j: int| 0 <= j < tail.len() implies (seq![rules[i]] + tail)[j + 1]
            == tail[j] by {}
        lemma_lookup_shift(rules[i], tail, key);
    }
}

proof fn lemma_lookup_shift(
    head: (Seq<char>, Seq<char>),
    tail: Seq<(Seq<char>, Seq<char>)>,
    key: Seq<char>,
)
    requires
        head.0 != key,
    ensures
        lookup_from(seq![head] + tail, 0, key) == lookup_from(tail, 0, key),
{
    let whole = seq![head] + tail;
    assert(whole[0] == head);
    lemma_lookup_from_tail(whole, tail, key, 0);
}

proof fn lemma_lookup_from_tail(
    whole: Seq<(Seq<char>, Seq<char>)>,
    tail: Seq<(Seq<char>, Seq<char>)>,
    key: Seq<char>,
    i: int,
)
    requires
        whole.len() == tail.len() + 1,
        forall|j: int| 0 <= j < tail.len() ==> whole[j + 1] == tail[j],
        0 <= i <= tail.len(),
    ensures
        lookup_from(whole, i + 1, key) == lookup_from(tail, i, key),
    decreases tail.len() - i,
{
    if i >= tail.len() {
    } else {
        assert(whole[i + 1] == tail[i]);
        lemma_lookup_from_tail(whole, tail, key, i + 1);
    }
}

proof fn lemma_lookup_remove_from(rules: Seq<(Seq<char>, Seq<char>)>, i: int, key: Seq<char>)
    requires
        0 <= i <= rules.len(),
    ensures
        lookup_from(remove_from(rules, i, key), 0, key) is None,
    decreases rules.len() - i,
{
    if i >= rules.len() {
    } else if rules[i].0 == key {
        lemma_lookup_remove_from(rules, i + 1, key);
    } else {
        lemma_lookup_remove_from(rules, i + 1, key);
        let tail = remove_from(rules, i + 1, key);
        assert(remove_from(rules, i, key) == seq![rules[i]] + tail);
        lemma_lookup_shift(rules[i], tail, key);
    }
}

/// Registering a rule makes its written form visible under its key, and
/// removing the key afterwards makes the lookup fail again; the removal
/// itself reports success because the key was present.
pub proof fn rule_round_trip(rules: Seq<(Seq<char>, Seq<char>)>, key: Seq<char>, w: Seq<char>)
    ensures
        lookup(upsert(rules, key, w), key) == Some(w),
        lookup(remove_key(upsert(rules, key, w), key), key) is None,
        lookup(upsert(rules, key, w), key) is Some,
{
    lemma_lookup_upsert_from(rules, 0, key, w);
    lemma_lookup_remove_from(upsert(rules, key, w), 0, key);
}

/// The round trip at the store's public interface: `add_rule` stores the
/// lowercased spoken form as given, while `parse` trims and lowercases its
/// query. So for any query equal to the spoken form up to casing and
/// surrounding whitespace, the lookup after an add finds the written form,
/// and the lookup after the matching removal fails — provided the spoken
/// form's lowercase text carries no surrounding whitespace itself, since a
/// key stored with such whitespace is never produced by a trimmed query.
pub proof fn rule_round_trip_api(
    rules: Seq<(Seq<char>, Seq<char>)>,
    spoken: Seq<char>,
    written: Seq<char>,
    query: Seq<char>,
)
    requires
        trim_seq(crate::text::lower_seq(query)) == crate::text::lower_seq(spoken),
    ensures
        lookup(
            upsert(rules, crate::text::lower_seq(spoken), written),
            trim_seq(crate::text::lower_seq(query)),
        ) == Some(written),
        lookup(
            remove_key(
                upsert(rules, crate::text::lower_seq(spoken), written),
                crate::text::lower_seq(spoken),
            ),
            trim_seq(crate::text::lower_seq(query)),
        ) is None,
{
    rule_round_trip(rules, crate::text::lower_seq(spoken), written);
}

// ---------------------------------------------------------------------------
// The sentence scanner never rewrites a span to itself
// ---------------------------------------------------------------------------

/// Whatever span the scanner picks, its replacement is non-empty after
/// trimming and differs from the span text.
pub proof fn scanner_no_noop(
    rules: Seq<(Seq<char>, Seq<char>)>,
    toks: Seq<Seq<char>>,
    i: int,
    end: int,
)
    ensures
        match crate::best_at(rules, toks, i, end) {
            Some((e, cand)) => trim_seq(cand).len() != 0 && trim_seq(cand) != join_range(
                toks,
                i,
                e,
            ),
            None => true,
        },
    decreases end - i,
{
    if end <= i {
    } else {
        scanner_no_noop(rules, toks, i, end - 1);
    }
}

// ---------------------------------------------------------------------------
// Sentences of unrecognized tokens pass through unchanged
// ---------------------------------------------------------------------------

proof fn lemma_best_at_none(
    rules: Seq<(Seq<char>, Seq<char>)>,
    toks: Seq<Seq<char>>,
    i: int,
    end: int,
)
    requires
        forall|a: int, b: int|
            0 <= a < b <= toks.len() ==> crate::span_spec(
                rules,
                #[trigger] join_range(toks, a, b),
            ) is None,
        0 <= i,
        end <= toks.len(),
    ensures
        crate::best_at(rules, toks, i, end) is None,
    decreases end - i,
{
    if end <= i {
    } else {
        assert(crate::span_spec(rules, join_range(toks, i, end)) is None);
        lemma_best_at_none(rules, toks, i, end - 1);
    }
}

proof fn lemma_scan_passthrough(
    rules: Seq<(Seq<char>, Seq<char>)>,
    toks: Seq<Seq<char>>,
    i: int,
    max_span: int,
)
    requires
        forall|a: int, e: int|
            0 <= a && e <= toks.len() ==> #[trigger] crate::best_at(rules, toks, a, e) is None,
        0 <= i,
    ensures
        crate::scan_from(rules, toks, i, max_span) == toks.subrange(
            i,
            toks.len() as int,
        ) || i >= toks.len() && crate::scan_from(rules, toks, i, max_span) == Seq::<
            Seq<char>,
        >::empty(),
    decreases toks.len() - i,
{
    if i < toks.len() {
        let max_end = if toks.len() < i + max_span {
            toks.len() as int
        } else {
            i + max_span
        };
        assert(crate::best_at(rules, toks, i, max_end) is None);
        lemma_scan_passthrough(rules, toks, i + 1, max_span);
        assert(crate::scan_from(rules, toks, i, max_span) =~~= toks.subrange(
            i,
            toks.len() as int,
        ));
    }
}

/// When no span of the sentence is accepted by any tagger or rule, the
/// scanner's output is exactly the original tokens, in order and with
/// their original casing, joined by single spaces.
pub proof fn sentence_passthrough(
    rules: Seq<(Seq<char>, Seq<char>)>,
    s: Seq<char>,
    max_span_arg: int,
)
    requires
        forall|a: int, b: int|
            0 <= a < b <= tokens_of(trim_seq(s)).len() ==> crate::span_spec(
                rules,
                #[trigger] join_range(tokens_of(trim_seq(s)), a, b),
            ) is None,
        trim_seq(s).len() > 0,
    ensures
        crate::sentence_spec(rules, s, max_span_arg) == join_range(
            tokens_of(trim_seq(s)),
            0,
            tokens_of(trim_seq(s)).len() as int,
        ),
{
    let toks = tokens_of(trim_seq(s));
    let max_span = if max_span_arg == 0 {
        1
    } else {
        max_span_arg
    };
    assert forall|a: int, e: int|
        0 <= a && e <= toks.len() implies #[trigger] crate::best_at(rules, toks, a, e) is None by {
        lemma_best_at_none(rules, toks, a, e);
    }
    lemma_scan_passthrough(rules, toks, 0, max_span);
    if toks.len() > 0 {
        assert(crate::scan_from(rules, toks, 0, max_span) =~~= toks);
    } else {
        assert(crate::scan_from(rules, toks, 0, max_span) =~~= toks);
    }
}

// ---------------------------------------------------------------------------
// The cardinal fallback of the single-expression driver
// ---------------------------------------------------------------------------

/// When the custom rules and every tagger before the cardinal decline the
/// trimmed input, the result is exactly the cardinal's written number.
///
/// Every earlier stage must decline, the telephone, electronic and ordinal
/// taggers included: a spoken digit string such as "one two three" is a
/// scale-free cardinal too, yet the telephone tagger claims it first and
/// the driver answers "123", not the cardinal's "6".
pub proof fn cardinal_fallback(rules: Seq<(Seq<char>, Seq<char>)>, s: Seq<char>, out: Seq<char>)
    requires
        crate::custom_rules::lookup(
            rules,
            trim_seq(crate::text::lower_seq(trim_seq(s))),
        ) is None,
        crate::taggers::whitelist::whitelist_spec(trim_seq(s)) is None,
        crate::taggers::punctuation::punctuation_spec(trim_seq(s)) is None,
        crate::taggers::word::word_spec(trim_seq(s)) is None,
        crate::taggers::time::time_spec(trim_seq(s)) is None,
        crate::taggers::date::date_spec(trim_seq(s)) is None,
        crate::taggers::money::money_spec(trim_seq(s)) is None,
        crate::taggers::measure::measure_spec(trim_seq(s)) is None,
        crate::taggers::decimal::decimal_spec(trim_seq(s)) is None,
        crate::taggers::telephone::telephone_spec(trim_seq(s)) is None,
        crate::taggers::electronic::electronic_spec(trim_seq(s)) is None,
        crate::taggers::ordinal::ordinal_spec(trim_seq(s)) is None,
        crate::taggers::cardinal::cardinal_spec(trim_seq(s)) == Some(out),
    ensures
        crate::normalize_spec(rules, s) == out,
{
}

// ---------------------------------------------------------------------------
// The punctuation tagger fires on exact input only
// ---------------------------------------------------------------------------

/// When the whole trimmed, lowercased input is not itself a punctuation
/// phrase, the punctuation tagger declines: a phrase buried inside other
/// words never produces a bare symbol.
pub proof fn punctuation_exact_only(s: Seq<char>)
    requires
        crate::taggers::punctuation::punct_symbol(
            trim_seq(crate::text::lower_seq(s)),
        ) is None,
    ensures
        crate::taggers::punctuation::punctuation_spec(s) is None,
{
}

// ---------------------------------------------------------------------------
// Month casing comes from the source tokens
// ---------------------------------------------------------------------------

/// The month text used by the date patterns is either one of the original
/// tokens (keeping its casing) or the lowercase name itself.
pub proof fn month_case_preserved(toks: Seq<Seq<char>>, i: int, m: Seq<char>)
    ensures
        ({
            let r = crate::taggers::date::orig_month_from(toks, i, m);
            r == m || exists|j: int|
                0 <= j < toks.len() && toks[j] == r && crate::text::lower_seq(r) == m
        }),
    decreases toks.len() - i,
{
    if i < 0 || i >= toks.len() {
    } else if crate::text::lower_seq(toks[i]) == m {
        assert(toks[i] == crate::taggers::date::orig_month_from(toks, i, m));
    } else {
        month_case_preserved(toks, i + 1, m);
    }
}

// ---------------------------------------------------------------------------
// Domain host labels keep the casing of the source tokens
// ---------------------------------------------------------------------------

/// A domain token that is not one of the spoken markers and not a spelled
/// digit word appears in the written domain verbatim, with the casing it
/// has in the source; the rest of the domain follows it unchanged.
pub proof fn domain_case_preserved(toks: Seq<Seq<char>>, i: int)
    requires
        0 <= i < toks.len(),
        crate::text::lower_seq(toks[i]) != "dot"@,
        crate::text::lower_seq(toks[i]) != "slash"@,
        crate::text::lower_seq(toks[i]) != "colon"@,
        crate::text::lower_seq(toks[i]) != "hyphen"@,
        crate::text::lower_seq(toks[i]) != "dash"@,
        (toks[i].len() == 1 && (crate::text::is_ascii_alpha_char(toks[i][0])
            || crate::text::is_ascii_digit_char(toks[i][0]))) || (toks[i].len() != 1
            && crate::taggers::decimal::digit_word(crate::text::lower_seq(toks[i])) is None),
    ensures
        crate::taggers::electronic::domain_part(toks, i) == toks[i]
            + crate::taggers::electronic::domain_part(toks, i + 1),
{
    let w = toks[i];
    if w.len() == 1 {
        assert(seq![w[0]] =~= w);
    }
}

} // verus!
