//! User-defined normalization rules: spoken phrase to written form.
//!
//! The spoken form is stored lowercased; lookup trims and lowercases the
//! query and takes the first entry whose key matches exactly. Adding an
//! existing key replaces its written form in place; removing a key drops
//! every entry holding it.

use vstd::prelude::*;

use crate::text;
use crate::text::{lower_seq, trim_seq, view_opt_str};

verus! {

/// One spoken-to-written mapping. The spoken form is kept lowercased.
pub struct Rule {
    pub spoken: Vec<char>,
    pub written: Vec<char>,
}

/// The mutable store of custom rules, in insertion order.
pub struct CustomRules {
    pub entries: Vec<Rule>,
}

/// The entries as pairs of character sequences.
pub open spec fn rules_view(entries: Seq<Rule>) -> Seq<(Seq<char>, Seq<char>)> {
    entries.map_values(|r: Rule| (r.spoken@, r.written@))
}

impl View for CustomRules {
    type V = Seq<(Seq<char>, Seq<char>)>;

    open spec fn view(&self) -> Seq<(Seq<char>, Seq<char>)> {
        rules_view(self.entries@)
    }
}

impl CustomRules {
    /// An empty store.
    pub fn new() -> (r: CustomRules)
        ensures
            r@ == Seq::<(Seq<char>, Seq<char>)>::empty(),
    {
        let r = CustomRules { entries: Vec::new() };
        proof {
            assert(r@ =~= Seq::<(Seq<char>, Seq<char>)>::empty());
        }
        r
    }
}

/// The written form of the first entry at or after `i` whose key is `key`.
pub open spec fn lookup_from(
    rules: Seq<(Seq<char>, Seq<char>)>,
    i: int,
    key: Seq<char>,
) -> Option<Seq<char>>
    decreases rules.len() - i,
{
    if i < 0 || i >= rules.len() {
        None
    } else if rules[i].0 == key {
        Some(rules[i].1)
    } else {
        lookup_from(rules, i + 1, key)
    }
}

/// The written form stored under `key`, if any.
pub open spec fn lookup(rules: Seq<(Seq<char>, Seq<char>)>, key: Seq<char>) -> Option<Seq<char>> {
    lookup_from(rules, 0, key)
}

/// The store after an upsert: the first entry with key `key` gets written
/// form `w`; with no such entry, `(key, w)` is appended.
pub open spec fn upsert_from(
    rules: Seq<(Seq<char>, Seq<char>)>,
    i: int,
    key: Seq<char>,
    w: Seq<char>,
) -> Seq<(Seq<char>, Seq<char>)>
    decreases rules.len() - i,
{
    if i < 0 || i >= rules.len() {
        seq![(key, w)]
    } else if rules[i].0 == key {
        seq![(key, w)] + rules.subrange(i + 1, rules.len() as int)
    } else {
        seq![rules[i]] + upsert_from(rules, i + 1, key, w)
    }
}

pub open spec fn upsert(
    rules: Seq<(Seq<char>, Seq<char>)>,
    key: Seq<char>,
    w: Seq<char>,
) -> Seq<(Seq<char>, Seq<char>)> {
    upsert_from(rules, 0, key, w)
}

/// The store with every entry under `key` removed.
pub open spec fn remove_from(
    rules: Seq<(Seq<char>, Seq<char>)>,
    i: int,
    key: Seq<char>,
) -> Seq<(Seq<char>, Seq<char>)>
    decreases rules.len() - i,
{
    if i < 0 || i >= rules.len() {
        Seq::empty()
    } else if rules[i].0 == key {
        remove_from(rules, i + 1, key)
    } else {
        seq![rules[i]] + remove_from(rules, i + 1, key)
    }
}

pub open spec fn remove_key(
    rules: Seq<(Seq<char>, Seq<char>)>,
    key: Seq<char>,
) -> Seq<(Seq<char>, Seq<char>)> {
    remove_from(rules, 0, key)
}

fn rule_dup(r: &Rule) -> (o: Rule)
    ensures
        o.spoken@ == r.spoken@,
        o.written@ == r.written@,
{
    Rule { spoken: text::dup_chars(&r.spoken), written: text::dup_chars(&r.written) }
}

fn upsert_into(entries: &Vec<Rule>, i: usize, key: &Vec<char>, w: &Vec<char>, out: &mut Vec<Rule>)
    requires
        i <= entries.len(),
    ensures
        rules_view(final(out)@) == rules_view(old(out)@) + upsert_from(
            rules_view(entries@),
            i as int,
            key@,
            w@,
        ),
    decreases entries.len() - i,
{
    let ghost rv = rules_view(entries@);
    if i >= entries.len() {
        let ghost pre = rules_view(out@);
        out.push(Rule { spoken: text::dup_chars(key), written: text::dup_chars(w) });
        proof {
            assert(rules_view(out@) =~~= pre + seq![(key@, w@)]);
        }
        return ;
    }
    if text::eq_chars(&entries[i].spoken, key) {
        let ghost pre = rules_view(out@);
        out.push(Rule { spoken: text::dup_chars(key), written: text::dup_chars(w) });
        let mut j: usize = i + 1;
        while j < entries.len()
            invariant
                i + 1 <= j <= entries.len(),
                rules_view(out@) == rules_view(old(out)@) + seq![(key@, w@)] + rules_view(
                    entries@,
                ).subrange(i + 1, j as int),
            decreases entries.len() - j,
        {
            let ghost mid = rules_view(out@);
            out.push(rule_dup(&entries[j]));
            proof {
                assert(rules_view(out@) =~= mid.push(rules_view(entries@)[j as int]));
                assert(rules_view(entries@).subrange(i + 1, j + 1 as int) =~= rules_view(
                    entries@,
                ).subrange(i + 1, j as int).push(rules_view(entries@)[j as int]));
            }
            j += 1;
        }
        proof {
            assert(rules_view(out@) =~~= rules_view(old(out)@) + upsert_from(
                rules_view(entries@),
                i as int,
                key@,
                w@,
            ));
        }
        return ;
    }
    let ghost pre = rules_view(out@);
    out.push(rule_dup(&entries[i]));
    proof {
        assert(rules_view(out@) =~= pre.push(rules_view(entries@)[i as int]));
    }
    upsert_into(entries, i + 1, key, w, out);
    proof {
        assert(pre.push(rv[i as int]) + upsert_from(rv, i + 1 as int, key@, w@) =~~= pre + (seq![
            rv[i as int],
        ] + upsert_from(rv, i + 1 as int, key@, w@)));
    }
}

/// Add a spoken-to-written mapping; an existing spoken form is replaced.
pub fn add_rule(rules: &mut CustomRules, spoken: &str, written: &str)
    ensures
        final(rules)@ == upsert(old(rules)@, lower_seq(spoken@), written@),
{
    let sv = text::str_to_chars(spoken);
    let key = text::lower_chars(&sv);
    let w = text::str_to_chars(written);
    let mut out: Vec<Rule> = Vec::new();
    upsert_into(&rules.entries, 0, &key, &w, &mut out);
    rules.entries = out;
    proof {
        assert(rules@ =~~= upsert(old(rules)@, lower_seq(spoken@), written@));
    }
}

fn remove_into(entries: &Vec<Rule>, i: usize, key: &Vec<char>, out: &mut Vec<Rule>)
    requires
        i <= entries.len(),
    ensures
        rules_view(final(out)@) == rules_view(old(out)@) + remove_from(
            rules_view(entries@),
            i as int,
            key@,
        ),
    decreases entries.len() - i,
{
    let ghost rv = rules_view(entries@);
    if i >= entries.len() {
        proof {
            assert(rules_view(out@) =~~= rules_view(old(out)@) + remove_from(
                rv,
                i as int,
                key@,
            ));
        }
        return ;
    }
    if text::eq_chars(&entries[i].spoken, key) {
        remove_into(entries, i + 1, key, out);
        return ;
    }
    let ghost pre = rules_view(out@);
    out.push(rule_dup(&entries[i]));
    proof {
        assert(rules_view(out@) =~= pre.push(rv[i as int]));
    }
    remove_into(entries, i + 1, key, out);
    proof {
        assert(pre.push(rv[i as int]) + remove_from(rv, i + 1 as int, key@) =~~= pre + (seq![
            rv[i as int],
        ] + remove_from(rv, i + 1 as int, key@)));
    }
}

/// Remove a rule by its spoken form; says whether anything was removed.
pub fn remove_rule(rules: &mut CustomRules, spoken: &str) -> (removed: bool)
    ensures
        final(rules)@ == remove_key(old(rules)@, lower_seq(spoken@)),
        removed == (lookup(old(rules)@, lower_seq(spoken@)) is Some),
{
    let sv = text::str_to_chars(spoken);
    let key = text::lower_chars(&sv);
    let had = lookup_x(rules, &key).is_some();
    let mut out: Vec<Rule> = Vec::new();
    remove_into(&rules.entries, 0, &key, &mut out);
    rules.entries = out;
    proof {
        assert(rules@ =~~= remove_key(old(rules)@, lower_seq(spoken@)));
    }
    had
}

/// Clear the store.
pub fn clear_rules(rules: &mut CustomRules)
    ensures
        final(rules)@ == Seq::<(Seq<char>, Seq<char>)>::empty(),
{
    rules.entries.clear();
    proof {
        assert(rules@ =~= Seq::<(Seq<char>, Seq<char>)>::empty());
    }
}

fn lookup_x(rules: &CustomRules, key: &Vec<char>) -> (r: Option<Vec<char>>)
    ensures
        text::view_opt_chars(r) == lookup(rules@, key@),
{
    let mut i: usize = 0;
    loop
        invariant
            i <= rules.entries.len(),
            lookup(rules@, key@) == lookup_from(rules@, i as int, key@),
        decreases rules.entries.len() - i,
    {
        if i >= rules.entries.len() {
            return None;
        }
        if text::eq_chars(&rules.entries[i].spoken, key) {
            let w = text::copy_range(&rules.entries[i].written, 0, rules.entries[i].written.len());
            proof {
                assert(w@ =~= rules@[i as int].1);
            }
            return Some(w);
        }
        i += 1;
    }
}

/// Character-vector form of [`parse`].
pub fn parse_rules_chars(rules: &CustomRules, cv: &Vec<char>) -> (r: Option<Vec<char>>)
    ensures
        text::view_opt_chars(r) == lookup(rules@, trim_seq(lower_seq(cv@))),
{
    let lowv = text::lower_chars(cv);
    let key = text::trim_chars(&lowv);
    lookup_x(rules, &key)
}

/// Match the trimmed, lowercased input against the stored rules.
pub fn parse(rules: &CustomRules, input: &str) -> (r: Option<String>)
    ensures
        view_opt_str(r) == lookup(rules@, trim_seq(lower_seq(input@))),
{
    let cv = text::str_to_chars(input);
    let lowv = text::lower_chars(&cv);
    let key = text::trim_chars(&lowv);
    match lookup_x(rules, &key) {
        Some(w) => Some(text::chars_to_string(&w)),
        None => None,
    }
}

/// The number of rules currently registered.
pub fn rule_count(rules: &CustomRules) -> (n: usize)
    ensures
        n as int == rules@.len(),
{
    rules.entries.len()
}

} // verus!
