//! Character-level utilities shared by all taggers: whitespace handling,
//! ASCII lowercasing, substring search, tokenization, joining, and decimal
//! formatting of integers.
//!
//! Every operation is defined twice: a spec function over `Seq<char>` that
//! states what the result is, and an executable mirror proved against it.

use vstd::prelude::*;

verus! {

// ---------------------------------------------------------------------------
// Views of optional strings
// ---------------------------------------------------------------------------

pub open spec fn view_opt_str(r: Option<String>) -> Option<Seq<char>> {
    match r {
        Some(s) => Some(s@),
        None => None,
    }
}

pub open spec fn view_opt_chars(r: Option<Vec<char>>) -> Option<Seq<char>> {
    match r {
        Some(v) => Some(v@),
        None => None,
    }
}

// ---------------------------------------------------------------------------
// Characters
// ---------------------------------------------------------------------------

/// Whitespace for tokenization: space, tab, newline, carriage return.
pub open spec fn is_space_char(c: char) -> bool {
    c == ' ' || c == '\t' || c == '\n' || c == '\r'
}

pub fn is_space(c: char) -> (r: bool)
    ensures
        r == is_space_char(c),
{
    c == ' ' || c == '\t' || c == '\n' || c == '\r'
}

/// ASCII lowercasing of a single character; anything outside A-Z is kept.
pub open spec fn lower_char(c: char) -> char {
    if 65 <= c as u32 && c as u32 <= 90 {
        ((c as u32 + 32) as u8) as char
    } else {
        c
    }
}

pub fn lower_char_x(c: char) -> (r: char)
    ensures
        r == lower_char(c),
{
    let n = c as u32;
    if 65 <= n && n <= 90 {
        ((n + 32) as u8) as char
    } else {
        c
    }
}

/// ASCII uppercasing of a single character; anything outside a-z is kept.
pub open spec fn upper_char(c: char) -> char {
    if 97 <= c as u32 && c as u32 <= 122 {
        ((c as u32 - 32) as u8) as char
    } else {
        c
    }
}

pub fn upper_char_x(c: char) -> (r: char)
    ensures
        r == upper_char(c),
{
    let n = c as u32;
    if 97 <= n && n <= 122 {
        ((n - 32) as u8) as char
    } else {
        c
    }
}

pub open spec fn is_ascii_digit_char(c: char) -> bool {
    48 <= c as u32 && c as u32 <= 57
}

pub fn is_ascii_digit_x(c: char) -> (r: bool)
    ensures
        r == is_ascii_digit_char(c),
{
    let n = c as u32;
    48 <= n && n <= 57
}

pub open spec fn is_ascii_alpha_char(c: char) -> bool {
    (65 <= c as u32 && c as u32 <= 90) || (97 <= c as u32 && c as u32 <= 122)
}

pub fn is_ascii_alpha_x(c: char) -> (r: bool)
    ensures
        r == is_ascii_alpha_char(c),
{
    let n = c as u32;
    (65 <= n && n <= 90) || (97 <= n && n <= 122)
}

/// ASCII punctuation: the `!`..`/`, `:`..`@`, `[`..`` ` ``, `{`..`~` ranges.
pub open spec fn is_ascii_punct_char(c: char) -> bool {
    (33 <= c as u32 && c as u32 <= 47) || (58 <= c as u32 && c as u32 <= 64) || (91 <= c as u32
        && c as u32 <= 96) || (123 <= c as u32 && c as u32 <= 126)
}

pub fn is_ascii_punct_x(c: char) -> (r: bool)
    ensures
        r == is_ascii_punct_char(c),
{
    let n = c as u32;
    (33 <= n && n <= 47) || (58 <= n && n <= 64) || (91 <= n && n <= 96) || (123 <= n && n <= 126)
}

pub open spec fn is_upper_char(c: char) -> bool {
    65 <= c as u32 && c as u32 <= 90
}

pub fn is_upper_x(c: char) -> (r: bool)
    ensures
        r == is_upper_char(c),
{
    let n = c as u32;
    65 <= n && n <= 90
}

// ---------------------------------------------------------------------------
// Sequence-wide lowercase
// ---------------------------------------------------------------------------

pub open spec fn lower_seq(s: Seq<char>) -> Seq<char> {
    s.map_values(|c: char| lower_char(c))
}

pub fn lower_chars(v: &Vec<char>) -> (out: Vec<char>)
    ensures
        out@ == lower_seq(v@),
{
    let mut out: Vec<char> = Vec::new();
    let mut i: usize = 0;
    while i < v.len()
        invariant
            i <= v.len(),
            out@ == lower_seq(v@.subrange(0, i as int)),
        decreases v.len() - i,
    {
        out.push(lower_char_x(v[i]));
        proof {
            assert(lower_seq(v@.subrange(0, i + 1 as int)) =~= lower_seq(
                v@.subrange(0, i as int),
            ).push(lower_char(v@[i as int])));
        }
        i += 1;
    }
    proof {
        assert(v@.subrange(0, v@.len() as int) =~= v@);
    }
    out
}

pub open spec fn upper_seq(s: Seq<char>) -> Seq<char> {
    s.map_values(|c: char| upper_char(c))
}

pub fn upper_chars(v: &Vec<char>) -> (out: Vec<char>)
    ensures
        out@ == upper_seq(v@),
{
    let mut out: Vec<char> = Vec::new();
    let mut i: usize = 0;
    while i < v.len()
        invariant
            i <= v.len(),
            out@ == upper_seq(v@.subrange(0, i as int)),
        decreases v.len() - i,
    {
        out.push(upper_char_x(v[i]));
        proof {
            assert(upper_seq(v@.subrange(0, i + 1 as int)) =~= upper_seq(
                v@.subrange(0, i as int),
            ).push(upper_char(v@[i as int])));
        }
        i += 1;
    }
    proof {
        assert(v@.subrange(0, v@.len() as int) =~= v@);
    }
    out
}

// ---------------------------------------------------------------------------
// Conversions between &str / String and Vec<char>
// ---------------------------------------------------------------------------

/// Collect the characters of a string slice, in order.
pub fn str_to_chars(s: &str) -> (out: Vec<char>)
    ensures
        out@ == s@,
{
    let n = s.unicode_len();
    let mut out: Vec<char> = Vec::new();
    let mut i: usize = 0;
    while i < n
        invariant
            n == s@.len(),
            i <= n,
            out@ == s@.subrange(0, i as int),
        decreases n - i,
    {
        let c = s.get_char(i);
        out.push(c);
        proof {
            assert(s@.subrange(0, i + 1 as int) =~= s@.subrange(0, i as int).push(s@[i as int]));
        }
        i += 1;
    }
    proof {
        assert(s@.subrange(0, s@.len() as int) =~= s@);
    }
    out
}

/// Relies on `String`'s `FromIterator<char>`: collecting the characters of the
/// vector yields the string whose characters are exactly those, in order.
#[verifier::external_body]
pub fn chars_to_string(v: &Vec<char>) -> (s: String)
    ensures
        s@ == v@,
{
    v.iter().collect()
}

// ---------------------------------------------------------------------------
// Comparison
// ---------------------------------------------------------------------------

/// Character-for-character equality of a vector against a string slice.
pub fn eq_str(t: &Vec<char>, s: &str) -> (r: bool)
    ensures
        r == (t@ == s@),
{
    let n = s.unicode_len();
    if t.len() != n {
        proof {
            assert(t@.len() != s@.len());
        }
        return false;
    }
    let mut i: usize = 0;
    while i < n
        invariant
            n == s@.len(),
            t@.len() == n,
            i <= n,
            forall|j: int| 0 <= j < i ==> t@[j] == s@[j],
        decreases n - i,
    {
        if t[i] != s.get_char(i) {
            proof {
                assert(t@[i as int] != s@[i as int]);
            }
            return false;
        }
        i += 1;
    }
    proof {
        assert(t@ =~= s@);
    }
    true
}

/// Character-for-character equality of two vectors.
pub fn eq_chars(a: &Vec<char>, b: &Vec<char>) -> (r: bool)
    ensures
        r == (a@ == b@),
{
    if a.len() != b.len() {
        proof {
            assert(a@.len() != b@.len());
        }
        return false;
    }
    let mut i: usize = 0;
    while i < a.len()
        invariant
            a@.len() == b@.len(),
            i <= a.len(),
            forall|j: int| 0 <= j < i ==> a@[j] == b@[j],
        decreases a.len() - i,
    {
        if a[i] != b[i] {
            proof {
                assert(a@[i as int] != b@[i as int]);
            }
            return false;
        }
        i += 1;
    }
    proof {
        assert(a@ =~= b@);
    }
    true
}

// ---------------------------------------------------------------------------
// Substring search
// ---------------------------------------------------------------------------

/// `pat` occurs in `s` at position `i`.
pub open spec fn occurs_at(s: Seq<char>, pat: Seq<char>, i: int) -> bool {
    0 <= i && i + pat.len() <= s.len() && (forall|k: int|
        0 <= k < pat.len() ==> s[i + k] == pat[k])
}

/// The first position `>= i` where `pat` occurs in `s`, if any.
pub open spec fn find_from(s: Seq<char>, pat: Seq<char>, i: int) -> Option<int>
    decreases s.len() - i,
{
    if i < 0 || i + pat.len() > s.len() {
        None
    } else if occurs_at(s, pat, i) {
        Some(i)
    } else {
        find_from(s, pat, i + 1)
    }
}

pub open spec fn find_sub(s: Seq<char>, pat: Seq<char>) -> Option<int> {
    find_from(s, pat, 0)
}

/// A found position is a real occurrence at or after the start.
pub proof fn lemma_find_from_occurs(s: Seq<char>, pat: Seq<char>, i: int)
    ensures
        match find_from(s, pat, i) {
            Some(j) => occurs_at(s, pat, j) && i <= j,
            None => true,
        },
    decreases s.len() - i,
{
    if i < 0 || i + pat.len() > s.len() {
    } else if occurs_at(s, pat, i) {
    } else {
        lemma_find_from_occurs(s, pat, i + 1);
    }
}

pub open spec fn contains_sub(s: Seq<char>, pat: Seq<char>) -> bool {
    find_sub(s, pat) is Some
}

/// The last position `<= i` where `pat` occurs in `s`, if any.
pub open spec fn rfind_at(s: Seq<char>, pat: Seq<char>, i: int) -> Option<int>
    decreases i + 1,
{
    if i < 0 {
        None
    } else if occurs_at(s, pat, i) {
        Some(i)
    } else {
        rfind_at(s, pat, i - 1)
    }
}

/// The last occurrence of `pat` in `s`.
pub open spec fn rfind_sub(s: Seq<char>, pat: Seq<char>) -> Option<int> {
    if pat.len() > s.len() {
        None
    } else {
        rfind_at(s, pat, s.len() - pat.len())
    }
}

/// A found position is a real occurrence.
pub proof fn lemma_rfind_at_occurs(s: Seq<char>, pat: Seq<char>, i: int)
    ensures
        match rfind_at(s, pat, i) {
            Some(j) => occurs_at(s, pat, j) && j <= i,
            None => true,
        },
    decreases i + 1,
{
    if i < 0 {
    } else if occurs_at(s, pat, i) {
    } else {
        lemma_rfind_at_occurs(s, pat, i - 1);
    }
}

/// Last occurrence of `pat` in `s`.
pub fn rfind_str(s: &Vec<char>, pat: &str) -> (r: Option<usize>)
    ensures
        match r {
            Some(j) => rfind_sub(s@, pat@) == Some(j as int),
            None => rfind_sub(s@, pat@) is None,
        },
{
    let pv = str_to_chars(pat);
    if pv.len() > s.len() {
        return None;
    }
    let mut i: usize = s.len() - pv.len();
    loop
        invariant
            pv@ == pat@,
            pv@.len() <= s@.len(),
            i <= s.len(),
            rfind_sub(s@, pat@) == rfind_at(s@, pat@, i as int),
        decreases i + 1,
    {
        if match_at(s, &pv, i) {
            return Some(i);
        }
        proof {
            assert(rfind_at(s@, pat@, i as int) == rfind_at(s@, pat@, i - 1 as int));
        }
        if i == 0 {
            return None;
        }
        i -= 1;
    }
}

pub open spec fn starts_with(s: Seq<char>, pat: Seq<char>) -> bool {
    occurs_at(s, pat, 0)
}

pub open spec fn ends_with(s: Seq<char>, pat: Seq<char>) -> bool {
    pat.len() <= s.len() && occurs_at(s, pat, s.len() - pat.len())
}

/// Does `pat` occur at position `i` of `s`?
pub fn match_at(s: &Vec<char>, pat: &Vec<char>, i: usize) -> (r: bool)
    requires
        i <= s.len(),
    ensures
        r == occurs_at(s@, pat@, i as int),
{
    if s.len() - i < pat.len() {
        proof {
            assert(!occurs_at(s@, pat@, i as int));
        }
        return false;
    }
    let mut j: usize = 0;
    while j < pat.len()
        invariant
            i + pat.len() <= s.len(),
            j <= pat.len(),
            forall|k: int| 0 <= k < j ==> s@[i + k] == pat@[k],
        decreases pat.len() - j,
    {
        if s[i + j] != pat[j] {
            proof {
                assert(s@[i + j as int] != pat@[j as int]);
            }
            return false;
        }
        j += 1;
    }
    true
}

/// First occurrence of `pat` in `s` at or after `from`.
pub fn find_sub_from(s: &Vec<char>, pat: &Vec<char>, from: usize) -> (r: Option<usize>)
    requires
        from <= s.len(),
    ensures
        match r {
            Some(j) => find_from(s@, pat@, from as int) == Some(j as int),
            None => find_from(s@, pat@, from as int) is None,
        },
{
    let mut i: usize = from;
    loop
        invariant
            from <= i <= s.len(),
            find_from(s@, pat@, from as int) == find_from(s@, pat@, i as int),
        decreases s.len() - i,
    {
        if s.len() - i < pat.len() {
            return None;
        }
        if match_at(s, pat, i) {
            return Some(i);
        }
        proof {
            // the pattern did not match here, so it is not empty
            assert(pat@.len() > 0);
            assert(find_from(s@, pat@, i as int) == find_from(s@, pat@, i + 1 as int));
        }
        i += 1;
    }
}

pub fn find_str(s: &Vec<char>, pat: &str) -> (r: Option<usize>)
    ensures
        match r {
            Some(j) => find_sub(s@, pat@) == Some(j as int),
            None => find_sub(s@, pat@) is None,
        },
{
    let pv = str_to_chars(pat);
    find_sub_from(s, &pv, 0)
}

pub fn contains_str(s: &Vec<char>, pat: &str) -> (r: bool)
    ensures
        r == contains_sub(s@, pat@),
{
    match find_str(s, pat) {
        Some(_) => true,
        None => false,
    }
}

pub fn starts_with_str(s: &Vec<char>, pat: &str) -> (r: bool)
    ensures
        r == starts_with(s@, pat@),
{
    let pv = str_to_chars(pat);
    match_at(s, &pv, 0)
}

pub fn ends_with_str(s: &Vec<char>, pat: &str) -> (r: bool)
    ensures
        r == ends_with(s@, pat@),
{
    let pv = str_to_chars(pat);
    if pv.len() > s.len() {
        return false;
    }
    match_at(s, &pv, s.len() - pv.len())
}

// ---------------------------------------------------------------------------
// Splitting helpers
// ---------------------------------------------------------------------------

/// The parts around the first occurrence of `pat`.
pub open spec fn split2(s: Seq<char>, pat: Seq<char>) -> Option<(Seq<char>, Seq<char>)> {
    match find_sub(s, pat) {
        Some(ix) => Some((s.subrange(0, ix), s.subrange(ix + pat.len(), s.len() as int))),
        None => None,
    }
}

/// Does splitting on `pat` give exactly two parts?
pub open spec fn splits_in_two(s: Seq<char>, pat: Seq<char>) -> bool {
    match find_sub(s, pat) {
        Some(ix) => find_sub(s.subrange(ix + pat.len(), s.len() as int), pat) is None,
        None => false,
    }
}

pub fn split2_x(s: &Vec<char>, pat: &str) -> (r: Option<(Vec<char>, Vec<char>)>)
    ensures
        match r {
            Some((a, b)) => split2(s@, pat@) == Some((a@, b@)),
            None => split2(s@, pat@) is None,
        },
{
    let pv = str_to_chars(pat);
    match find_sub_from(s, &pv, 0) {
        Some(ix) => {
            proof {
                lemma_find_from_occurs(s@, pat@, 0);
                assert(ix + pv.len() <= s.len());
            }
            let a = copy_range(s, 0, ix);
            let b = copy_range(s, ix + pv.len(), s.len());
            Some((a, b))
        },
        None => None,
    }
}

// ---------------------------------------------------------------------------
// Ranges
// ---------------------------------------------------------------------------

/// Copy of `v[lo..hi]`.
pub fn copy_range(v: &Vec<char>, lo: usize, hi: usize) -> (out: Vec<char>)
    requires
        lo <= hi <= v.len(),
    ensures
        out@ == v@.subrange(lo as int, hi as int),
{
    let mut out: Vec<char> = Vec::new();
    let mut i: usize = lo;
    while i < hi
        invariant
            lo <= i <= hi <= v.len(),
            out@ == v@.subrange(lo as int, i as int),
        decreases hi - i,
    {
        out.push(v[i]);
        proof {
            assert(v@.subrange(lo as int, i + 1 as int) =~= v@.subrange(lo as int, i as int).push(
                v@[i as int],
            ));
        }
        i += 1;
    }
    out
}

/// An owned copy of the whole vector.
pub fn dup_chars(v: &Vec<char>) -> (out: Vec<char>)
    ensures
        out@ == v@,
{
    let out = copy_range(v, 0, v.len());
    proof {
        assert(v@.subrange(0, v@.len() as int) =~= v@);
    }
    out
}

/// Append all of `src` to `out`.
pub fn push_all(out: &mut Vec<char>, src: &Vec<char>)
    ensures
        final(out)@ == old(out)@ + src@,
{
    let mut i: usize = 0;
    while i < src.len()
        invariant
            i <= src.len(),
            out@ == old(out)@ + src@.subrange(0, i as int),
        decreases src.len() - i,
    {
        out.push(src[i]);
        proof {
            assert(old(out)@ + src@.subrange(0, i + 1 as int) =~= (old(out)@ + src@.subrange(
                0,
                i as int,
            )).push(src@[i as int]));
        }
        i += 1;
    }
    proof {
        assert(src@.subrange(0, src@.len() as int) =~= src@);
    }
}

pub fn push_str_chars(out: &mut Vec<char>, src: &str)
    ensures
        final(out)@ == old(out)@ + src@,
{
    let sv = str_to_chars(src);
    push_all(out, &sv);
}

// ---------------------------------------------------------------------------
// Repeated prefix and suffix stripping
// ---------------------------------------------------------------------------

/// `s` with every trailing repetition of `pat` removed.
pub open spec fn strip_suffix_all(s: Seq<char>, pat: Seq<char>) -> Seq<char>
    decreases s.len(),
{
    if pat.len() > 0 && ends_with(s, pat) {
        strip_suffix_all(s.subrange(0, s.len() - pat.len()), pat)
    } else {
        s
    }
}

pub fn strip_suffix_all_x(s: &Vec<char>, pat: &str) -> (out: Vec<char>)
    ensures
        out@ == strip_suffix_all(s@, pat@),
{
    let pv = str_to_chars(pat);
    strip_suffix_all_rec(s, &pv)
}

fn strip_suffix_all_rec(s: &Vec<char>, pat: &Vec<char>) -> (out: Vec<char>)
    ensures
        out@ == strip_suffix_all(s@, pat@),
    decreases s.len(),
{
    if pat.len() > 0 && pat.len() <= s.len() && match_at(s, pat, s.len() - pat.len()) {
        let t = copy_range(s, 0, s.len() - pat.len());
        strip_suffix_all_rec(&t, pat)
    } else {
        dup_chars(s)
    }
}

/// `s` with every leading repetition of `pat` removed.
pub open spec fn strip_prefix_all(s: Seq<char>, pat: Seq<char>) -> Seq<char>
    decreases s.len(),
{
    if pat.len() > 0 && starts_with(s, pat) {
        strip_prefix_all(s.subrange(pat.len() as int, s.len() as int), pat)
    } else {
        s
    }
}

pub fn strip_prefix_all_x(s: &Vec<char>, pat: &str) -> (out: Vec<char>)
    ensures
        out@ == strip_prefix_all(s@, pat@),
{
    let pv = str_to_chars(pat);
    strip_prefix_all_rec(s, &pv)
}

fn strip_prefix_all_rec(s: &Vec<char>, pat: &Vec<char>) -> (out: Vec<char>)
    ensures
        out@ == strip_prefix_all(s@, pat@),
    decreases s.len(),
{
    if pat.len() > 0 && pat.len() <= s.len() && match_at(s, pat, 0) {
        let t = copy_range(s, pat.len(), s.len());
        strip_prefix_all_rec(&t, pat)
    } else {
        dup_chars(s)
    }
}

// ---------------------------------------------------------------------------
// Trimming
// ---------------------------------------------------------------------------

/// The sequence with leading and trailing whitespace removed.
pub open spec fn trim_seq(s: Seq<char>) -> Seq<char>
    decreases s.len(),
{
    if s.len() == 0 {
        s
    } else if is_space_char(s[0]) {
        trim_seq(s.subrange(1, s.len() as int))
    } else if is_space_char(s[s.len() - 1]) {
        trim_seq(s.subrange(0, s.len() - 1))
    } else {
        s
    }
}

proof fn lemma_trim_range(s: Seq<char>, lo: int, hi: int)
    requires
        0 <= lo <= hi <= s.len(),
        forall|j: int| 0 <= j < lo ==> is_space_char(s[j]),
        forall|j: int| hi <= j < s.len() ==> is_space_char(s[j]),
        lo < hi ==> !is_space_char(s[lo]) && !is_space_char(s[hi - 1]),
    ensures
        trim_seq(s) == s.subrange(lo, hi),
    decreases s.len(),
{
    if s.len() == 0 {
        assert(s.subrange(lo, hi) =~= s);
    } else if lo > 0 {
        let t = s.subrange(1, s.len() as int);
        lemma_trim_range(t, lo - 1, hi - 1);
        assert(t.subrange(lo - 1, hi - 1) =~= s.subrange(lo, hi));
    } else if lo == hi {
        // everything is whitespace
        assert(is_space_char(s[0]));
        let t = s.subrange(1, s.len() as int);
        lemma_trim_range(t, 0, 0);
        assert(t.subrange(0, 0) =~= s.subrange(lo, hi));
    } else if hi < s.len() {
        assert(!is_space_char(s[0]));
        assert(is_space_char(s[s.len() - 1]));
        let t = s.subrange(0, s.len() - 1);
        lemma_trim_range(t, lo, hi);
        assert(t.subrange(lo, hi) =~= s.subrange(lo, hi));
    } else {
        assert(!is_space_char(s[0]));
        assert(!is_space_char(s[s.len() - 1]));
        assert(s.subrange(lo, hi) =~= s);
    }
}

pub fn trim_chars(v: &Vec<char>) -> (out: Vec<char>)
    ensures
        out@ == trim_seq(v@),
{
    let mut lo: usize = 0;
    while lo < v.len() && is_space(v[lo])
        invariant
            lo <= v.len(),
            forall|j: int| 0 <= j < lo ==> is_space_char(v@[j]),
        decreases v.len() - lo,
    {
        lo += 1;
    }
    let mut hi: usize = v.len();
    while hi > lo && is_space(v[hi - 1])
        invariant
            lo <= hi <= v.len(),
            forall|j: int| hi <= j < v@.len() ==> is_space_char(v@[j]),
        decreases hi,
    {
        hi -= 1;
    }
    proof {
        lemma_trim_range(v@, lo as int, hi as int);
    }
    copy_range(v, lo, hi)
}

/// The sequence with leading whitespace removed.
pub open spec fn trim_start_seq(s: Seq<char>) -> Seq<char>
    decreases s.len(),
{
    if s.len() > 0 && is_space_char(s[0]) {
        trim_start_seq(s.subrange(1, s.len() as int))
    } else {
        s
    }
}

pub fn trim_start_chars(v: &Vec<char>) -> (out: Vec<char>)
    ensures
        out@ == trim_start_seq(v@),
{
    proof {
        assert(v@.subrange(0, v@.len() as int) =~= v@);
    }
    let mut lo: usize = 0;
    while lo < v.len() && is_space(v[lo])
        invariant
            lo <= v.len(),
            trim_start_seq(v@) == trim_start_seq(v@.subrange(lo as int, v@.len() as int)),
        decreases v.len() - lo,
    {
        proof {
            let t = v@.subrange(lo as int, v@.len() as int);
            assert(t.subrange(1, t.len() as int) =~= v@.subrange(lo + 1 as int, v@.len() as int));
        }
        lo += 1;
    }
    let out = copy_range(v, lo, v.len());
    proof {
        if lo < v.len() {
            assert(!is_space_char(v@.subrange(lo as int, v@.len() as int)[0]));
        }
    }
    out
}

/// `s` split on every occurrence of `pat`, left to right.
pub open spec fn split_all(s: Seq<char>, pat: Seq<char>) -> Seq<Seq<char>>
    decreases s.len(),
{
    if pat.len() == 0 {
        seq![s]
    } else {
        match find_sub(s, pat) {
            None => seq![s],
            Some(ix) => if 0 <= ix && ix + pat.len() <= s.len() {
                seq![s.subrange(0, ix)] + split_all(
                    s.subrange(ix + pat.len(), s.len() as int),
                    pat,
                )
            } else {
                seq![s]
            },
        }
    }
}

fn split_all_into(s: &Vec<char>, pat: &Vec<char>, out: &mut Vec<Vec<char>>)
    requires
        pat@.len() > 0,
    ensures
        final(out).deep_view() == old(out).deep_view() + split_all(s@, pat@),
    decreases s.len(),
{
    match find_sub_from(s, pat, 0) {
        None => {
            let ghost pre = out.deep_view();
            out.push(dup_chars(s));
            proof {
                assert(out.deep_view() =~~= pre + split_all(s@, pat@));
            }
        },
        Some(ix) => {
            proof {
                lemma_find_from_occurs(s@, pat@, 0);
                assert(ix + pat.len() <= s.len());
            }
            let head = copy_range(s, 0, ix);
            let tail = copy_range(s, ix + pat.len(), s.len());
            let ghost pre = out.deep_view();
            out.push(head);
            proof {
                assert(out.deep_view() =~~= pre.push(s@.subrange(0, ix as int)));
            }
            split_all_into(&tail, pat, out);
            proof {
                assert(pre.push(s@.subrange(0, ix as int)) + split_all(tail@, pat@) =~~= pre
                    + split_all(s@, pat@));
            }
        },
    }
}

/// Split on every occurrence of `pat`.
pub fn split_all_x(s: &Vec<char>, pat: &str) -> (out: Vec<Vec<char>>)
    ensures
        pat@.len() > 0 ==> out.deep_view() == split_all(s@, pat@),
{
    let pv = str_to_chars(pat);
    if pv.len() == 0 {
        let mut out: Vec<Vec<char>> = Vec::new();
        out.push(dup_chars(s));
        return out;
    }
    let mut out: Vec<Vec<char>> = Vec::new();
    split_all_into(s, &pv, &mut out);
    proof {
        assert(Seq::<Seq<char>>::empty() + split_all(s@, pat@) =~~= split_all(s@, pat@));
    }
    out
}

// ---------------------------------------------------------------------------
// Tokenization
// ---------------------------------------------------------------------------

/// End of the word starting at `i`: the first position at or after `i`
/// holding whitespace, or the end of the sequence.
pub open spec fn end_word(s: Seq<char>, i: int) -> int
    decreases s.len() - i,
{
    if i < 0 || i >= s.len() || is_space_char(s[i]) {
        i
    } else {
        end_word(s, i + 1)
    }
}

pub proof fn lemma_end_word(s: Seq<char>, i: int)
    requires
        0 <= i <= s.len(),
    ensures
        i <= end_word(s, i) <= s.len(),
        i < s.len() && !is_space_char(s[i]) ==> end_word(s, i) > i,
    decreases s.len() - i,
{
    if i < s.len() && !is_space_char(s[i]) {
        lemma_end_word(s, i + 1);
    }
}

#[via_fn]
proof fn tokens_from_dec(s: Seq<char>, i: int) {
    if 0 <= i && i < s.len() && !is_space_char(s[i]) {
        lemma_end_word(s, i);
    }
}

/// The whitespace-separated tokens of `s`, starting at position `i`.
pub open spec fn tokens_from(s: Seq<char>, i: int) -> Seq<Seq<char>>
    decreases s.len() - i,
    via tokens_from_dec
{
    if i < 0 || i >= s.len() {
        Seq::empty()
    } else if is_space_char(s[i]) {
        tokens_from(s, i + 1)
    } else {
        seq![s.subrange(i, end_word(s, i))] + tokens_from(s, end_word(s, i))
    }
}

pub open spec fn tokens_of(s: Seq<char>) -> Seq<Seq<char>> {
    tokens_from(s, 0)
}

fn end_word_x(v: &Vec<char>, i: usize) -> (k: usize)
    requires
        i <= v.len(),
    ensures
        k as int == end_word(v@, i as int),
        i <= k <= v.len(),
{
    let mut k: usize = i;
    loop
        invariant
            i <= k <= v.len(),
            end_word(v@, i as int) == end_word(v@, k as int),
        decreases v.len() - k,
    {
        if k >= v.len() || is_space(v[k]) {
            proof {
                lemma_end_word(v@, i as int);
            }
            return k;
        }
        k += 1;
    }
}

fn tokenize_into(v: &Vec<char>, i: usize, out: &mut Vec<Vec<char>>)
    requires
        i <= v.len(),
    ensures
        final(out).deep_view() == old(out).deep_view() + tokens_from(v@, i as int),
    decreases v.len() - i,
{
    if i >= v.len() {
        proof {
            assert(out.deep_view() =~~= old(out).deep_view() + tokens_from(v@, i as int));
        }
        return ;
    }
    if is_space(v[i]) {
        tokenize_into(v, i + 1, out);
        return ;
    }
    let k = end_word_x(v, i);
    proof {
        lemma_end_word(v@, i as int);
    }
    let word = copy_range(v, i, k);
    let ghost mid = out.deep_view();
    out.push(word);
    proof {
        assert(out.deep_view() =~~= mid.push(v@.subrange(i as int, k as int)));
    }
    tokenize_into(v, k, out);
    proof {
        assert(mid.push(v@.subrange(i as int, k as int)) + tokens_from(v@, k as int) =~~= mid + (
        seq![v@.subrange(i as int, end_word(v@, i as int))] + tokens_from(
            v@,
            end_word(v@, i as int),
        )));
    }
}

/// Split into whitespace-separated tokens.
pub fn tokenize(v: &Vec<char>) -> (out: Vec<Vec<char>>)
    ensures
        out.deep_view() == tokens_of(v@),
{
    let mut out: Vec<Vec<char>> = Vec::new();
    tokenize_into(v, 0, &mut out);
    proof {
        assert(Seq::<Seq<char>>::empty() + tokens_of(v@) =~~= tokens_of(v@));
    }
    out
}

// ---------------------------------------------------------------------------
// Conjunction filtering
// ---------------------------------------------------------------------------

/// The tokens from position `i` with "and" and "a" dropped.
pub open spec fn drop_conj(toks: Seq<Seq<char>>, i: int) -> Seq<Seq<char>>
    decreases toks.len() - i,
{
    if i < 0 || i >= toks.len() {
        Seq::empty()
    } else if toks[i] == "and"@ || toks[i] == "a"@ {
        drop_conj(toks, i + 1)
    } else {
        seq![toks[i]] + drop_conj(toks, i + 1)
    }
}

fn drop_conj_into(toks: &Vec<Vec<char>>, i: usize, out: &mut Vec<Vec<char>>)
    requires
        i <= toks.len(),
    ensures
        final(out).deep_view() == old(out).deep_view() + drop_conj(toks.deep_view(), i as int),
    decreases toks.len() - i,
{
    if i >= toks.len() {
        proof {
            assert(out.deep_view() =~~= old(out).deep_view() + drop_conj(
                toks.deep_view(),
                i as int,
            ));
        }
        return ;
    }
    proof {
        assert(toks.deep_view()[i as int] == toks@[i as int]@);
    }
    if eq_str(&toks[i], "and") || eq_str(&toks[i], "a") {
        drop_conj_into(toks, i + 1, out);
        return ;
    }
    let word = copy_range(&toks[i], 0, toks[i].len());
    proof {
        assert(word@ =~= toks.deep_view()[i as int]);
    }
    let ghost mid = out.deep_view();
    out.push(word);
    proof {
        assert(out.deep_view() =~~= mid.push(toks.deep_view()[i as int]));
    }
    drop_conj_into(toks, i + 1, out);
    proof {
        assert(mid.push(toks.deep_view()[i as int]) + drop_conj(toks.deep_view(), i + 1 as int)
            =~~= mid + (seq![toks.deep_view()[i as int]] + drop_conj(
            toks.deep_view(),
            i + 1 as int,
        )));
    }
}

/// The token list with "and" and "a" dropped.
pub fn drop_conj_x(toks: &Vec<Vec<char>>) -> (out: Vec<Vec<char>>)
    ensures
        out.deep_view() == drop_conj(toks.deep_view(), 0),
{
    let mut out: Vec<Vec<char>> = Vec::new();
    drop_conj_into(toks, 0, &mut out);
    proof {
        assert(Seq::<Seq<char>>::empty() + drop_conj(toks.deep_view(), 0) =~~= drop_conj(
            toks.deep_view(),
            0,
        ));
    }
    out
}

// ---------------------------------------------------------------------------
// Joining
// ---------------------------------------------------------------------------

/// `toks[a..b]` joined with single spaces.
pub open spec fn join_range(toks: Seq<Seq<char>>, a: int, b: int) -> Seq<char>
    decreases b - a,
{
    if a < 0 || a >= b || b > toks.len() {
        Seq::empty()
    } else if a == b - 1 {
        toks[a]
    } else {
        toks[a] + seq![' '] + join_range(toks, a + 1, b)
    }
}

pub fn join_tokens(toks: &Vec<Vec<char>>, a: usize, b: usize) -> (out: Vec<char>)
    requires
        b <= toks.len(),
    ensures
        out@ == join_range(toks.deep_view(), a as int, b as int),
    decreases b - a,
{
    let mut out: Vec<char> = Vec::new();
    if a >= b {
        proof {
            assert(out@ =~= join_range(toks.deep_view(), a as int, b as int));
        }
        return out;
    }
    push_all(&mut out, &toks[a]);
    proof {
        assert(toks.deep_view()[a as int] == toks@[a as int]@);
        assert(out@ =~= toks.deep_view()[a as int]);
    }
    if a == b - 1 {
        return out;
    }
    out.push(' ');
    let rest = join_tokens(toks, a + 1, b);
    push_all(&mut out, &rest);
    proof {
        assert(out@ =~= toks.deep_view()[a as int] + seq![' '] + join_range(
            toks.deep_view(),
            a + 1 as int,
            b as int,
        ));
    }
    out
}

// ---------------------------------------------------------------------------
// Decimal formatting
// ---------------------------------------------------------------------------

pub open spec fn digit_char(d: int) -> char {
    ((48 + d) as u8) as char
}

/// The decimal digits of `n`, most significant first.
pub open spec fn dec_rep(n: int) -> Seq<char>
    decreases n,
{
    if n < 10 {
        seq![digit_char(if n < 0 { 0 } else { n })]
    } else {
        dec_rep(n / 10).push(digit_char(n % 10))
    }
}

pub fn dec_u128(n: u128) -> (out: Vec<char>)
    ensures
        out@ == dec_rep(n as int),
    decreases n,
{
    if n < 10 {
        let d: u8 = 48 + (n as u8);
        let mut out: Vec<char> = Vec::new();
        out.push(d as char);
        proof {
            assert(out@ =~= seq![digit_char(n as int)]);
        }
        out
    } else {
        let mut out = dec_u128(n / 10);
        let d: u8 = 48 + ((n % 10) as u8);
        out.push(d as char);
        out
    }
}

/// Two-digit, zero-padded decimal form used for minutes and cents.
pub open spec fn dec2_rep(n: int) -> Seq<char> {
    if n < 10 {
        seq![digit_char(0)] + dec_rep(n)
    } else {
        dec_rep(n)
    }
}

pub fn dec2_u128(n: u128) -> (out: Vec<char>)
    ensures
        out@ == dec2_rep(n as int),
{
    if n < 10 {
        let mut out: Vec<char> = Vec::new();
        out.push('0');
        let rest = dec_u128(n);
        push_all(&mut out, &rest);
        proof {
            assert(out@ =~= seq![digit_char(0)] + dec_rep(n as int));
        }
        out
    } else {
        dec_u128(n)
    }
}

} // verus!
