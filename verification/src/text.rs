//! Byte-string scanning and formatting utilities.
//!
//! All markup handling in this crate works on raw UTF-8 bytes. Every function
//! here is verified against a recursive specification of its result.

use vstd::prelude::*;

verus! {

/// Upper bound used when parsing decimal numbers out of markup: digit folds
/// saturate here instead of overflowing.
pub const NUM_CAP: u64 = 1_000_000_000_000;

/// True when `needle` occurs in `hay` starting at position `at`.
pub open spec fn is_match_at(hay: Seq<u8>, needle: Seq<u8>, at: int) -> bool {
    &&& 0 <= at
    &&& at + needle.len() <= hay.len()
    &&& hay.subrange(at, at + needle.len() as int) == needle
}

/// Position of the first occurrence of `needle` in `hay` at or after `from`,
/// `None` when there is none (or when `needle` is empty).
pub open spec fn spec_find(hay: Seq<u8>, needle: Seq<u8>, from: int) -> Option<int>
    decreases hay.len() - from,
{
    if needle.len() == 0 || from < 0 || from + needle.len() > hay.len() {
        None
    } else if hay.subrange(from, from + needle.len() as int) == needle {
        Some(from)
    } else {
        spec_find(hay, needle, from + 1)
    }
}

/// A found position lies in range and `needle` is not empty.
pub proof fn lemma_spec_find_bounds(hay: Seq<u8>, needle: Seq<u8>, from: int)
    ensures
        match spec_find(hay, needle, from) {
            Some(i) => from <= i && 0 <= i && i + needle.len() <= hay.len() && needle.len() > 0,
            None => true,
        },
    decreases hay.len() - from,
{
    if needle.len() == 0 || from < 0 || from + needle.len() > hay.len() {
    } else if hay.subrange(from, from + needle.len() as int) == needle {
    } else {
        lemma_spec_find_bounds(hay, needle, from + 1);
    }
}

/// `spec_find` returns the first match: a match where found, and no earlier one.
pub proof fn lemma_spec_find(hay: Seq<u8>, needle: Seq<u8>, from: int)
    requires
        needle.len() > 0,
        0 <= from,
    ensures
        match spec_find(hay, needle, from) {
            Some(i) => {
                &&& from <= i
                &&& is_match_at(hay, needle, i)
                &&& forall|j: int| from <= j < i ==> !is_match_at(hay, needle, j)
            },
            None => forall|j: int| from <= j ==> !is_match_at(hay, needle, j),
        },
    decreases hay.len() - from,
{
    if from + needle.len() > hay.len() {
    } else if hay.subrange(from, from + needle.len() as int) == needle {
    } else {
        lemma_spec_find(hay, needle, from + 1);
    }
}

/// Finds the first occurrence of `needle` in `hay` at or after `from`.
pub fn find_from(hay: &[u8], needle: &[u8], from: usize) -> (r: Option<usize>)
    requires
        needle.len() > 0,
    ensures
        match r {
            Some(i) => {
                &&& spec_find(hay@, needle@, from as int) == Some(i as int)
                &&& from <= i
                &&& is_match_at(hay@, needle@, i as int)
            },
            None => spec_find(hay@, needle@, from as int) is None,
        },
{
    if hay.len() < needle.len() || from > hay.len() - needle.len() {
        proof {
            lemma_spec_find(hay@, needle@, from as int);
            match spec_find(hay@, needle@, from as int) {
                Some(k) => {
                    assert(is_match_at(hay@, needle@, k));
                    assert(false);
                },
                None => {},
            }
        }
        return None;
    }
    let last: usize = hay.len() - needle.len();
    let mut i: usize = from;
    while i <= last
        invariant
            needle.len() > 0,
            last == hay.len() - needle.len(),
            needle.len() <= hay.len(),
            from <= i,
            i <= last + 1,
            forall|j: int| from <= j < i ==> !is_match_at(hay@, needle@, j),
        decreases last + 1 - i,
    {
        let mut k: usize = 0;
        while k < needle.len() && hay[i + k] == needle[k]
            invariant
                i <= last,
                last == hay.len() - needle.len(),
                needle.len() <= hay.len(),
                k <= needle.len(),
                forall|m: int| 0 <= m < k ==> hay@[i + m] == needle@[m],
            decreases needle.len() - k,
        {
            k += 1;
        }
        if k == needle.len() {
            assert(hay@.subrange(i as int, i + needle.len() as int) =~= needle@);
            proof {
                lemma_spec_find(hay@, needle@, from as int);
                match spec_find(hay@, needle@, from as int) {
                    Some(m) => {
                        if m < i {
                            assert(is_match_at(hay@, needle@, m));
                            assert(false);
                        }
                        if m > i {
                            assert(!is_match_at(hay@, needle@, i as int));
                            assert(false);
                        }
                    },
                    None => {
                        assert(!is_match_at(hay@, needle@, i as int));
                        assert(false);
                    },
                }
            }
            return Some(i);
        }
        assert(!is_match_at(hay@, needle@, i as int)) by {
            if is_match_at(hay@, needle@, i as int) {
                assert(hay@.subrange(i as int, i + needle.len() as int)[k as int] == hay@[
                    i + k
                ]);
            }
        }
        i += 1;
    }
    proof {
        lemma_spec_find(hay@, needle@, from as int);
        match spec_find(hay@, needle@, from as int) {
            Some(m) => {
                assert(is_match_at(hay@, needle@, m));
                assert(false);
            },
            None => {},
        }
    }
    None
}

/// True when `needle` occurs anywhere in `hay`.
pub fn contains(hay: &[u8], needle: &[u8]) -> (r: bool)
    requires
        needle.len() > 0,
    ensures
        r == (spec_find(hay@, needle@, 0) is Some),
{
    find_from(hay, needle, 0).is_some()
}

/// True when the two byte strings are equal.
pub fn eq_bytes(a: &[u8], b: &[u8]) -> (r: bool)
    ensures
        r == (a@ == b@),
{
    if a.len() != b.len() {
        return false;
    }
    let mut k: usize = 0;
    while k < a.len() && a[k] == b[k]
        invariant
            a.len() == b.len(),
            k <= a.len(),
            forall|m: int| 0 <= m < k ==> a@[m] == b@[m],
        decreases a.len() - k,
    {
        k += 1;
    }
    if k == a.len() {
        assert(a@ =~= b@);
        true
    } else {
        assert(a@[k as int] != b@[k as int]);
        false
    }
}

/// True when `s` starts with `prefix`.
pub fn starts_with(s: &[u8], prefix: &[u8]) -> (r: bool)
    ensures
        r == (s@.len() >= prefix@.len() && s@.subrange(0, prefix@.len() as int) == prefix@),
{
    if s.len() < prefix.len() {
        return false;
    }
    let mut k: usize = 0;
    while k < prefix.len() && s[k] == prefix[k]
        invariant
            prefix.len() <= s.len(),
            k <= prefix.len(),
            forall|m: int| 0 <= m < k ==> s@[m] == prefix@[m],
        decreases prefix.len() - k,
    {
        k += 1;
    }
    if k == prefix.len() {
        assert(s@.subrange(0, prefix@.len() as int) =~= prefix@);
        true
    } else {
        assert(s@.subrange(0, prefix@.len() as int)[k as int] == s@[k as int]);
        false
    }
}

/// True when `s` ends with `suffix`.
pub fn ends_with(s: &[u8], suffix: &[u8]) -> (r: bool)
    ensures
        r == (s@.len() >= suffix@.len() && s@.subrange(
            s@.len() - suffix@.len(),
            s@.len() as int,
        ) == suffix@),
{
    if s.len() < suffix.len() {
        return false;
    }
    let base: usize = s.len() - suffix.len();
    let mut k: usize = 0;
    while k < suffix.len() && s[base + k] == suffix[k]
        invariant
            base == s.len() - suffix.len(),
            suffix.len() <= s.len(),
            k <= suffix.len(),
            forall|m: int| 0 <= m < k ==> s@[base + m] == suffix@[m],
        decreases suffix.len() - k,
    {
        k += 1;
    }
    if k == suffix.len() {
        assert(s@.subrange(s@.len() - suffix@.len(), s@.len() as int) =~= suffix@);
        true
    } else {
        assert(s@.subrange(s@.len() - suffix@.len(), s@.len() as int)[k as int] == s@[
            base + k
        ]);
        false
    }
}

/// Copies `s[lo..hi]` into a fresh vector.
pub fn sub_vec(s: &[u8], lo: usize, hi: usize) -> (r: Vec<u8>)
    requires
        lo <= hi <= s.len(),
    ensures
        r@ == s@.subrange(lo as int, hi as int),
{
    let mut out: Vec<u8> = Vec::new();
    let mut k: usize = lo;
    while k < hi
        invariant
            lo <= k <= hi <= s.len(),
            out@ == s@.subrange(lo as int, k as int),
        decreases hi - k,
    {
        out.push(s[k]);
        assert(out@ =~= s@.subrange(lo as int, k + 1 as int));
        k += 1;
    }
    out
}

/// Appends `s[lo..hi]` to `out`.
pub fn push_range(out: &mut Vec<u8>, s: &[u8], lo: usize, hi: usize)
    requires
        lo <= hi <= s.len(),
    ensures
        final(out)@ == old(out)@ + s@.subrange(lo as int, hi as int),
{
    let mut k: usize = lo;
    while k < hi
        invariant
            lo <= k <= hi <= s.len(),
            out@ == old(out)@ + s@.subrange(lo as int, k as int),
        decreases hi - k,
    {
        out.push(s[k]);
        assert(out@ =~= old(out)@ + s@.subrange(lo as int, k + 1 as int));
        k += 1;
    }
    assert(out@ =~= old(out)@ + s@.subrange(lo as int, hi as int));
}

/// Tests whether `pat` occurs in `s` at position `i`.
pub fn match_at(s: &[u8], pat: &[u8], i: usize) -> (r: bool)
    requires
        i <= s.len(),
    ensures
        r == is_match_at(s@, pat@, i as int),
{
    if pat.len() > s.len() - i {
        return false;
    }
    let mut k: usize = 0;
    while k < pat.len() && s[i + k] == pat[k]
        invariant
            i + pat.len() <= s.len(),
            k <= pat.len(),
            forall|m: int| 0 <= m < k ==> s@[i + m] == pat@[m],
        decreases pat.len() - k,
    {
        k += 1;
    }
    if k == pat.len() {
        assert(s@.subrange(i as int, i + pat@.len() as int) =~= pat@);
        true
    } else {
        assert(!is_match_at(s@, pat@, i as int)) by {
            if is_match_at(s@, pat@, i as int) {
                assert(s@.subrange(i as int, i + pat@.len() as int)[k as int] == s@[i + k]);
            }
        }
        false
    }
}

/// Appends all of `s` to `out`.
pub fn push_all(out: &mut Vec<u8>, s: &[u8])
    ensures
        final(out)@ == old(out)@ + s@,
{
    push_range(out, s, 0, s.len());
    assert(s@.subrange(0, s@.len() as int) =~= s@);
}

/// Copies a byte slice into a fresh vector.
pub fn to_vec(s: &[u8]) -> (r: Vec<u8>)
    ensures
        r@ == s@,
{
    let r = sub_vec(s, 0, s.len());
    assert(s@.subrange(0, s@.len() as int) =~= s@);
    r
}

/// The remainder of `s` from `from` on, with every occurrence of `pat`
/// replaced by `sub`, scanning left to right without overlap.
pub open spec fn spec_replace_from(s: Seq<u8>, pat: Seq<u8>, sub: Seq<u8>, from: int) -> Seq<u8>
    decreases s.len() - from,
    via spec_replace_from_dec
{
    match spec_find(s, pat, from) {
        None => if 0 <= from <= s.len() {
            s.subrange(from, s.len() as int)
        } else {
            Seq::empty()
        },
        Some(i) => s.subrange(from, i) + sub + spec_replace_from(s, pat, sub, i + pat.len()),
    }
}

#[via_fn]
proof fn spec_replace_from_dec(s: Seq<u8>, pat: Seq<u8>, sub: Seq<u8>, from: int) {
    lemma_spec_find_bounds(s, pat, from);
}

/// All occurrences of `pat` in `s`, replaced by `sub`.
pub open spec fn spec_replace(s: Seq<u8>, pat: Seq<u8>, sub: Seq<u8>) -> Seq<u8> {
    spec_replace_from(s, pat, sub, 0)
}

/// Replaces every occurrence of `pat` in `s` by `sub`, left to right.
pub fn replace_all(s: &[u8], pat: &[u8], sub: &[u8]) -> (r: Vec<u8>)
    requires
        pat.len() > 0,
    ensures
        r@ == spec_replace(s@, pat@, sub@),
{
    let mut out: Vec<u8> = Vec::new();
    let mut p: usize = 0;
    while p < s.len()
        invariant
            pat.len() > 0,
            p <= s.len(),
            out@ + spec_replace_from(s@, pat@, sub@, p as int) == spec_replace(s@, pat@, sub@),
        decreases s.len() - p,
    {
        match find_from(s, pat, p) {
            Some(i) => {
                let ghost before = out@;
                push_range(&mut out, s, p, i);
                let mut k: usize = 0;
                while k < sub.len()
                    invariant
                        k <= sub.len(),
                        out@ == before + s@.subrange(p as int, i as int) + sub@.subrange(
                            0,
                            k as int,
                        ),
                    decreases sub.len() - k,
                {
                    out.push(sub[k]);
                    assert(out@ =~= before + s@.subrange(p as int, i as int) + sub@.subrange(
                        0,
                        k + 1 as int,
                    ));
                    k += 1;
                }
                assert(sub@.subrange(0, sub@.len() as int) =~= sub@);
                proof {
                    lemma_spec_find_bounds(s@, pat@, p as int);
                }
                let next: usize = i + pat.len();
                assert(out@ + spec_replace_from(s@, pat@, sub@, next as int) =~= before
                    + spec_replace_from(s@, pat@, sub@, p as int));
                p = next;
            },
            None => {
                let ghost before = out@;
                push_range(&mut out, s, p, s.len());
                assert(out@ =~= before + spec_replace_from(s@, pat@, sub@, p as int));
                p = s.len();
            },
        }
    }
    assert(spec_replace_from(s@, pat@, sub@, p as int) =~= Seq::<u8>::empty());
    assert(out@ =~= out@ + Seq::<u8>::empty());
    out
}

/// ASCII whitespace, as the markup cleaners treat it.
pub open spec fn is_ws_byte(b: u8) -> bool {
    b == 32 || b == 9 || b == 10 || b == 11 || b == 12 || b == 13
}

/// Tests a byte for ASCII whitespace.
pub fn is_ws(b: u8) -> (r: bool)
    ensures
        r == is_ws_byte(b),
{
    b == 32 || b == 9 || b == 10 || b == 11 || b == 12 || b == 13
}

/// `s` from `i` on with whitespace runs collapsed to single spaces and
/// outer whitespace dropped. `started` records whether a word was already
/// emitted; `pending` records whether whitespace was seen since.
pub open spec fn spec_collapse_from(s: Seq<u8>, i: int, started: bool, pending: bool) -> Seq<u8>
    decreases s.len() - i,
{
    if i < 0 || i >= s.len() {
        Seq::empty()
    } else if is_ws_byte(s[i]) {
        spec_collapse_from(s, i + 1, started, true)
    } else {
        (if started && pending {
            seq![32u8]
        } else {
            Seq::<u8>::empty()
        }) + seq![s[i]] + spec_collapse_from(s, i + 1, true, false)
    }
}

/// `s` with whitespace runs collapsed to single spaces and both ends trimmed.
pub open spec fn spec_collapse_ws(s: Seq<u8>) -> Seq<u8> {
    spec_collapse_from(s, 0, false, false)
}

/// Collapses whitespace runs to single spaces and trims both ends.
pub fn collapse_ws(s: &[u8]) -> (r: Vec<u8>)
    ensures
        r@ == spec_collapse_ws(s@),
{
    let mut out: Vec<u8> = Vec::new();
    let mut started: bool = false;
    let mut pending: bool = false;
    let mut i: usize = 0;
    while i < s.len()
        invariant
            i <= s.len(),
            out@ + spec_collapse_from(s@, i as int, started, pending) == spec_collapse_ws(s@),
        decreases s.len() - i,
    {
        let b = s[i];
        if is_ws(b) {
            pending = true;
        } else {
            if started && pending {
                out.push(32);
            }
            out.push(b);
            started = true;
            pending = false;
        }
        i += 1;
    }
    assert(out@ =~= out@ + Seq::<u8>::empty());
    out
}

/// Index of the first non-whitespace byte at or after `i`.
pub open spec fn spec_ltrim_idx(s: Seq<u8>, i: int) -> int
    decreases s.len() - i,
{
    if 0 <= i < s.len() && is_ws_byte(s[i]) {
        spec_ltrim_idx(s, i + 1)
    } else {
        i
    }
}

/// Index just past the last non-whitespace byte at or before `i - 1`.
pub open spec fn spec_rtrim_idx(s: Seq<u8>, i: int) -> int
    decreases i,
{
    if 0 < i <= s.len() && is_ws_byte(s[i - 1]) {
        spec_rtrim_idx(s, i - 1)
    } else {
        i
    }
}

/// `s` with leading and trailing whitespace removed.
pub open spec fn spec_trim(s: Seq<u8>) -> Seq<u8> {
    if spec_ltrim_idx(s, 0) == s.len() {
        Seq::empty()
    } else {
        s.subrange(spec_ltrim_idx(s, 0), spec_rtrim_idx(s, s.len() as int))
    }
}

/// Removes leading and trailing whitespace.
pub fn trim(s: &[u8]) -> (r: Vec<u8>)
    ensures
        r@ == spec_trim(s@),
{
    let mut a: usize = 0;
    while a < s.len() && is_ws(s[a])
        invariant
            a <= s.len(),
            spec_ltrim_idx(s@, a as int) == spec_ltrim_idx(s@, 0),
        decreases s.len() - a,
    {
        a += 1;
    }
    if a == s.len() {
        return Vec::new();
    }
    let mut b: usize = s.len();
    while b > 0 && is_ws(s[b - 1])
        invariant
            a < s.len(),
            !is_ws_byte(s@[a as int]),
            a < b <= s.len(),
            spec_rtrim_idx(s@, b as int) == spec_rtrim_idx(s@, s@.len() as int),
        decreases b,
    {
        assert(b - 1 > a) by {
            if b - 1 == a {
                assert(is_ws_byte(s@[a as int]));
            }
        }
        b -= 1;
    }
    sub_vec(s, a, b)
}

/// Scans past a run of whitespace starting at `i`.
pub fn ws_end(s: &[u8], i: usize) -> (r: usize)
    requires
        i <= s.len(),
    ensures
        r == spec_ltrim_idx(s@, i as int),
        i <= r <= s.len(),
{
    let mut k: usize = i;
    while k < s.len() && is_ws(s[k])
        invariant
            i <= k <= s.len(),
            spec_ltrim_idx(s@, k as int) == spec_ltrim_idx(s@, i as int),
        decreases s.len() - k,
    {
        k += 1;
    }
    k
}

/// A digit run ends at the end of the string or at a non-digit.
pub proof fn lemma_digits_end_stop(s: Seq<u8>, i: int)
    requires
        0 <= i <= s.len(),
    ensures
        spec_digits_end(s, i) < s.len() ==> !is_digit_byte(s[spec_digits_end(s, i)]),
    decreases s.len() - i,
{
    if 0 <= i < s.len() && is_digit_byte(s[i]) {
        lemma_digits_end_stop(s, i + 1);
    }
}

/// Everything between a digit-run start and its end is a digit.
pub proof fn lemma_digits_end_digits(s: Seq<u8>, i: int)
    requires
        0 <= i <= s.len(),
    ensures
        forall|k: int| i <= k < spec_digits_end(s, i) ==> is_digit_byte(s[k]),
    decreases s.len() - i,
{
    if 0 <= i < s.len() && is_digit_byte(s[i]) {
        lemma_digits_end_digits(s, i + 1);
    }
}

/// The remainder of `s` from `i` on with markup tags removed: a `<` followed
/// by at least one other byte and then `>` disappears together with what it
/// encloses; a `<` with no closing `>` ahead ends the scan with the rest
/// kept.
pub open spec fn spec_strip_from(s: Seq<u8>, i: int) -> Seq<u8>
    decreases s.len() - i,
    via spec_strip_from_dec
{
    if i < 0 || i >= s.len() {
        Seq::empty()
    } else if s[i] == 60 {
        match spec_find(s, seq![62u8], i + 1) {
            None => s.subrange(i, s.len() as int),
            Some(j) => if j > i + 1 {
                spec_strip_from(s, j + 1)
            } else {
                seq![60u8] + spec_strip_from(s, i + 1)
            },
        }
    } else {
        seq![s[i]] + spec_strip_from(s, i + 1)
    }
}

#[via_fn]
proof fn spec_strip_from_dec(s: Seq<u8>, i: int) {
    lemma_spec_find_bounds(s, seq![62u8], i + 1);
}

/// `s` with markup tags removed.
pub open spec fn spec_strip_tags(s: Seq<u8>) -> Seq<u8> {
    spec_strip_from(s, 0)
}

/// Removes markup tags.
pub fn strip_tags(s: &[u8]) -> (r: Vec<u8>)
    ensures
        r@ == spec_strip_tags(s@),
{
    let gtpat = [62u8];
    let mut out: Vec<u8> = Vec::new();
    let mut i: usize = 0;
    while i < s.len()
        invariant
            i <= s.len(),
            gtpat@ == seq![62u8],
            out@ + spec_strip_from(s@, i as int) == spec_strip_tags(s@),
        decreases s.len() - i,
    {
        let b = s[i];
        if b == 60 {
            match find_from(s, &gtpat, i + 1) {
                None => {
                    let ghost before = out@;
                    push_range(&mut out, s, i, s.len());
                    assert(out@ =~= before + spec_strip_from(s@, i as int));
                    i = s.len();
                },
                Some(j) => {
                    if j > i + 1 {
                        i = j + 1;
                    } else {
                        out.push(60);
                        assert(out@ =~= (out@.subrange(0, out@.len() - 1)) + seq![60u8]);
                        i = i + 1;
                    }
                },
            }
        } else {
            out.push(b);
            assert(out@ =~= (out@.subrange(0, out@.len() - 1)) + seq![b]);
            i = i + 1;
        }
    }
    assert(out@ =~= out@ + Seq::<u8>::empty());
    out
}

/// Tags stripped, then whitespace collapsed: the cleaning applied to
/// descriptive fields pulled out of markup.
pub open spec fn spec_clean(s: Seq<u8>) -> Seq<u8> {
    spec_collapse_ws(spec_strip_tags(s))
}

/// Removes markup tags, collapses whitespace runs and trims the ends.
pub fn clean_markup(s: &[u8]) -> (r: Vec<u8>)
    ensures
        r@ == spec_clean(s@),
{
    let stripped = strip_tags(s);
    collapse_ws(stripped.as_slice())
}

/// The decimal digits of `n`, most significant first.
pub open spec fn spec_dec_digits(n: nat) -> Seq<u8>
    decreases n,
{
    if n < 10 {
        seq![(48 + n) as u8]
    } else {
        spec_dec_digits(n / 10).push((48 + n % 10) as u8)
    }
}

/// The decimal digits of `n`, left-padded with zeros to at least three places.
pub open spec fn spec_dec3(n: nat) -> Seq<u8> {
    if n < 10 {
        seq![48u8, 48u8] + spec_dec_digits(n)
    } else if n < 100 {
        seq![48u8] + spec_dec_digits(n)
    } else {
        spec_dec_digits(n)
    }
}

/// Appends the decimal digits of `n`.
pub fn push_dec(out: &mut Vec<u8>, n: u64)
    ensures
        final(out)@ == old(out)@ + spec_dec_digits(n as nat),
    decreases n,
{
    if n < 10 {
        out.push(48 + n as u8);
        assert(out@ =~= old(out)@ + spec_dec_digits(n as nat));
    } else {
        push_dec(out, n / 10);
        out.push(48 + (n % 10) as u8);
        assert(out@ =~= old(out)@ + spec_dec_digits(n as nat));
    }
}

/// Appends the decimal digits of `n`, zero-padded to at least three places.
pub fn push_dec3(out: &mut Vec<u8>, n: u64)
    ensures
        final(out)@ == old(out)@ + spec_dec3(n as nat),
{
    if n < 10 {
        out.push(48);
        out.push(48);
    } else if n < 100 {
        out.push(48);
    }
    push_dec(out, n);
    assert(out@ =~= old(out)@ + spec_dec3(n as nat));
}

/// The decimal rendering of a signed value: a minus sign for negatives,
/// then the digits.
pub open spec fn spec_dec_signed(v: int) -> Seq<u8> {
    if v < 0 {
        seq![45u8] + spec_dec_digits((-v) as nat)
    } else {
        spec_dec_digits(v as nat)
    }
}

/// Appends the decimal rendering of a signed value.
pub fn push_dec_signed(out: &mut Vec<u8>, v: i64)
    ensures
        final(out)@ == old(out)@ + spec_dec_signed(v as int),
{
    if v < 0 {
        out.push(45);
        let m: u64 = if v == i64::MIN {
            9223372036854775808u64
        } else {
            (-v) as u64
        };
        assert(m == -(v as int));
        push_dec(out, m);
        assert(out@ =~= old(out)@ + spec_dec_signed(v as int));
    } else {
        push_dec(out, v as u64);
    }
}

/// True when `b` is an ASCII decimal digit.
pub open spec fn is_digit_byte(b: u8) -> bool {
    48 <= b <= 57
}

/// Tests a byte for an ASCII decimal digit.
pub fn is_digit(b: u8) -> (r: bool)
    ensures
        r == is_digit_byte(b),
{
    48 <= b && b <= 57
}

/// True when every byte of `s` is an ASCII decimal digit.
pub open spec fn all_digits(s: Seq<u8>) -> bool {
    forall|k: int| 0 <= k < s.len() ==> is_digit_byte(s[k])
}

/// Index of the first non-digit byte at or after `i`.
pub open spec fn spec_digits_end(s: Seq<u8>, i: int) -> int
    decreases s.len() - i,
{
    if 0 <= i < s.len() && is_digit_byte(s[i]) {
        spec_digits_end(s, i + 1)
    } else {
        i
    }
}

/// Scans past a run of ASCII digits starting at `i`.
pub fn digits_end(s: &[u8], i: usize) -> (r: usize)
    requires
        i <= s.len(),
    ensures
        r == spec_digits_end(s@, i as int),
        i <= r <= s.len(),
{
    let mut k: usize = i;
    while k < s.len() && is_digit(s[k])
        invariant
            i <= k <= s.len(),
            spec_digits_end(s@, k as int) == spec_digits_end(s@, i as int),
        decreases s.len() - k,
    {
        k += 1;
    }
    proof {
        lemma_digits_end_bounds(s@, i as int);
    }
    k
}

/// The digit run found by `spec_digits_end` stays within bounds.
pub proof fn lemma_digits_end_bounds(s: Seq<u8>, i: int)
    requires
        0 <= i <= s.len(),
    ensures
        i <= spec_digits_end(s, i) <= s.len(),
    decreases s.len() - i,
{
    if 0 <= i < s.len() && is_digit_byte(s[i]) {
        lemma_digits_end_bounds(s, i + 1);
    }
}

/// Position of the last occurrence of byte `b` in `s`.
pub open spec fn spec_rlast(s: Seq<u8>, b: u8) -> Option<int>
    decreases s.len(),
{
    if s.len() == 0 {
        None
    } else if s[s.len() - 1] == b {
        Some(s.len() - 1)
    } else {
        spec_rlast(s.drop_last(), b)
    }
}

/// Finds the last occurrence of byte `b` in `s`.
pub fn rlast(s: &[u8], b: u8) -> (r: Option<usize>)
    ensures
        match r {
            Some(i) => spec_rlast(s@, b) == Some(i as int) && i < s.len(),
            None => spec_rlast(s@, b) is None,
        },
{
    assert(s@.subrange(0, s@.len() as int) =~= s@);
    let mut k: usize = s.len();
    while k > 0
        invariant
            k <= s.len(),
            spec_rlast(s@.subrange(0, k as int), b) == spec_rlast(s@, b),
        decreases k,
    {
        if s[k - 1] == b {
            assert(s@.subrange(0, k as int)[k - 1] == s@[k - 1]);
            return Some(k - 1);
        }
        assert(s@.subrange(0, k as int).drop_last() =~= s@.subrange(0, k - 1 as int));
        k -= 1;
    }
    assert(s@.subrange(0, 0) =~= Seq::<u8>::empty());
    None
}

/// The value in thousandths of a decimal token: a digit run, optionally
/// with one point and digit runs on either side of it (at least one digit in
/// all); anything else is not a number.
pub open spec fn spec_parse_decimal(t: Seq<u8>) -> Option<int> {
    if t.len() == 0 {
        None
    } else {
        match spec_find(t, seq![46u8], 0) {
            None => if all_digits(t) {
                Some(spec_dec_val(t) * 1000)
            } else {
                None
            },
            Some(dp) => {
                let pre = t.subrange(0, dp);
                let post = t.subrange(dp + 1, t.len() as int);
                if (pre.len() > 0 || post.len() > 0) && all_digits(pre) && all_digits(post)
                    && spec_find(t, seq![46u8], dp + 1) is None {
                    Some(spec_dec_val(pre) * 1000 + spec_frac3(post))
                } else {
                    None
                }
            },
        }
    }
}

/// Parses a decimal token into thousandths; `None` when the token is not a
/// plain decimal number.
pub fn parse_decimal(t: &[u8]) -> (r: Option<u64>)
    ensures
        match r {
            Some(m) => spec_parse_decimal(t@) == Some(m as int) && m <= MILLI_CAP,
            None => spec_parse_decimal(t@) is None,
        },
{
    if t.len() == 0 {
        return None;
    }
    let dot = [46u8];
    assert(dot@ =~= seq![46u8]);
    match find_from(t, &dot, 0) {
        None => {
            let de = digits_end(t, 0);
            if de != t.len() {
                proof {
                    lemma_digits_end_stop(t@, 0);
                }
                assert(!is_digit_byte(t@[de as int]));
                return None;
            }
            proof {
                lemma_digits_end_digits(t@, 0);
                assert(t@.subrange(0, t@.len() as int) =~= t@);
            }
            let v = dec_val(t);
            Some(v * 1000)
        },
        Some(dp) => {
            let de = digits_end(t, 0);
            if de != dp {
                assert(!(all_digits(t@.subrange(0, dp as int)))) by {
                    if de < dp {
                        lemma_digits_end_stop(t@, 0);
                        assert(t@.subrange(0, dp as int)[de as int] == t@[de as int]);
                        assert(!is_digit_byte(t@[de as int]));
                    } else {
                        assert(is_digit_byte(t@[dp as int])) by {
                            lemma_digits_end_digits(t@, 0);
                        }
                        assert(t@[dp as int] == 46);
                    }
                }
                return None;
            }
            if dp + 1 > t.len() {
                return None;
            }
            let fe = digits_end(t, dp + 1);
            if fe != t.len() {
                assert(!(all_digits(t@.subrange(dp + 1, t@.len() as int))
                    && spec_find(t@, seq![46u8], dp + 1 as int) is None)) by {
                    lemma_digits_end_digits(t@, dp + 1 as int);
                    lemma_digits_end_stop(t@, dp + 1 as int);
                    assert(!is_digit_byte(t@[fe as int]));
                    if t@[fe as int] == 46 {
                        assert(is_match_at(t@, seq![46u8], fe as int)) by {
                            assert(t@.subrange(fe as int, fe + 1 as int) =~= seq![46u8]);
                        }
                        lemma_spec_find(t@, seq![46u8], dp + 1 as int);
                    } else {
                        assert(t@.subrange(dp + 1, t@.len() as int)[fe - (dp + 1)] == t@[
                            fe as int
                        ]);
                    }
                }
                return None;
            }
            if dp == 0 && fe == dp + 1 {
                return None;
            }
            proof {
                lemma_digits_end_digits(t@, 0);
                lemma_digits_end_digits(t@, dp + 1 as int);
                assert(all_digits(t@.subrange(0, dp as int)));
                assert(all_digits(t@.subrange(dp + 1, t@.len() as int)));
                lemma_spec_find_bounds(t@, seq![46u8], dp + 1 as int);
                match spec_find(t@, seq![46u8], dp + 1 as int) {
                    Some(k) => {
                        lemma_spec_find(t@, seq![46u8], dp + 1 as int);
                        assert(is_match_at(t@, seq![46u8], k));
                        assert(t@.subrange(k, k + 1)[0] == t@[k]);
                        assert(t@[k] == 46);
                        assert(k < fe);
                        assert(is_digit_byte(t@[k]));
                        assert(false);
                    },
                    None => {},
                }
            }
            let whole = sub_vec(t, 0, dp);
            let frac = sub_vec(t, dp + 1, t.len());
            let m = milli_of(whole.as_slice(), frac.as_slice());
            Some(m)
        },
    }
}

/// One saturating decimal fold step.
pub open spec fn spec_sat_step(acc: int, d: int) -> int {
    if acc * 10 + d > NUM_CAP {
        NUM_CAP as int
    } else {
        acc * 10 + d
    }
}

/// The value of the digit run `s[i..]` folded onto `acc`, saturating at
/// `NUM_CAP`.
pub open spec fn spec_digits_val(s: Seq<u8>, i: int, acc: int) -> int
    decreases s.len() - i,
{
    if 0 <= i < s.len() {
        spec_digits_val(s, i + 1, spec_sat_step(acc, s[i] - 48))
    } else {
        acc
    }
}

/// The saturating decimal value of a whole digit string.
pub open spec fn spec_dec_val(s: Seq<u8>) -> int {
    spec_digits_val(s, 0, 0)
}

/// The fold keeps its accumulator within `[0, NUM_CAP]`.
pub proof fn lemma_digits_val_range(s: Seq<u8>, i: int, acc: int)
    requires
        0 <= acc <= NUM_CAP,
        all_digits(s),
    ensures
        0 <= spec_digits_val(s, i, acc) <= NUM_CAP,
    decreases s.len() - i,
{
    if 0 <= i < s.len() {
        lemma_digits_val_range(s, i + 1, spec_sat_step(acc, s[i] - 48));
    }
}

/// Parses a digit string as a decimal value, saturating at `NUM_CAP`.
pub fn dec_val(s: &[u8]) -> (r: u64)
    requires
        all_digits(s@),
    ensures
        r == spec_dec_val(s@),
        r <= NUM_CAP,
{
    let mut acc: u64 = 0;
    let mut i: usize = 0;
    while i < s.len()
        invariant
            i <= s.len(),
            all_digits(s@),
            acc <= NUM_CAP,
            spec_digits_val(s@, i as int, acc as int) == spec_dec_val(s@),
        decreases s.len() - i,
    {
        let d = (s[i] - 48) as u64;
        let t = acc * 10 + d;
        if t > NUM_CAP {
            acc = NUM_CAP;
        } else {
            acc = t;
        }
        i += 1;
    }
    acc
}

/// The value in thousandths of a fractional digit string, keeping its first
/// three places.
pub open spec fn spec_frac3(s: Seq<u8>) -> int {
    (if s.len() > 0 {
        (s[0] - 48) * 100
    } else {
        0
    }) + (if s.len() > 1 {
        (s[1] - 48) * 10
    } else {
        0
    }) + (if s.len() > 2 {
        (s[2] - 48) as int
    } else {
        0
    })
}

/// Reads the first three places of a fractional digit string as thousandths.
pub fn frac3(s: &[u8]) -> (r: u64)
    requires
        all_digits(s@),
    ensures
        r == spec_frac3(s@),
        r <= 999,
{
    let mut r: u64 = 0;
    if s.len() > 0 {
        r = r + ((s[0] - 48) as u64) * 100;
    }
    if s.len() > 1 {
        r = r + ((s[1] - 48) as u64) * 10;
    }
    if s.len() > 2 {
        r = r + (s[2] - 48) as u64;
    }
    r
}

/// A decimal value in thousandths, assembled from a whole-part digit string
/// and a fractional-part digit string.
pub open spec fn spec_milli(whole: Seq<u8>, frac: Seq<u8>) -> int {
    spec_dec_val(whole) * 1000 + spec_frac3(frac)
}

/// Largest chapter-number value in thousandths that parsing can produce.
pub const MILLI_CAP: u64 = 1_000_000_000_000_999;

/// Combines whole and fractional digit strings into thousandths.
pub fn milli_of(whole: &[u8], frac: &[u8]) -> (r: u64)
    requires
        all_digits(whole@),
        all_digits(frac@),
    ensures
        r == spec_milli(whole@, frac@),
        r <= MILLI_CAP,
{
    proof {
        lemma_digits_val_range(whole@, 0, 0);
    }
    let w = dec_val(whole);
    let f = frac3(frac);
    w * 1000 + f
}

/// The digits of a fractional part in thousandths, with trailing zeros
/// dropped (at least one digit when `f` is not zero).
pub open spec fn spec_frac_digits(f: nat) -> Seq<u8> {
    if f % 100 == 0 {
        spec_dec_digits(f / 100)
    } else if f % 10 == 0 {
        if f / 10 < 10 {
            seq![48u8] + spec_dec_digits(f / 10)
        } else {
            spec_dec_digits(f / 10)
        }
    } else {
        spec_dec3(f)
    }
}

/// The shortest decimal rendering of a value in thousandths: the whole part,
/// then a point and the fractional digits when the fraction is not zero.
pub open spec fn spec_render_milli(m: nat) -> Seq<u8> {
    if m % 1000 == 0 {
        spec_dec_digits(m / 1000)
    } else {
        spec_dec_digits(m / 1000) + seq![46u8] + spec_frac_digits(m % 1000)
    }
}

/// Appends the decimal rendering of a value in thousandths.
pub fn push_render_milli(out: &mut Vec<u8>, m: u64)
    ensures
        final(out)@ == old(out)@ + spec_render_milli(m as nat),
{
    let f = m % 1000;
    push_dec(out, m / 1000);
    if f != 0 {
        out.push(46);
        if f % 100 == 0 {
            push_dec(out, f / 100);
        } else if f % 10 == 0 {
            if f / 10 < 10 {
                out.push(48);
            }
            push_dec(out, f / 10);
        } else {
            push_dec3(out, f);
        }
    }
    assert(out@ =~= old(out)@ + spec_render_milli(m as nat));
}

} // verus!
