//! Byte-level text primitives with their mathematical meaning.
//!
//! Lines are handled as UTF-8 bytes, so every position and length is a byte
//! offset, as `str::find` and `str::len` give them.

use vstd::prelude::*;
use vstd::string::StringSliceAdditionalSpecFns;

verus! {

/// The UTF-8 bytes of a string.
pub open spec fn bytes_of(s: &str) -> Seq<u8> {
    s.spec_bytes()
}

/// ASCII whitespace: space, tab, line feed, vertical tab, form feed, carriage return.
pub open spec fn is_ws(b: u8) -> bool {
    b == 32u8 || (9u8 <= b && b <= 13u8)
}

/// A word byte as the `\w` class sees ASCII: letters, digits and `_`.
pub open spec fn is_word(b: u8) -> bool {
    (48u8 <= b && b <= 57u8) || (65u8 <= b && b <= 90u8) || (97u8 <= b && b <= 122u8) || b == 95u8
}

pub open spec fn is_digit(b: u8) -> bool {
    48u8 <= b && b <= 57u8
}

pub open spec fn is_upper(b: u8) -> bool {
    65u8 <= b && b <= 90u8
}

pub open spec fn is_lower(b: u8) -> bool {
    97u8 <= b && b <= 122u8
}

/// The three bytes encode a whitespace character beyond Latin-1: U+1680,
/// U+2000 to U+200A, U+2028, U+2029, U+202F, U+205F or U+3000.
pub open spec fn is_ws3(a: u8, b: u8, c: u8) -> bool {
    ||| (a == 0xE1u8 && b == 0x9Au8 && c == 0x80u8)
    ||| (a == 0xE2u8 && b == 0x80u8 && ((0x80u8 <= c && c <= 0x8Au8) || c == 0xA8u8 || c == 0xA9u8 || c == 0xAFu8))
    ||| (a == 0xE2u8 && b == 0x81u8 && c == 0x9Fu8)
    ||| (a == 0xE3u8 && b == 0x80u8 && c == 0x80u8)
}

/// The length in bytes of the whitespace character (`char::is_whitespace`)
/// whose UTF-8 encoding starts at byte `i` of `s`, or 0 where none starts
/// there: ASCII whitespace, U+0085 and U+00A0, or one of `is_ws3`.
pub open spec fn ws_len_at(s: Seq<u8>, i: int) -> int {
    if 0 <= i < s.len() && is_ws(s[i]) {
        1
    } else if 0 <= i && i + 1 < s.len() && s[i] == 0xC2u8 && (s[i + 1] == 0x85u8 || s[i + 1] == 0xA0u8) {
        2
    } else if 0 <= i && i + 2 < s.len() && is_ws3(s[i], s[i + 1], s[i + 2]) {
        3
    } else {
        0
    }
}

/// The length in bytes of the whitespace character whose encoding ends just
/// before byte `j` of `s`, or 0.
pub open spec fn ws_len_before(s: Seq<u8>, j: int) -> int {
    if 1 <= j <= s.len() && is_ws(s[j - 1]) {
        1
    } else if 2 <= j <= s.len() && s[j - 2] == 0xC2u8 && (s[j - 1] == 0x85u8 || s[j - 1] == 0xA0u8) {
        2
    } else if 3 <= j <= s.len() && is_ws3(s[j - 3], s[j - 2], s[j - 1]) {
        3
    } else {
        0
    }
}

/// Number of bytes of the leading whitespace characters.
pub open spec fn lead_ws(s: Seq<u8>) -> nat
    decreases s.len(),
{
    let k = ws_len_at(s, 0);
    if k > 0 {
        (k + lead_ws(s.skip(k))) as nat
    } else {
        0
    }
}

/// Number of bytes of the trailing whitespace characters.
pub open spec fn trail_ws(s: Seq<u8>) -> nat
    decreases s.len(),
{
    let k = ws_len_before(s, s.len() as int);
    if k > 0 {
        (k + trail_ws(s.take(s.len() - k))) as nat
    } else {
        0
    }
}

/// The text is all whitespace (`line.trim().is_empty()`).
pub open spec fn is_blank(s: Seq<u8>) -> bool {
    lead_ws(s) == s.len()
}

pub open spec fn trim_start(s: Seq<u8>) -> Seq<u8> {
    s.skip(lead_ws(s) as int)
}

pub open spec fn trim_end(s: Seq<u8>) -> Seq<u8> {
    s.take(s.len() - trail_ws(s))
}

pub open spec fn trim(s: Seq<u8>) -> Seq<u8> {
    trim_end(trim_start(s))
}

/// Indentation width: `line.len() - line.trim_start().len()`.
pub open spec fn indent(s: Seq<u8>) -> nat {
    lead_ws(s)
}

pub open spec fn starts_with(s: Seq<u8>, p: Seq<u8>) -> bool {
    p.len() <= s.len() && s.take(p.len() as int) == p
}

pub open spec fn ends_with(s: Seq<u8>, p: Seq<u8>) -> bool {
    p.len() <= s.len() && s.skip(s.len() - p.len()) == p
}

/// `p` occurs in `s` starting at `i`.
pub open spec fn occurs_at(s: Seq<u8>, p: Seq<u8>, i: int) -> bool {
    0 <= i && i + p.len() <= s.len() && s.subrange(i, i + p.len()) == p
}

pub open spec fn contains(s: Seq<u8>, p: Seq<u8>) -> bool {
    exists|i: int| occurs_at(s, p, i)
}

/// The first position at which `p` occurs in `s`, searching from `from` on.
pub open spec fn find_from(s: Seq<u8>, p: Seq<u8>, from: int) -> Option<int>
    decreases s.len() + 1 - from,
{
    if from < 0 || from + p.len() > s.len() {
        None
    } else if occurs_at(s, p, from) {
        Some(from)
    } else {
        find_from(s, p, from + 1)
    }
}

/// `str::find`: the first position of `p` in `s`.
pub open spec fn find(s: Seq<u8>, p: Seq<u8>) -> Option<int> {
    find_from(s, p, 0)
}

/// The first position of byte `b` in `s` at or after `from`.
pub open spec fn find_byte_from(s: Seq<u8>, b: u8, from: int) -> Option<int>
    decreases s.len() - from,
{
    if from < 0 || from >= s.len() {
        None
    } else if s[from] == b {
        Some(from)
    } else {
        find_byte_from(s, b, from + 1)
    }
}

pub open spec fn find_byte(s: Seq<u8>, b: u8) -> Option<int> {
    find_byte_from(s, b, 0)
}

pub open spec fn has_byte(s: Seq<u8>, b: u8) -> bool {
    exists|i: int| 0 <= i < s.len() && s[i] == b
}

/// Number of leading bytes equal to `b`.
pub open spec fn lead_count(s: Seq<u8>, b: u8) -> nat
    decreases s.len(),
{
    if s.len() > 0 && s[0] == b {
        1 + lead_count(s.drop_first(), b)
    } else {
        0
    }
}

/// Number of trailing bytes equal to `b`.
pub open spec fn trail_count(s: Seq<u8>, b: u8) -> nat
    decreases s.len(),
{
    if s.len() > 0 && s.last() == b {
        1 + trail_count(s.drop_last(), b)
    } else {
        0
    }
}

/// Some byte is an ASCII lowercase letter.
pub open spec fn has_lower(s: Seq<u8>) -> bool {
    exists|k: int| 0 <= k < s.len() && is_lower(#[trigger] s[k])
}

/// Every byte is ASCII.
pub open spec fn is_ascii(s: Seq<u8>) -> bool {
    forall|k: int| 0 <= k < s.len() ==> #[trigger] s[k] < 128
}

/// ASCII uppercase letters lowered, all other bytes kept (`to_lowercase` on
/// ASCII text).
pub open spec fn lower_bytes(s: Seq<u8>) -> Seq<u8> {
    s.map_values(|b: u8| lower(b))
}

/// Number of bytes equal to `b`.
pub open spec fn count_byte(s: Seq<u8>, b: u8) -> nat
    decreases s.len(),
{
    if s.len() == 0 {
        0
    } else {
        count_byte(s.drop_last(), b) + if s.last() == b {
            1nat
        } else {
            0nat
        }
    }
}

/// Byte-wise lexicographic order, as `str`'s `<` compares.
pub open spec fn seq_lt(a: Seq<u8>, b: Seq<u8>) -> bool
    decreases a.len(),
{
    if a.len() == 0 {
        b.len() > 0
    } else if b.len() == 0 {
        false
    } else if a[0] != b[0] {
        a[0] < b[0]
    } else {
        seq_lt(a.drop_first(), b.drop_first())
    }
}

/// ASCII lower case of a byte.
pub open spec fn lower(b: u8) -> u8 {
    if is_upper(b) {
        (b + 32) as u8
    } else {
        b
    }
}

/// `s` starts with `p` when both are taken in ASCII lower case (`p` is lower case).
pub open spec fn starts_with_ci(s: Seq<u8>, p: Seq<u8>) -> bool {
    p.len() <= s.len() && forall|k: int| 0 <= k < p.len() ==> lower(#[trigger] s[k]) == p[k]
}

/// A UTF-8 continuation byte.
pub open spec fn is_cont(b: u8) -> bool {
    128u8 <= b && b < 192u8
}

/// The number of characters of UTF-8 text: its bytes that are not continuation bytes.
pub open spec fn char_count(s: Seq<u8>) -> nat
    decreases s.len(),
{
    if s.len() == 0 {
        0
    } else {
        char_count(s.drop_last()) + if is_cont(s.last()) {
            0nat
        } else {
            1nat
        }
    }
}

/// The decimal digits of `n`, as `format!("{}", n)` writes them.
pub open spec fn decimal(n: nat) -> Seq<u8>
    decreases n,
{
    if n < 10 {
        seq![(48 + n) as u8]
    } else {
        decimal(n / 10).push((48 + n % 10) as u8)
    }
}

// ---------------------------------------------------------------------------
// Lemmas
// ---------------------------------------------------------------------------

/// Every byte of the leading whitespace is an ASCII whitespace byte or a
/// byte of a multi-byte character (128 or more).
pub proof fn lemma_lead_ws_bytes(s: Seq<u8>)
    ensures
        lead_ws(s) <= s.len(),
        forall|j: int| 0 <= j < lead_ws(s) ==> is_ws(#[trigger] s[j]) || s[j] >= 128u8,
    decreases s.len(),
{
    let k = ws_len_at(s, 0);
    if k > 0 {
        let r = s.skip(k);
        lemma_lead_ws_bytes(r);
        assert forall|j: int| 0 <= j < lead_ws(s) implies is_ws(#[trigger] s[j]) || s[j] >= 128u8 by {
            if j >= k {
                assert(s[j] == r[j - k]);
            }
        }
    }
}

pub proof fn lemma_lead_ws_bounds(s: Seq<u8>)
    ensures
        lead_ws(s) <= s.len(),
    decreases s.len(),
{
    let k = ws_len_at(s, 0);
    if k > 0 {
        lemma_lead_ws_bounds(s.skip(k));
    }
}

/// The trailing whitespace run is whole: no whitespace character ends just
/// before it.
pub proof fn lemma_trail_ws_whole(s: Seq<u8>)
    ensures
        trail_ws(s) <= s.len(),
        ws_len_before(s, s.len() - trail_ws(s)) == 0,
    decreases s.len(),
{
    lemma_trail_ws_bounds(s);
    let k = ws_len_before(s, s.len() as int);
    if k > 0 {
        let r = s.take(s.len() - k);
        lemma_trail_ws_whole(r);
        let j = r.len() - trail_ws(r);
        assert(s.len() - trail_ws(s) == j);
        if j >= 1 {
            assert(s[j - 1] == r[j - 1]);
        }
        if j >= 2 {
            assert(s[j - 2] == r[j - 2]);
        }
        if j >= 3 {
            assert(s[j - 3] == r[j - 3]);
        }
    }
}

pub proof fn lemma_trail_ws_bounds(s: Seq<u8>)
    ensures
        trail_ws(s) <= s.len(),
    decreases s.len(),
{
    let k = ws_len_before(s, s.len() as int);
    if k > 0 {
        lemma_trail_ws_bounds(s.take(s.len() - k));
    }
}

/// Leading whitespace of a text that is all whitespace runs on into what
/// follows it.
proof fn lemma_lead_ws_concat(p: Seq<u8>, q: Seq<u8>)
    requires
        lead_ws(p) == p.len(),
    ensures
        lead_ws(p + q) == p.len() + lead_ws(q),
    decreases p.len(),
{
    if p.len() == 0 {
        assert(p + q =~= q);
    } else {
        let k = ws_len_at(p, 0);
        lemma_lead_ws_bounds(p.skip(k));
        assert((p + q)[0] == p[0]);
        if k >= 2 {
            assert((p + q)[1] == p[1]);
        }
        if k >= 3 {
            assert((p + q)[2] == p[2]);
        }
        assert(ws_len_at(p + q, 0) == k);
        assert((p + q).skip(k) =~= p.skip(k) + q);
        lemma_lead_ws_concat(p.skip(k), q);
    }
}

/// A text that is all whitespace read from its end is all whitespace read
/// from its start.
proof fn lemma_trail_all_lead_all(s: Seq<u8>)
    requires
        trail_ws(s) == s.len(),
    ensures
        lead_ws(s) == s.len(),
    decreases s.len(),
{
    if s.len() > 0 {
        let k = ws_len_before(s, s.len() as int);
        let p = s.take(s.len() - k);
        let w = s.skip(s.len() - k);
        lemma_trail_ws_bounds(p);
        lemma_trail_all_lead_all(p);
        assert(ws_len_at(w, 0) == k);
        assert(w.skip(k) =~= Seq::<u8>::empty());
        assert(lead_ws(Seq::<u8>::empty()) == 0);
        assert(lead_ws(w.skip(k)) == 0);
        assert(lead_ws(w) == k);
        assert(p + w =~= s);
        lemma_lead_ws_concat(p, w);
    }
}

/// What is left after the leading whitespace starts with no whitespace.
proof fn lemma_trim_start_no_ws(s: Seq<u8>)
    ensures
        lead_ws(s.skip(lead_ws(s) as int)) == 0,
    decreases s.len(),
{
    let k = ws_len_at(s, 0);
    if k > 0 {
        lemma_trim_start_no_ws(s.skip(k));
        lemma_lead_ws_bounds(s.skip(k));
        assert(s.skip(lead_ws(s) as int) =~= s.skip(k).skip(lead_ws(s.skip(k)) as int));
    } else {
        assert(s.skip(0) =~= s);
    }
}

/// A text is blank exactly when trimming leaves nothing.
pub proof fn lemma_blank_trim(s: Seq<u8>)
    ensures
        is_blank(s) <==> trim(s).len() == 0,
        is_blank(s) <==> lead_ws(s) == s.len(),
{
    lemma_lead_ws_bounds(s);
    let t = trim_start(s);
    lemma_trail_ws_bounds(t);
    lemma_trim_start_no_ws(s);
    if trail_ws(t) == t.len() {
        lemma_trail_all_lead_all(t);
    }
}

pub proof fn lemma_find_from_spec(s: Seq<u8>, p: Seq<u8>, from: int)
    requires
        0 <= from,
    ensures
        match find_from(s, p, from) {
            Some(i) => from <= i && occurs_at(s, p, i) && forall|j: int| from <= j < i ==> !occurs_at(s, p, j),
            None => forall|j: int| from <= j ==> !occurs_at(s, p, j),
        },
    decreases s.len() + 1 - from,
{
    if from + p.len() > s.len() {
    } else if occurs_at(s, p, from) {
    } else {
        lemma_find_from_spec(s, p, from + 1);
    }
}

pub proof fn lemma_find_byte_from_spec(s: Seq<u8>, b: u8, from: int)
    requires
        0 <= from,
    ensures
        match find_byte_from(s, b, from) {
            Some(i) => from <= i < s.len() && s[i] == b && forall|j: int| from <= j < i ==> s[j] != b,
            None => forall|j: int| from <= j < s.len() ==> s[j] != b,
        },
    decreases s.len() - from,
{
    if from >= s.len() {
    } else if s[from] == b {
    } else {
        lemma_find_byte_from_spec(s, b, from + 1);
    }
}

/// `contains` agrees with `find`.
pub proof fn lemma_contains_find(s: Seq<u8>, p: Seq<u8>)
    ensures
        contains(s, p) <==> find(s, p) is Some,
{
    lemma_find_from_spec(s, p, 0);
    if contains(s, p) {
        let i = choose|i: int| occurs_at(s, p, i);
        assert(0 <= i);
    }
}

pub proof fn lemma_has_byte_find(s: Seq<u8>, b: u8)
    ensures
        has_byte(s, b) <==> find_byte(s, b) is Some,
{
    lemma_find_byte_from_spec(s, b, 0);
}

pub proof fn lemma_decimal_len(n: nat)
    ensures
        decimal(n).len() >= 1,
    decreases n,
{
    if n >= 10 {
        lemma_decimal_len(n / 10);
    }
}

// ---------------------------------------------------------------------------
// Executable operations
// ---------------------------------------------------------------------------

/// `ws_len_at(s, i)` as an exec value.
pub fn ws_len_at_exec(s: &[u8], i: usize) -> (r: usize)
    ensures
        r == ws_len_at(s@, i as int),
        r <= 3,
{
    if i < s.len() && (s[i] == 32u8 || (9u8 <= s[i] && s[i] <= 13u8)) {
        1
    } else if i < s.len() && s.len() - i > 1 && s[i] == 0xC2u8 && (s[i + 1] == 0x85u8 || s[i + 1] == 0xA0u8) {
        2
    } else if i < s.len() && s.len() - i > 2 && ws3_exec(s[i], s[i + 1], s[i + 2]) {
        3
    } else {
        0
    }
}

fn ws3_exec(a: u8, b: u8, c: u8) -> (r: bool)
    ensures
        r == is_ws3(a, b, c),
{
    (a == 0xE1u8 && b == 0x9Au8 && c == 0x80u8) || (a == 0xE2u8 && b == 0x80u8 && ((0x80u8 <= c && c <= 0x8Au8) || c
        == 0xA8u8 || c == 0xA9u8 || c == 0xAFu8)) || (a == 0xE2u8 && b == 0x81u8 && c == 0x9Fu8) || (a == 0xE3u8 && b
        == 0x80u8 && c == 0x80u8)
}

/// `ws_len_before(s, j)` as an exec value.
pub fn ws_len_before_exec(s: &[u8], j: usize) -> (r: usize)
    ensures
        r == ws_len_before(s@, j as int),
        r <= 3,
{
    if 1 <= j && j <= s.len() && (s[j - 1] == 32u8 || (9u8 <= s[j - 1] && s[j - 1] <= 13u8)) {
        1
    } else if 2 <= j && j <= s.len() && s[j - 2] == 0xC2u8 && (s[j - 1] == 0x85u8 || s[j - 1] == 0xA0u8) {
        2
    } else if 3 <= j && j <= s.len() && ws3_exec(s[j - 3], s[j - 2], s[j - 1]) {
        3
    } else {
        0
    }
}

/// The leading whitespace count of `s` (`line.len() - line.trim_start().len()`).
pub fn lead_ws_exec(s: &[u8]) -> (r: usize)
    ensures
        r == lead_ws(s@),
        r <= s@.len(),
{
    let mut i: usize = 0;
    proof {
        assert(s@.skip(0) =~= s@);
    }
    loop
        invariant
            i <= s.len(),
            lead_ws(s@) == i + lead_ws(s@.skip(i as int)),
        ensures
            lead_ws(s@) == i,
        decreases s.len() - i,
    {
        let k = ws_len_at_exec(s, i);
        proof {
            let t = s@.skip(i as int);
            assert(ws_len_at(t, 0) == ws_len_at(s@, i as int)) by {
                if i < s.len() {
                    assert(t[0] == s@[i as int]);
                }
                if i + 1 < s.len() {
                    assert(t[1] == s@[i + 1]);
                }
                if i + 2 < s.len() {
                    assert(t[2] == s@[i + 2]);
                }
            }
            if k > 0 {
                assert(t.skip(k as int) =~= s@.skip(i + k));
            }
        }
        if k == 0 {
            break;
        }
        i = i + k;
    }
    proof {
        lemma_lead_ws_bounds(s@);
    }
    i
}

/// The trailing whitespace count of `s`.
pub fn trail_ws_exec(s: &[u8]) -> (r: usize)
    ensures
        r == trail_ws(s@),
        r <= s@.len(),
{
    let mut j: usize = s.len();
    proof {
        assert(s@.take(s@.len() as int) =~= s@);
    }
    loop
        invariant
            j <= s.len(),
            trail_ws(s@) == (s.len() - j) + trail_ws(s@.take(j as int)),
        ensures
            trail_ws(s@) == s.len() - j,
        decreases j,
    {
        let k = ws_len_before_exec(s, j);
        proof {
            let t = s@.take(j as int);
            assert(ws_len_before(t, t.len() as int) == ws_len_before(s@, j as int)) by {
                if j >= 1 {
                    assert(t[j - 1] == s@[j - 1]);
                }
                if j >= 2 {
                    assert(t[j - 2] == s@[j - 2]);
                }
                if j >= 3 {
                    assert(t[j - 3] == s@[j - 3]);
                }
            }
            if k > 0 {
                assert(t.take(t.len() - k) =~= s@.take(j - k));
            }
        }
        if k == 0 {
            break;
        }
        j = j - k;
    }
    proof {
        lemma_trail_ws_bounds(s@);
    }
    s.len() - j
}

/// The bounds `(lo, hi)` of `trim(s)` inside `s`.
pub fn trim_bounds(s: &[u8]) -> (r: (usize, usize))
    ensures
        r.0 <= r.1 <= s@.len(),
        s@.subrange(r.0 as int, r.1 as int) == trim(s@),
        r.0 == lead_ws(s@),
{
    let lo = lead_ws_exec(s);
    proof {
        lemma_lead_ws_bounds(s@);
    }
    let rest = &s[lo..s.len()];
    let t = trail_ws_exec(rest);
    proof {
        lemma_trail_ws_bounds(rest@);
        assert(rest@ == trim_start(s@));
        assert(s@.subrange(lo as int, (s.len() - t) as int) == rest@.take(rest@.len() - t));
    }
    (lo, s.len() - t)
}

/// `trim(s)` as a slice.
pub fn trim_exec(s: &[u8]) -> (r: &[u8])
    ensures
        r@ == trim(s@),
{
    let (lo, hi) = trim_bounds(s);
    &s[lo..hi]
}

/// `trim_start(s)` as a slice.
pub fn trim_start_exec(s: &[u8]) -> (r: &[u8])
    ensures
        r@ == trim_start(s@),
{
    let lo = lead_ws_exec(s);
    proof {
        lemma_lead_ws_bounds(s@);
    }
    &s[lo..s.len()]
}

/// `trim_end(s)` as a slice.
pub fn trim_end_exec(s: &[u8]) -> (r: &[u8])
    ensures
        r@ == trim_end(s@),
{
    let t = trail_ws_exec(s);
    proof {
        lemma_trail_ws_bounds(s@);
    }
    &s[0..s.len() - t]
}

/// Whether every byte of `s` is whitespace.
pub fn is_blank_exec(s: &[u8]) -> (r: bool)
    ensures
        r == is_blank(s@),
{
    let n = lead_ws_exec(s);
    proof {
        lemma_blank_trim(s@);
    }
    n == s.len()
}

pub fn bytes_eq(a: &[u8], b: &[u8]) -> (r: bool)
    ensures
        r == (a@ == b@),
{
    if a.len() != b.len() {
        return false;
    }
    let mut i: usize = 0;
    while i < a.len()
        invariant
            a@.len() == b@.len(),
            i <= a.len(),
            forall|j: int| 0 <= j < i ==> a@[j] == b@[j],
        decreases a.len() - i,
    {
        if a[i] != b[i] {
            return false;
        }
        i = i + 1;
    }
    assert(a@ =~= b@);
    true
}

/// Whether `p` occurs in `s` at position `i`.
pub fn occurs_at_exec(s: &[u8], p: &[u8], i: usize) -> (r: bool)
    ensures
        r == occurs_at(s@, p@, i as int),
{
    if i > s.len() || p.len() > s.len() - i {
        return false;
    }
    let mut k: usize = 0;
    while k < p.len()
        invariant
            i + p@.len() <= s@.len(),
            i <= s.len(),
            p.len() <= s.len() - i,
            k <= p.len(),
            forall|j: int| 0 <= j < k ==> s@[i + j] == p@[j],
        decreases p.len() - k,
    {
        if s[i + k] != p[k] {
            assert(s@.subrange(i as int, i + p@.len())[k as int] != p@[k as int]);
            return false;
        }
        k = k + 1;
    }
    assert(s@.subrange(i as int, i + p@.len()) =~= p@);
    true
}

pub fn starts_with_exec(s: &[u8], p: &[u8]) -> (r: bool)
    ensures
        r == starts_with(s@, p@),
{
    let r = occurs_at_exec(s, p, 0);
    assert(s@.subrange(0, p@.len() as int) == s@.take(p@.len() as int));
    r
}

pub fn ends_with_exec(s: &[u8], p: &[u8]) -> (r: bool)
    ensures
        r == ends_with(s@, p@),
{
    if p.len() > s.len() {
        return false;
    }
    let r = occurs_at_exec(s, p, s.len() - p.len());
    assert(s@.subrange(s@.len() - p@.len(), s@.len() as int) == s@.skip(s@.len() - p@.len()));
    r
}

/// Whether `s` starts with the text `p`.
pub fn starts_with_str(s: &[u8], p: &str) -> (r: bool)
    ensures
        r == starts_with(s@, bytes_of(p)),
{
    starts_with_exec(s, p.as_bytes())
}

/// Whether `s` ends with the text `p`.
pub fn ends_with_str(s: &[u8], p: &str) -> (r: bool)
    ensures
        r == ends_with(s@, bytes_of(p)),
{
    ends_with_exec(s, p.as_bytes())
}

/// Whether `s` is exactly the text `p`.
pub fn eq_str(s: &[u8], p: &str) -> (r: bool)
    ensures
        r == (s@ == bytes_of(p)),
{
    bytes_eq(s, p.as_bytes())
}

/// `str::find` for a byte pattern, searching from `from` on.
pub fn find_from_exec(s: &[u8], p: &[u8], from: usize) -> (r: Option<usize>)
    ensures
        match r {
            Some(i) => find_from(s@, p@, from as int) == Some(i as int),
            None => find_from(s@, p@, from as int) is None,
        },
{
    let mut i = from;
    while i <= s.len() && p.len() <= s.len() - i
        invariant
            from <= i,
            find_from(s@, p@, from as int) == find_from(s@, p@, i as int),
        decreases s.len() + 1 - i,
    {
        if occurs_at_exec(s, p, i) {
            return Some(i);
        }
        if i == s.len() {
            assert(s@.subrange(i as int, i as int) =~= p@);
            return None;
        }
        i = i + 1;
    }
    None
}

pub fn find_exec(s: &[u8], p: &[u8]) -> (r: Option<usize>)
    ensures
        match r {
            Some(i) => find(s@, p@) == Some(i as int),
            None => find(s@, p@) is None,
        },
{
    find_from_exec(s, p, 0)
}

/// `str::find` for a text pattern.
pub fn find_str(s: &[u8], p: &str) -> (r: Option<usize>)
    ensures
        match r {
            Some(i) => find(s@, bytes_of(p)) == Some(i as int),
            None => find(s@, bytes_of(p)) is None,
        },
{
    find_exec(s, p.as_bytes())
}

/// `str::contains` for a text pattern.
pub fn contains_str(s: &[u8], p: &str) -> (r: bool)
    ensures
        r == contains(s@, bytes_of(p)),
{
    proof {
        lemma_contains_find(s@, bytes_of(p));
    }
    find_str(s, p).is_some()
}

/// The first position of byte `b` in `s` at or after `from`.
pub fn find_byte_from_exec(s: &[u8], b: u8, from: usize) -> (r: Option<usize>)
    ensures
        match r {
            Some(i) => find_byte_from(s@, b, from as int) == Some(i as int),
            None => find_byte_from(s@, b, from as int) is None,
        },
{
    let mut i = from;
    while i < s.len()
        invariant
            from <= i,
            find_byte_from(s@, b, from as int) == find_byte_from(s@, b, i as int),
        decreases s.len() - i,
    {
        if s[i] == b {
            return Some(i);
        }
        i = i + 1;
    }
    None
}

pub fn find_byte_exec(s: &[u8], b: u8) -> (r: Option<usize>)
    ensures
        match r {
            Some(i) => find_byte(s@, b) == Some(i as int),
            None => find_byte(s@, b) is None,
        },
{
    find_byte_from_exec(s, b, 0)
}

pub fn has_byte_exec(s: &[u8], b: u8) -> (r: bool)
    ensures
        r == has_byte(s@, b),
{
    proof {
        lemma_has_byte_find(s@, b);
    }
    find_byte_exec(s, b).is_some()
}

/// Number of leading bytes equal to `b`.
pub fn lead_count_exec(s: &[u8], b: u8) -> (r: usize)
    ensures
        r == lead_count(s@, b),
        r <= s@.len(),
{
    let mut i: usize = 0;
    while i < s.len() && s[i] == b
        invariant
            i <= s.len(),
            forall|j: int| 0 <= j < i ==> #[trigger] s@[j] == b,
        decreases s.len() - i,
    {
        i = i + 1;
    }
    proof {
        lemma_lead_count(s@, b, i as int);
    }
    i
}

/// Number of trailing bytes equal to `b`.
pub fn trail_count_exec(s: &[u8], b: u8) -> (r: usize)
    ensures
        r == trail_count(s@, b),
        r <= s@.len(),
{
    let mut k: usize = 0;
    while k < s.len() && s[s.len() - 1 - k] == b
        invariant
            k <= s.len(),
            forall|j: int| s.len() - k <= j < s.len() ==> #[trigger] s@[j] == b,
        decreases s.len() - k,
    {
        k = k + 1;
    }
    proof {
        lemma_trail_count(s@, b, k as int);
    }
    k
}

proof fn lemma_trail_count(s: Seq<u8>, b: u8, k: int)
    requires
        0 <= k <= s.len(),
        forall|j: int| s.len() - k <= j < s.len() ==> #[trigger] s[j] == b,
        k == s.len() || s[s.len() - k - 1] != b,
    ensures
        trail_count(s, b) == k,
    decreases s.len(),
{
    if k > 0 {
        let t = s.drop_last();
        assert forall|j: int| t.len() - (k - 1) <= j < t.len() implies #[trigger] t[j] == b by {
            assert(t[j] == s[j]);
        }
        if k - 1 < t.len() {
            assert(t[t.len() - (k - 1) - 1] == s[s.len() - k - 1]);
        }
        lemma_trail_count(t, b, k - 1);
    }
}

proof fn lemma_lead_count(s: Seq<u8>, b: u8, k: int)
    requires
        0 <= k <= s.len(),
        forall|j: int| 0 <= j < k ==> #[trigger] s[j] == b,
        k == s.len() || s[k] != b,
    ensures
        lead_count(s, b) == k,
    decreases s.len(),
{
    if k > 0 {
        let t = s.drop_first();
        assert forall|j: int| 0 <= j < k - 1 implies #[trigger] t[j] == b by {
            assert(t[j] == s[j + 1]);
        }
        if k - 1 < t.len() {
            assert(t[k - 1] == s[k]);
        }
        lemma_lead_count(t, b, k - 1);
    }
}

/// `a < b` in byte-wise lexicographic order.
pub fn seq_lt_exec(a: &[u8], b: &[u8]) -> (r: bool)
    ensures
        r == seq_lt(a@, b@),
{
    let mut k: usize = 0;
    assert(a@.skip(0) =~= a@);
    assert(b@.skip(0) =~= b@);
    while k < a.len() && k < b.len() && a[k] == b[k]
        invariant
            k <= a.len(),
            k <= b.len(),
            seq_lt(a@, b@) == seq_lt(a@.skip(k as int), b@.skip(k as int)),
        decreases a.len() - k,
    {
        assert(a@.skip(k as int).drop_first() =~= a@.skip(k + 1));
        assert(b@.skip(k as int).drop_first() =~= b@.skip(k + 1));
        k = k + 1;
    }
    if k == a.len() {
        k < b.len()
    } else if k == b.len() {
        false
    } else {
        a[k] < b[k]
    }
}

pub fn lower_exec(b: u8) -> (r: u8)
    ensures
        r == lower(b),
{
    if 65u8 <= b && b <= 90u8 {
        b + 32
    } else {
        b
    }
}

/// Whether `s` starts with the lower-case text `p`, ignoring ASCII case in `s`.
pub fn starts_with_ci_exec(s: &[u8], p: &str) -> (r: bool)
    ensures
        r == starts_with_ci(s@, bytes_of(p)),
{
    let pb = p.as_bytes();
    if pb.len() > s.len() {
        return false;
    }
    let mut k: usize = 0;
    while k < pb.len()
        invariant
            pb@ == bytes_of(p),
            pb@.len() <= s@.len(),
            k <= pb.len(),
            forall|j: int| 0 <= j < k ==> lower(#[trigger] s@[j]) == pb@[j],
        decreases pb.len() - k,
    {
        if lower_exec(s[k]) != pb[k] {
            return false;
        }
        k = k + 1;
    }
    true
}

/// The number of characters of UTF-8 text.
pub fn char_count_exec(s: &[u8]) -> (r: usize)
    ensures
        r == char_count(s@),
        r <= s@.len(),
{
    let mut c: usize = 0;
    let mut i: usize = 0;
    while i < s.len()
        invariant
            i <= s.len(),
            c == char_count(s@.take(i as int)),
            c <= i,
        decreases s.len() - i,
    {
        assert(s@.take(i + 1).drop_last() =~= s@.take(i as int));
        if !(128u8 <= s[i] && s[i] < 192u8) {
            c = c + 1;
        }
        i = i + 1;
    }
    assert(s@.take(s@.len() as int) =~= s@);
    c
}

/// Whether some byte is an ASCII lowercase letter.
pub fn has_lower_exec(s: &[u8]) -> (r: bool)
    ensures
        r == has_lower(s@),
{
    let mut i: usize = 0;
    while i < s.len()
        invariant
            i <= s.len(),
            forall|k: int| 0 <= k < i ==> !is_lower(#[trigger] s@[k]),
        decreases s.len() - i,
    {
        if 97u8 <= s[i] && s[i] <= 122u8 {
            assert(is_lower(s@[i as int]));
            return true;
        }
        i = i + 1;
    }
    false
}

/// Whether every byte is ASCII.
pub fn is_ascii_exec(s: &[u8]) -> (r: bool)
    ensures
        r == is_ascii(s@),
{
    let mut i: usize = 0;
    while i < s.len()
        invariant
            i <= s.len(),
            forall|k: int| 0 <= k < i ==> #[trigger] s@[k] < 128,
        decreases s.len() - i,
    {
        if s[i] >= 128 {
            return false;
        }
        i = i + 1;
    }
    true
}

/// The bytes with ASCII uppercase letters lowered.
pub fn lower_bytes_exec(s: &[u8]) -> (r: Vec<u8>)
    ensures
        r@ == lower_bytes(s@),
{
    let mut out: Vec<u8> = Vec::new();
    let mut i: usize = 0;
    while i < s.len()
        invariant
            i <= s.len(),
            out@ == lower_bytes(s@.take(i as int)),
        decreases s.len() - i,
    {
        out.push(lower_exec(s[i]));
        i = i + 1;
        assert(out@ =~= lower_bytes(s@.take(i as int)));
    }
    assert(s@.take(s@.len() as int) =~= s@);
    out
}

/// Number of bytes equal to `b`.
pub fn count_byte_exec(s: &[u8], b: u8) -> (r: usize)
    ensures
        r == count_byte(s@, b),
        r <= s@.len(),
{
    let mut c: usize = 0;
    let mut i: usize = 0;
    while i < s.len()
        invariant
            i <= s.len(),
            c == count_byte(s@.take(i as int), b),
            c <= i,
        decreases s.len() - i,
    {
        assert(s@.take(i + 1).drop_last() =~= s@.take(i as int));
        if s[i] == b {
            c = c + 1;
        }
        i = i + 1;
    }
    assert(s@.take(s@.len() as int) =~= s@);
    c
}

/// The decimal digits of `n`.
pub fn decimal_exec(n: u128) -> (r: Vec<u8>)
    ensures
        r@ == decimal(n as nat),
    decreases n,
{
    if n < 10 {
        let mut v: Vec<u8> = Vec::new();
        v.push((48 + n) as u8);
        v
    } else {
        let mut v = decimal_exec(n / 10);
        v.push((48 + n % 10) as u8);
        v
    }
}

pub fn is_word_exec(b: u8) -> (r: bool)
    ensures
        r == is_word(b),
{
    (48u8 <= b && b <= 57u8) || (65u8 <= b && b <= 90u8) || (97u8 <= b && b <= 122u8) || b == 95u8
}

pub fn is_ws_exec(b: u8) -> (r: bool)
    ensures
        r == is_ws(b),
{
    b == 32u8 || (9u8 <= b && b <= 13u8)
}

} // verus!
