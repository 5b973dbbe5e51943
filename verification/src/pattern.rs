//! Regular-expression matching, through the `regex` crate.

use vstd::prelude::*;

verus! {

/// The capture groups of every match of `pattern` in `text`, as the `regex`
/// crate finds them (`Regex::captures_iter`, leftmost-first, non-overlapping,
/// in order): for each match, group 0 (the whole match) and then each group,
/// as byte ranges `(start, end)` of `text`, or `None` for a group that did not
/// take part in the match. Empty when `pattern` does not compile.
pub uninterp spec fn regex_captures(pattern: Seq<char>, text: Seq<u8>) -> Seq<Seq<Option<(int, int)>>>;

/// One match's groups, as plain integers.
pub open spec fn groups_view(m: Seq<Option<(usize, usize)>>) -> Seq<Option<(int, int)>> {
    m.map_values(
        |g: Option<(usize, usize)>|
            match g {
                Some(p) => Some((p.0 as int, p.1 as int)),
                None => None,
            },
    )
}

pub open spec fn spans_view(v: Seq<Vec<Option<(usize, usize)>>>) -> Seq<Seq<Option<(int, int)>>> {
    v.map_values(|m: Vec<Option<(usize, usize)>>| groups_view(m@))
}

/// Each match has its whole-match group, and every group lies within the text.
pub open spec fn match_wf(m: Seq<Option<(int, int)>>, len: int) -> bool {
    &&& m.len() >= 1
    &&& m[0] is Some
    &&& forall|j: int|
        0 <= j < m.len() ==> match #[trigger] m[j] {
            Some(p) => 0 <= p.0 <= p.1 <= len,
            None => true,
        }
}

/// Match `k` ends no later than match `k + 1` starts, and strictly before
/// match `k + 1` ends: successive matches do not overlap, and no empty match
/// is reported where the previous match ended.
pub open spec fn successive(ms: Seq<Seq<Option<(int, int)>>>, k: int) -> bool {
    &&& whole(ms[k]).1 <= whole(ms[k + 1]).0
    &&& whole(ms[k]).1 < whole(ms[k + 1]).1
}

/// Every match is well formed, and the matches come in order.
pub open spec fn matches_wf(ms: Seq<Seq<Option<(int, int)>>>, len: int) -> bool {
    &&& forall|i: int| 0 <= i < ms.len() ==> match_wf(#[trigger] ms[i], len)
    &&& forall|k: int| 0 <= k && k + 1 < ms.len() ==> #[trigger] successive(ms, k)
}

proof fn lemma_match_ends(ms: Seq<Seq<Option<(int, int)>>>, len: int, k: int)
    requires
        matches_wf(ms, len),
        0 <= k < ms.len(),
    ensures
        whole(ms[k]).1 >= k,
    decreases k,
{
    assert(match_wf(ms[k], len));
    if k > 0 {
        lemma_match_ends(ms, len, k - 1);
        assert(successive(ms, k - 1));
    } else {
        assert(ms[k][0] is Some);
    }
}

/// A text of length `len` has at most `len + 1` matches.
pub proof fn lemma_match_count(ms: Seq<Seq<Option<(int, int)>>>, len: int)
    requires
        matches_wf(ms, len),
        0 <= len,
    ensures
        ms.len() <= len + 1,
{
    if ms.len() > 0 {
        let k = ms.len() - 1;
        lemma_match_ends(ms, len, k);
        let m = ms[k];
        assert(match_wf(m, len));
        let p = m[0]->Some_0;
        assert(p.1 <= len);
        assert(whole(m) == p);
    }
}

/// Group `k` of a match, `None` where the pattern has no such group.
pub open spec fn group(m: Seq<Option<(int, int)>>, k: int) -> Option<(int, int)> {
    if 0 <= k < m.len() {
        m[k]
    } else {
        None
    }
}

/// The whole match of a well-formed match.
pub open spec fn whole(m: Seq<Option<(int, int)>>) -> (int, int) {
    match group(m, 0) {
        Some(p) => p,
        None => (0, 0),
    }
}

/// A character with a meaning in a regular expression, which `regex::escape`
/// puts a backslash before.
pub open spec fn is_regex_meta(c: char) -> bool {
    c == '\\' || c == '.' || c == '+' || c == '*' || c == '?' || c == '(' || c == ')' || c == '|' || c == '['
        || c == ']' || c == '{' || c == '}' || c == '^' || c == '$' || c == '#' || c == '&' || c == '-' || c == '~'
}

/// The text with a backslash before each character that `is_regex_meta`.
pub open spec fn regex_escaped(s: Seq<char>) -> Seq<char>
    decreases s.len(),
{
    if s.len() == 0 {
        seq![]
    } else {
        regex_escaped(s.drop_last()) + if is_regex_meta(s.last()) {
            seq!['\\', s.last()]
        } else {
            seq![s.last()]
        }
    }
}

/// `regex::escape`: the text as a pattern that matches it literally. Its
/// source (`regex_syntax::escape_into`) pushes, for each character in turn, a
/// backslash where `is_meta_character` holds of it and then the character;
/// the contract states exactly that.
#[verifier::external_body]
pub(crate) fn regex_escape(text: &str) -> (r: String)
    ensures
        r@ == regex_escaped(text@),
{
    regex::escape(text)
}

/// `Regex::new(pattern)` and `captures_iter(text)` of `regex::bytes`: the
/// groups of every match, as byte ranges. The contract claims that the result
/// is the named `regex_captures` of the pattern and the text, and what the
/// crate documents and its iterator shows of the matches: each has group 0,
/// each group is a range of the text, successive matches do not overlap, and
/// an empty match is never reported where the previous match ended. Where
/// the pattern does not compile, the result is empty.
#[verifier::external_body]
pub(crate) fn captures_all(pattern: &str, text: &[u8]) -> (r: Vec<Vec<Option<(usize, usize)>>>)
    ensures
        spans_view(r@) == regex_captures(pattern@, text@),
        matches_wf(spans_view(r@), text@.len() as int),
{
    match regex::bytes::Regex::new(pattern) {
        Ok(re) => re.captures_iter(text).map(
            |c| c.iter().map(|g| g.map(|m| (m.start(), m.end()))).collect(),
        ).collect(),
        Err(_) => Vec::new(),
    }
}

/// Group `k` of match `m`, as exec values.
pub fn group_exec(m: &Vec<Option<(usize, usize)>>, k: usize) -> (r: Option<(usize, usize)>)
    ensures
        match r {
            Some(p) => group(groups_view(m@), k as int) == Some((p.0 as int, p.1 as int)),
            None => group(groups_view(m@), k as int) is None,
        },
{
    if k < m.len() {
        m[k]
    } else {
        None
    }
}

/// The whole match of a well-formed match.
pub fn whole_exec(m: &Vec<Option<(usize, usize)>>, len: usize) -> (r: (usize, usize))
    requires
        match_wf(groups_view(m@), len as int),
    ensures
        r.0 as int == whole(groups_view(m@)).0,
        r.1 as int == whole(groups_view(m@)).1,
        r.0 <= r.1 <= len,
{
    assert(groups_view(m@)[0] is Some);
    match m[0] {
        Some(p) => p,
        None => (0, 0),
    }
}

/// The first match of `pattern` in `text`, if any (`Regex::captures`).
pub open spec fn first_match(pattern: Seq<char>, text: Seq<u8>) -> Option<Seq<Option<(int, int)>>> {
    let ms = regex_captures(pattern, text);
    if ms.len() > 0 {
        Some(ms[0])
    } else {
        None
    }
}

/// Whether `pattern` matches somewhere in `text` (`Regex::is_match`).
pub open spec fn is_match(pattern: Seq<char>, text: Seq<u8>) -> bool {
    regex_captures(pattern, text).len() > 0
}

pub fn first_match_exec(pattern: &str, text: &[u8]) -> (r: Option<Vec<Option<(usize, usize)>>>)
    ensures
        match r {
            Some(m) => first_match(pattern@, text@) == Some(groups_view(m@)) && match_wf(
                groups_view(m@),
                text@.len() as int,
            ),
            None => first_match(pattern@, text@) is None,
        },
{
    let mut ms = captures_all(pattern, text);
    if ms.len() > 0 {
        assert(spans_view(ms@)[0] == groups_view(ms@[0]@));
        Some(ms.swap_remove(0))
    } else {
        None
    }
}

pub fn is_match_exec(pattern: &str, text: &[u8]) -> (r: bool)
    ensures
        r == is_match(pattern@, text@),
{
    let ms = captures_all(pattern, text);
    ms.len() > 0
}

/// The number of matches of `pattern` in `text` (`Regex::find_iter(..).count()`).
pub open spec fn match_count(pattern: Seq<char>, text: Seq<u8>) -> int {
    regex_captures(pattern, text).len() as int
}

pub fn count_matches(pattern: &str, text: &[u8]) -> (r: usize)
    ensures
        r == match_count(pattern@, text@),
        r <= text@.len() + 1,
{
    let ms = captures_all(pattern, text);
    proof {
        lemma_match_count(spans_view(ms@), text@.len() as int);
    }
    ms.len()
}

} // verus!
