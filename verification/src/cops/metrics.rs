//! Metrics cops, on the size and complexity of methods, classes, modules and
//! blocks, and security cops, on calls that run code or load untrusted data.

use vstd::prelude::*;

use crate::cop::{Category, Cop, Severity, checks_as, cop_at};
use crate::cops::style::stack_view;
use crate::offense::{Finding, FindingView, Message, Offense, finding, finding_views, report};
use crate::pattern::{
    captures_all, count_matches, first_match, first_match_exec, group, group_exec, groups_view, is_match,
    is_match_exec, match_count, match_wf, regex_captures, whole, whole_exec,
};
use crate::rule::{LineRule, MatchRule, all_lines, all_matches, append_findings, gather, one_if, push_if, run_lines, run_matches};
use crate::scan::{MatchCond, cond_matches, len_view, line_matches_outside, line_matches_outside_exec, matches_outside, scan_cond_matches, scan_matches_outside};
use crate::source::{SourceFile, SourceView, fits};
use crate::text::{bytes_of, contains, count_byte, decimal};
use crate::text::{contains_str, count_byte_exec};

verus! {

/// Line `i` (0-based) matches `p`, and its first byte is not inside a string
/// or a comment.
pub open spec fn marks(src: SourceView, i: int, p: Seq<char>) -> bool {
    is_match(p, src.lines[i]) && !src.in_string_or_comment(i + 1, 1)
}

fn marks_exec(src: &SourceFile, i: usize, p: &str) -> (r: bool)
    requires
        i < src@.lines.len(),
    ensures
        r == marks(src@, i as int, p@),
{
    is_match_exec(p, src.line_at(i)) && !src.in_string_or_comment(i + 1, 1)
}

/// `head`, the count `n`, `mid`, the limit `max` and a closing parenthesis,
/// as in "Method has 12 lines (max 10)".
pub open spec fn count_msg(head: Seq<u8>, n: int, mid: Seq<u8>, max: int) -> Seq<u8> {
    head + decimal(n as nat) + mid + decimal(max as nat) + bytes_of(")")
}

fn count_message(head: &str, n: u128, mid: &str, max: usize) -> (r: Message)
    ensures
        r@ == count_msg(bytes_of(head), n as int, bytes_of(mid), max as int),
{
    let mut m = Message::from_str(head);
    m.push_decimal(n);
    m.push_str(mid);
    m.push_decimal(max as u128);
    m.push_str(")");
    m
}

/// A line number as a spec value.
pub open spec fn opt_view(o: Option<usize>) -> Option<int> {
    match o {
        Some(x) => Some(x as int),
        None => None,
    }
}

// ---------------------------------------------------------------------------
// Definitions that open with a keyword and close with a bare `end`
// ---------------------------------------------------------------------------

/// After the first `n` lines: the nesting depth of the definitions that
/// match `q` against bare `end`s, the line of the open definition matching
/// `p` that opened at depth 0, and the findings so far. That definition is
/// reported at its opening line, when the depth comes back to 0, if it spans
/// more than `max` lines.
pub open spec fn span_fold(src: SourceView, p: Seq<char>, q: Seq<char>, max: int, head: Seq<u8>, width: int, n: int) -> (
    int,
    Option<int>,
    Seq<FindingView>,
)
    decreases n,
{
    if n <= 0 {
        (0, None, seq![])
    } else {
        let prev = span_fold(src, p, q, max, head, width, n - 1);
        let opens = marks(src, n - 1, p);
        let depth = if marks(src, n - 1, q) {
            prev.0 + 1
        } else {
            prev.0
        };
        let start = if opens && prev.0 == 0 {
            Some(n)
        } else {
            prev.1
        };
        if marks(src, n - 1, r"^\s*end\s*$"@) {
            if depth - 1 == 0 && start is Some {
                let length = n - start->Some_0 + 1;
                (
                    0,
                    None,
                    prev.2 + one_if(
                        length > max,
                        finding(start->Some_0, 1, width, count_msg(head, length, bytes_of(" lines (max "), max)),
                    ),
                )
            } else {
                (depth - 1, start, prev.2)
            }
        } else {
            (depth, start, prev.2)
        }
    }
}

proof fn lemma_span_bounds(src: SourceView, p: Seq<char>, q: Seq<char>, max: int, head: Seq<u8>, width: int, n: int)
    requires
        0 <= n,
    ensures
        -n <= span_fold(src, p, q, max, head, width, n).0 <= n,
        span_fold(src, p, q, max, head, width, n).1 is Some ==> 1 <= span_fold(src, p, q, max, head, width, n).1->Some_0 <= n,
    decreases n,
{
    if n > 0 {
        lemma_span_bounds(src, p, q, max, head, width, n - 1);
    }
}

/// The findings of `span_fold` over the whole file.
fn scan_spans(src: &SourceFile, p: &str, q: &str, max: usize, head: &str, width: usize) -> (r: Vec<Finding>)
    ensures
        finding_views(r@) == span_fold(src@, p@, q@, max as int, bytes_of(head), width as int, src@.lines.len() as int).2,
{
    let n = src.line_count();
    let mut out: Vec<Finding> = Vec::new();
    let mut depth: i64 = 0;
    let mut start: Option<usize> = None;
    let mut i: usize = 0;
    while i < n
        invariant
            i <= n,
            n == src@.lines.len(),
            fits(src@),
            span_fold(src@, p@, q@, max as int, bytes_of(head), width as int, i as int) == (
                depth as int,
                opt_view(start),
                finding_views(out@),
            ),
        decreases n - i,
    {
        proof {
            lemma_span_bounds(src@, p@, q@, max as int, bytes_of(head), width as int, i as int);
        }
        if marks_exec(src, i, p) && depth == 0 {
            start = Some(i + 1);
        }
        if marks_exec(src, i, q) {
            depth = depth + 1;
        }
        if marks_exec(src, i, r"^\s*end\s*$") {
            depth = depth - 1;
            if depth == 0 {
                match start {
                    Some(st) => {
                        let length = i + 1 - st + 1;
                        let m = count_message(head, length as u128, " lines (max ", max);
                        push_if(&mut out, length > max, Finding::new(st, 1, width, m));
                        start = None;
                    },
                    None => {},
                }
            }
        }
        i = i + 1;
    }
    out
}

// ---------------------------------------------------------------------------
// Blocks: `do` or `{` against `end` or `}`
// ---------------------------------------------------------------------------

/// After the first `n` lines: the opening lines of the open blocks, and the
/// findings so far. A line that closes a block pops the innermost one, which
/// is reported when it spans more than `max` lines.
pub open spec fn block_fold(src: SourceView, max: int, n: int) -> (Seq<int>, Seq<FindingView>)
    decreases n,
{
    if n <= 0 {
        (seq![], seq![])
    } else {
        let prev = block_fold(src, max, n - 1);
        let st = if marks(src, n - 1, r"(\bdo\b|\{)"@) {
            prev.0.push(n)
        } else {
            prev.0
        };
        if marks(src, n - 1, r"(\bend\b|\})"@) && st.len() > 0 {
            let length = n - st.last() + 1;
            (
                st.drop_last(),
                prev.1 + one_if(
                    length > max,
                    finding(st.last(), 1, 2, count_msg(bytes_of("Block has "), length, bytes_of(" lines (max "), max)),
                ),
            )
        } else {
            (st, prev.1)
        }
    }
}

proof fn lemma_block_stack_bounds(src: SourceView, max: int, n: int)
    requires
        0 <= n,
    ensures
        block_fold(src, max, n).0.len() <= n,
        forall|k: int| 0 <= k < block_fold(src, max, n).0.len() ==> 1 <= #[trigger] block_fold(src, max, n).0[k] <= n,
    decreases n,
{
    if n > 0 {
        lemma_block_stack_bounds(src, max, n - 1);
    }
}

/// After the first `n` lines: the block nesting depth, and a finding for each
/// line that opens a block beyond depth `max`.
pub open spec fn nesting_fold(src: SourceView, max: int, n: int) -> (int, Seq<FindingView>)
    decreases n,
{
    if n <= 0 {
        (0, seq![])
    } else {
        let prev = nesting_fold(src, max, n - 1);
        let opens = marks(src, n - 1, r"(\bdo\b|\{)"@);
        let depth = if opens {
            prev.0 + 1
        } else {
            prev.0
        };
        let f = one_if(
            opens && depth > max,
            finding(
                n,
                1,
                src.lines[n - 1].len() as int,
                count_msg(bytes_of("Block nesting depth is "), depth, bytes_of(" (max "), max),
            ),
        );
        let after = if marks(src, n - 1, r"(\bend\b|\})"@) && depth > 0 {
            depth - 1
        } else {
            depth
        };
        (after, prev.1 + f)
    }
}

proof fn lemma_nesting_bounds(src: SourceView, max: int, n: int)
    requires
        0 <= n,
    ensures
        0 <= nesting_fold(src, max, n).0 <= n,
    decreases n,
{
    if n > 0 {
        lemma_nesting_bounds(src, max, n - 1);
    }
}

// ---------------------------------------------------------------------------
// Method scores: cyclomatic complexity and ABC size
// ---------------------------------------------------------------------------

/// A byte of a word, for word boundaries: an ASCII letter, digit or
/// underscore, or a byte of a multi-byte character.
pub open spec fn is_word_byte(b: u8) -> bool {
    (48u8 <= b && b <= 57u8) || (65u8 <= b && b <= 90u8) || (97u8 <= b && b <= 122u8) || b == 95u8 || b >= 128u8
}

/// Byte `p` of `l` exists and belongs to a word.
pub open spec fn word_at(l: Seq<u8>, p: int) -> bool {
    0 <= p < l.len() && is_word_byte(l[p])
}

/// A word boundary before byte `p`: a word byte on exactly one side.
pub open spec fn boundary(l: Seq<u8>, p: int) -> bool {
    word_at(l, p - 1) != word_at(l, p)
}

/// `w` stands at byte `p` of `l` between word boundaries.
pub open spec fn keyword_at(l: Seq<u8>, p: int, w: Seq<u8>) -> bool {
    &&& 0 <= p
    &&& p + w.len() <= l.len()
    &&& l.subrange(p, p + w.len()) == w
    &&& boundary(l, p)
    &&& boundary(l, p + w.len())
}

/// The length of the decision keyword at byte `p`, or 0: `if`, `unless`,
/// `while`, `until`, `for`, `rescue`, `when`, `&&` or `||`, tried in that
/// order.
pub open spec fn decision_len_at(l: Seq<u8>, p: int) -> int {
    if keyword_at(l, p, seq![105u8, 102u8]) {
        2
    } else if keyword_at(l, p, seq![117u8, 110u8, 108u8, 101u8, 115u8, 115u8]) {
        6
    } else if keyword_at(l, p, seq![119u8, 104u8, 105u8, 108u8, 101u8]) {
        5
    } else if keyword_at(l, p, seq![117u8, 110u8, 116u8, 105u8, 108u8]) {
        5
    } else if keyword_at(l, p, seq![102u8, 111u8, 114u8]) {
        3
    } else if keyword_at(l, p, seq![114u8, 101u8, 115u8, 99u8, 117u8, 101u8]) {
        6
    } else if keyword_at(l, p, seq![119u8, 104u8, 101u8, 110u8]) {
        4
    } else if keyword_at(l, p, seq![38u8, 38u8]) {
        2
    } else if keyword_at(l, p, seq![124u8, 124u8]) {
        2
    } else {
        0
    }
}

/// The decision keywords from byte `p` on, found left to right, each search
/// going on after the keyword found.
pub open spec fn decisions_from(l: Seq<u8>, p: int) -> nat
    decreases l.len() - p,
{
    if p < 0 || p >= l.len() {
        0
    } else {
        let n = decision_len_at(l, p);
        if n > 0 {
            1 + decisions_from(l, p + n)
        } else {
            decisions_from(l, p + 1)
        }
    }
}

/// The decision points that a line adds to a method's cyclomatic complexity.
pub open spec fn decisions(l: Seq<u8>) -> int {
    decisions_from(l, 0) as int
}

/// The number of positions `q` in `[a, b)` where `pred` holds.
pub open spec fn count_range(a: int, b: int, pred: spec_fn(int) -> bool) -> nat
    decreases b - a,
{
    if a >= b {
        0
    } else {
        (if pred(a) {
            1nat
        } else {
            0nat
        }) + count_range(a + 1, b, pred)
    }
}

proof fn lemma_count_range_skip(a: int, c: int, b: int, pred: spec_fn(int) -> bool)
    requires
        a <= c <= b,
        forall|q: int| a <= q < c ==> !#[trigger] pred(q),
    ensures
        count_range(a, b, pred) == count_range(c, b, pred),
    decreases c - a,
{
    if a < c {
        lemma_count_range_skip(a + 1, c, b, pred);
    }
}

/// The decision keywords counted one by one: `decisions_from` counts exactly
/// the positions where one of them stands between word boundaries.
proof fn lemma_decisions_from(l: Seq<u8>, p: int, occ: spec_fn(int) -> bool)
    requires
        0 <= p <= l.len(),
        forall|q: int| #[trigger] occ(q) == (
            keyword_at(l, q, seq![105u8, 102u8])
            || keyword_at(l, q, seq![117u8, 110u8, 108u8, 101u8, 115u8, 115u8])
            || keyword_at(l, q, seq![119u8, 104u8, 105u8, 108u8, 101u8])
            || keyword_at(l, q, seq![117u8, 110u8, 116u8, 105u8, 108u8])
            || keyword_at(l, q, seq![102u8, 111u8, 114u8])
            || keyword_at(l, q, seq![114u8, 101u8, 115u8, 99u8, 117u8, 101u8])
            || keyword_at(l, q, seq![119u8, 104u8, 101u8, 110u8])
            || keyword_at(l, q, seq![38u8, 38u8])
            || keyword_at(l, q, seq![124u8, 124u8])),
    ensures
        decisions_from(l, p) == count_range(p, l.len() as int, occ),
    decreases l.len() - p,
{
    if p < l.len() {
        let n = decision_len_at(l, p);
        lemma_decisions_from(l, p + 1, occ);
        if n > 0 {
            assert(occ(p));
            assert(p + n <= l.len());
            assert forall|q: int| p + 1 <= q < p + n implies !#[trigger] occ(q) by {
                // Inside a keyword no word boundary falls: its bytes are all
                // letters, or both `&` or both `|`.
                assert(l[q - 1] == l.subrange(p, p + n)[q - 1 - p]);
                assert(l[q] == l.subrange(p, p + n)[q - p]);
                assert(!boundary(l, q));
            }
            lemma_count_range_skip(p + 1, p + n, l.len() as int, occ);
            lemma_decisions_from(l, p + n, occ);
        } else {
            assert(!occ(p));
        }
    }
}

/// Byte `p` of `l` is a word character as a regex `\b` sees it: an ASCII
/// letter, digit or underscore, or a byte of a multi-byte character.
pub open spec fn regex_word(l: Seq<u8>, p: int) -> bool {
    0 <= p < l.len() && ((48u8 <= l[p] && l[p] <= 57u8) || (65u8 <= l[p] && l[p] <= 90u8) || (97u8 <= l[p]
        && l[p] <= 122u8) || l[p] == 95u8 || l[p] >= 128u8)
}

/// The text `w` stands at byte `p` of `l`, with a word character on exactly
/// one side of its start and on exactly one side of its end.
pub open spec fn stands_alone(l: Seq<u8>, p: int, w: Seq<u8>) -> bool {
    &&& 0 <= p
    &&& p + w.len() <= l.len()
    &&& l.subrange(p, p + w.len()) == w
    &&& regex_word(l, p - 1) != regex_word(l, p)
    &&& regex_word(l, p + w.len() - 1) != regex_word(l, p + w.len())
}

/// A line adds to a method's cyclomatic complexity one for each place where
/// `if`, `unless`, `while`, `until`, `for`, `rescue`, `when`, `&&` or `||`
/// stands alone.
pub proof fn law_decisions_count_keywords(l: Seq<u8>)
    ensures
        decisions(l) == count_range(
            0,
            l.len() as int,
            |q: int|
                stands_alone(l, q, seq![105u8, 102u8])
                || stands_alone(l, q, seq![117u8, 110u8, 108u8, 101u8, 115u8, 115u8])
                || stands_alone(l, q, seq![119u8, 104u8, 105u8, 108u8, 101u8])
                || stands_alone(l, q, seq![117u8, 110u8, 116u8, 105u8, 108u8])
                || stands_alone(l, q, seq![102u8, 111u8, 114u8])
                || stands_alone(l, q, seq![114u8, 101u8, 115u8, 99u8, 117u8, 101u8])
                || stands_alone(l, q, seq![119u8, 104u8, 101u8, 110u8])
                || stands_alone(l, q, seq![38u8, 38u8])
                || stands_alone(l, q, seq![124u8, 124u8]),
        ),
{
    let occ = |q: int|
        keyword_at(l, q, seq![105u8, 102u8])
                || keyword_at(l, q, seq![117u8, 110u8, 108u8, 101u8, 115u8, 115u8])
                || keyword_at(l, q, seq![119u8, 104u8, 105u8, 108u8, 101u8])
                || keyword_at(l, q, seq![117u8, 110u8, 116u8, 105u8, 108u8])
                || keyword_at(l, q, seq![102u8, 111u8, 114u8])
                || keyword_at(l, q, seq![114u8, 101u8, 115u8, 99u8, 117u8, 101u8])
                || keyword_at(l, q, seq![119u8, 104u8, 101u8, 110u8])
                || keyword_at(l, q, seq![38u8, 38u8])
                || keyword_at(l, q, seq![124u8, 124u8]);
    let alone = |q: int|
        stands_alone(l, q, seq![105u8, 102u8])
                || stands_alone(l, q, seq![117u8, 110u8, 108u8, 101u8, 115u8, 115u8])
                || stands_alone(l, q, seq![119u8, 104u8, 105u8, 108u8, 101u8])
                || stands_alone(l, q, seq![117u8, 110u8, 116u8, 105u8, 108u8])
                || stands_alone(l, q, seq![102u8, 111u8, 114u8])
                || stands_alone(l, q, seq![114u8, 101u8, 115u8, 99u8, 117u8, 101u8])
                || stands_alone(l, q, seq![119u8, 104u8, 101u8, 110u8])
                || stands_alone(l, q, seq![38u8, 38u8])
                || stands_alone(l, q, seq![124u8, 124u8]);
    assert forall|q: int| #[trigger] occ(q) == alone(q) by {
        assert forall|w: Seq<u8>| keyword_at(l, q, w) == stands_alone(l, q, w) by {
            if q >= 0 && q + w.len() <= l.len() && w.len() > 0 {
                assert(word_at(l, q + w.len() - 1) == regex_word(l, q + w.len() - 1));
            }
        }
    }
    lemma_decisions_from(l, 0, occ);
    lemma_count_range_eq(0, l.len() as int, occ, alone);
}

proof fn lemma_count_range_eq(a: int, b: int, p1: spec_fn(int) -> bool, p2: spec_fn(int) -> bool)
    requires
        forall|q: int| #[trigger] p1(q) == p2(q),
    ensures
        count_range(a, b, p1) == count_range(a, b, p2),
    decreases b - a,
{
    if a < b {
        lemma_count_range_eq(a + 1, b, p1, p2);
    }
}

fn is_word_byte_exec(b: u8) -> (r: bool)
    ensures
        r == is_word_byte(b),
{
    (48u8 <= b && b <= 57u8) || (65u8 <= b && b <= 90u8) || (97u8 <= b && b <= 122u8) || b == 95u8 || b >= 128u8
}

fn boundary_exec(l: &[u8], p: usize) -> (r: bool)
    requires
        p <= l@.len(),
    ensures
        r == boundary(l@, p as int),
{
    let before = p >= 1 && is_word_byte_exec(l[p - 1]);
    let after = p < l.len() && is_word_byte_exec(l[p]);
    before != after
}

fn keyword_at_exec(l: &[u8], p: usize, w: &[u8]) -> (r: bool)
    requires
        p <= l@.len(),
    ensures
        r == keyword_at(l@, p as int, w@),
{
    if l.len() - p < w.len() {
        return false;
    }
    let n = l.len();
    let mut k: usize = 0;
    while k < w.len()
        invariant
            n == l@.len(),
            p + w@.len() <= l@.len(),
            k <= w@.len(),
            forall|j: int| 0 <= j < k ==> l@[p + j] == w@[j],
        decreases w.len() - k,
    {
        if l[p + k] != w[k] {
            assert(l@.subrange(p as int, p + w@.len())[k as int] != w@[k as int]);
            return false;
        }
        k = k + 1;
    }
    assert(l@.subrange(p as int, p + w@.len()) =~= w@);
    boundary_exec(l, p) && boundary_exec(l, p + w.len())
}

fn decision_len_at_exec(l: &[u8], p: usize) -> (r: usize)
    requires
        p <= l@.len(),
    ensures
        r == decision_len_at(l@, p as int),
{
    if keyword_at_exec(l, p, &[105u8, 102u8]) {
        2
    } else if keyword_at_exec(l, p, &[117u8, 110u8, 108u8, 101u8, 115u8, 115u8]) {
        6
    } else if keyword_at_exec(l, p, &[119u8, 104u8, 105u8, 108u8, 101u8]) {
        5
    } else if keyword_at_exec(l, p, &[117u8, 110u8, 116u8, 105u8, 108u8]) {
        5
    } else if keyword_at_exec(l, p, &[102u8, 111u8, 114u8]) {
        3
    } else if keyword_at_exec(l, p, &[114u8, 101u8, 115u8, 99u8, 117u8, 101u8]) {
        6
    } else if keyword_at_exec(l, p, &[119u8, 104u8, 101u8, 110u8]) {
        4
    } else if keyword_at_exec(l, p, &[38u8, 38u8]) {
        2
    } else if keyword_at_exec(l, p, &[124u8, 124u8]) {
        2
    } else {
        0
    }
}

/// The decision keywords of a line, as `decisions` counts them.
pub fn count_decisions(l: &[u8]) -> (r: usize)
    ensures
        r == decisions(l@),
        r <= l@.len(),
{
    let mut p: usize = 0;
    let mut c: usize = 0;
    while p < l.len()
        invariant
            p <= l@.len(),
            c <= p,
            decisions_from(l@, 0) == c + decisions_from(l@, p as int),
        decreases l.len() - p,
    {
        let n = decision_len_at_exec(l, p);
        if n > 0 {
            c = c + 1;
            p = p + n;
        } else {
            p = p + 1;
        }
    }
    c
}

/// The assignments, branches and conditions that a line adds to a method's ABC size.
pub open spec fn abc_points(l: Seq<u8>) -> int {
    match_count(r"[=]"@, l) + match_count(r"\b(if|unless|case|while|until)\b"@, l) + match_count(r"(&&|\|\|)"@, l)
}

/// What a line adds to the score: ABC points, or else decision points.
pub open spec fn line_score(abc: bool, l: Seq<u8>) -> int {
    if abc {
        abc_points(l)
    } else {
        decisions(l)
    }
}

/// The score of a method before its first line is counted: 0 for ABC size,
/// 1 for cyclomatic complexity.
pub open spec fn base_score(abc: bool) -> int {
    if abc {
        0
    } else {
        1
    }
}

pub open spec fn score_msg(abc: bool, s: int, max: int) -> Seq<u8> {
    count_msg(
        if abc {
            bytes_of("ABC size is ")
        } else {
            bytes_of("Cyclomatic complexity is ")
        },
        s,
        bytes_of(" (max "),
        max,
    )
}

/// After the first `n` lines: the nesting depth of `def`s against bare
/// `end`s, the line of the outermost open method, its score so far, and the
/// findings so far. The score restarts at each outermost `def`, counts every
/// line while the depth is positive, and is reported at the `def` when the
/// method closes with a score above `max`.
pub open spec fn score_fold(src: SourceView, abc: bool, max: int, n: int) -> (int, Option<int>, int, Seq<FindingView>)
    decreases n,
{
    if n <= 0 {
        (0, None, base_score(abc), seq![])
    } else {
        let prev = score_fold(src, abc, max, n - 1);
        let opens = marks(src, n - 1, r"^\s*def\s+"@);
        let fresh = opens && prev.0 == 0;
        let depth = if opens {
            prev.0 + 1
        } else {
            prev.0
        };
        let start = if fresh {
            Some(n)
        } else {
            prev.1
        };
        let s0 = if fresh {
            base_score(abc)
        } else {
            prev.2
        };
        let score = if depth > 0 {
            s0 + line_score(abc, src.lines[n - 1])
        } else {
            s0
        };
        if marks(src, n - 1, r"^\s*end\s*$"@) {
            if depth - 1 == 0 && start is Some {
                (0, None, score, prev.3 + one_if(score > max, finding(start->Some_0, 1, 3, score_msg(abc, score, max))))
            } else {
                (depth - 1, start, score, prev.3)
            }
        } else {
            (depth, start, score, prev.3)
        }
    }
}

/// Each finding of `score_fold` is on a line that opens a method (`def`),
/// at column 1, and reports a score above `max`.
pub open spec fn over_limit_reports(src: SourceView, abc: bool, max: int, fs: Seq<FindingView>) -> bool {
    forall|j: int|
        0 <= j < fs.len() ==> {
            let f = #[trigger] fs[j];
            &&& 1 <= f.line <= src.lines.len()
            &&& marks(src, f.line - 1, r"^\s*def\s+"@)
            &&& f.column == 1
            &&& exists|s: int| s > max && f.message == #[trigger] score_msg(abc, s, max)
        }
}

proof fn lemma_score_reports(src: SourceView, abc: bool, max: int, n: int)
    requires
        0 <= n <= src.lines.len(),
    ensures
        score_fold(src, abc, max, n).1 matches Some(st) ==> 1 <= st <= n && marks(src, st - 1, r"^\s*def\s+"@),
        over_limit_reports(src, abc, max, score_fold(src, abc, max, n).3),
    decreases n,
{
    if n > 0 {
        lemma_score_reports(src, abc, max, n - 1);
        let prev = score_fold(src, abc, max, n - 1);
        let cur = score_fold(src, abc, max, n);
        assert(prev.3.is_prefix_of(cur.3));
        assert forall|j: int| 0 <= j < cur.3.len() implies {
            let f = #[trigger] cur.3[j];
            &&& 1 <= f.line <= src.lines.len()
            &&& marks(src, f.line - 1, r"^\s*def\s+"@)
            &&& f.column == 1
            &&& exists|s: int| s > max && f.message == #[trigger] score_msg(abc, s, max)
        } by {
            if j < prev.3.len() {
                assert(cur.3[j] == prev.3[j]);
            } else {
                assert(cur.3[j].message == score_msg(abc, cur.2, max));
            }
        }
    }
}

/// AbcSize reports only methods over its limit: each finding is on a `def`
/// line, at column 1, and reports a score above the limit.
pub proof fn law_abc_size_reports_only_over_limit(c: AbcSize, src: SourceView)
    ensures
        over_limit_reports(src, true, c.limit(), c.spec_check(src)),
{
    lemma_score_reports(src, true, c.limit(), src.lines.len() as int);
}

/// CyclomaticComplexity reports only methods over its limit: each finding is
/// on a `def` line, at column 1, and reports a complexity above the limit.
pub proof fn law_complexity_reports_only_over_limit(c: CyclomaticComplexity, src: SourceView)
    ensures
        over_limit_reports(src, false, c.limit(), c.spec_check(src)),
{
    lemma_score_reports(src, false, c.limit(), src.lines.len() as int);
}

proof fn lemma_score_bounds(src: SourceView, abc: bool, max: int, n: int)
    requires
        0 <= n,
    ensures
        -n <= score_fold(src, abc, max, n).0 <= n,
        score_fold(src, abc, max, n).1 is Some ==> 1 <= score_fold(src, abc, max, n).1->Some_0 <= n,
    decreases n,
{
    if n > 0 {
        lemma_score_bounds(src, abc, max, n - 1);
    }
}

fn line_score_exec(abc: bool, l: &[u8]) -> (r: u128)
    requires
        l@.len() <= isize::MAX,
    ensures
        r == line_score(abc, l@),
        r <= 0x1_8000_0000_0000_0000,
{
    if abc {
        let a = count_matches(r"[=]", l);
        let b = count_matches(r"\b(if|unless|case|while|until)\b", l);
        let c = count_matches(r"(&&|\|\|)", l);
        a as u128 + b as u128 + c as u128
    } else {
        count_decisions(l) as u128
    }
}

/// The findings of `score_fold` over the whole file.
fn scan_scores(src: &SourceFile, abc: bool, max: usize) -> (r: Vec<Finding>)
    ensures
        finding_views(r@) == score_fold(src@, abc, max as int, src@.lines.len() as int).3,
{
    let n = src.line_count();
    let mut out: Vec<Finding> = Vec::new();
    let mut depth: i64 = 0;
    let mut start: Option<usize> = None;
    let base: u128 = if abc {
        0
    } else {
        1
    };
    let mut score: u128 = base;
    let mut i: usize = 0;
    while i < n
        invariant
            i <= n,
            n == src@.lines.len(),
            fits(src@),
            base == base_score(abc),
            score <= 1 + i * 0x1_8000_0000_0000_0000,
            score_fold(src@, abc, max as int, i as int) == (
                depth as int,
                opt_view(start),
                score as int,
                finding_views(out@),
            ),
        decreases n - i,
    {
        proof {
            lemma_score_bounds(src@, abc, max as int, i as int);
        }
        if marks_exec(src, i, r"^\s*def\s+") {
            if depth == 0 {
                start = Some(i + 1);
                score = base;
            }
            depth = depth + 1;
        }
        if depth > 0 {
            let c = line_score_exec(abc, src.line_at(i));
            score = score + c;
        }
        if marks_exec(src, i, r"^\s*end\s*$") {
            depth = depth - 1;
            if depth == 0 {
                match start {
                    Some(st) => {
                        let m = count_message(
                            if abc {
                                "ABC size is "
                            } else {
                                "Cyclomatic complexity is "
                            },
                            score,
                            " (max ",
                            max,
                        );
                        push_if(&mut out, score > max as u128, Finding::new(st, 1, 3, m));
                        start = None;
                    },
                    None => {},
                }
            }
        }
        i = i + 1;
    }
    out
}

/// Reports a method definition that spans more lines than the limit, from its `def` to the bare `end` that closes it; nested `def`s nest.
pub struct MethodLength {
    max_lines: usize,
}

impl MethodLength {
    /// The limit this cop reports beyond.
    pub closed spec fn limit(&self) -> int {
        self.max_lines as int
    }

    /// The cop with its default limit, 10.
    pub fn new() -> (r: Self)
        ensures
            r.limit() == 10,
    {
        MethodLength { max_lines: 10 }
    }

    /// The cop with the given limit.
    pub fn with_max_lines(max_lines: usize) -> (r: Self)
        ensures
            r.limit() == max_lines,
    {
        MethodLength { max_lines }
    }
}

impl Default for MethodLength {
    fn default() -> (r: Self)
        ensures
            r.limit() == 10,
    {
        Self::new()
    }
}

impl Cop for MethodLength {
    open spec fn spec_name(&self) -> Seq<char> {
        "Metrics/MethodLength"@
    }

    open spec fn spec_category(&self) -> Category {
        Category::Metrics
    }

    open spec fn spec_severity(&self) -> Severity {
        Severity::Convention
    }

    open spec fn spec_check(&self, src: SourceView) -> Seq<FindingView> {
        span_fold(src, r"^\s*def\s+"@, r"^\s*def\s+"@, self.limit(), bytes_of("Method has "), 3, src.lines.len() as int).2
    }

    fn name(&self) -> (r: &str) {
        "Metrics/MethodLength"
    }

    fn category(&self) -> (r: Category) {
        Category::Metrics
    }

    fn severity(&self) -> (r: Severity) {
        Severity::Convention
    }

    open spec fn spec_description(&self) -> Seq<char> {
        "Methods should not be too long"@
    }

    fn description(&self) -> (r: &str) {
        "Methods should not be too long"
    }

    fn check(&self, source: &SourceFile) -> (r: Vec<Offense>) {
        let fs = scan_spans(source, r"^\s*def\s+", r"^\s*def\s+", self.max_lines, "Method has ", 3);
        report(self.name(), self.severity(), fs)
    }
}

/// Reports a class definition that spans more lines than the limit, from its `class` to the bare `end` that closes it; the `def`, `class` and `module` definitions inside it nest.
pub struct ClassLength {
    max_lines: usize,
}

impl ClassLength {
    /// The limit this cop reports beyond.
    pub closed spec fn limit(&self) -> int {
        self.max_lines as int
    }

    /// The cop with its default limit, 100.
    pub fn new() -> (r: Self)
        ensures
            r.limit() == 100,
    {
        ClassLength { max_lines: 100 }
    }

    /// The cop with the given limit.
    pub fn with_max_lines(max_lines: usize) -> (r: Self)
        ensures
            r.limit() == max_lines,
    {
        ClassLength { max_lines }
    }
}

impl Default for ClassLength {
    fn default() -> (r: Self)
        ensures
            r.limit() == 100,
    {
        Self::new()
    }
}

impl Cop for ClassLength {
    open spec fn spec_name(&self) -> Seq<char> {
        "Metrics/ClassLength"@
    }

    open spec fn spec_category(&self) -> Category {
        Category::Metrics
    }

    open spec fn spec_severity(&self) -> Severity {
        Severity::Convention
    }

    open spec fn spec_check(&self, src: SourceView) -> Seq<FindingView> {
        span_fold(src, r"^\s*class\s+"@, r"^\s*(def|class|module)\s+"@, self.limit(), bytes_of("Class has "), 5, src.lines.len() as int).2
    }

    fn name(&self) -> (r: &str) {
        "Metrics/ClassLength"
    }

    fn category(&self) -> (r: Category) {
        Category::Metrics
    }

    fn severity(&self) -> (r: Severity) {
        Severity::Convention
    }

    open spec fn spec_description(&self) -> Seq<char> {
        "Classes should not be too long"@
    }

    fn description(&self) -> (r: &str) {
        "Classes should not be too long"
    }

    fn check(&self, source: &SourceFile) -> (r: Vec<Offense>) {
        let fs = scan_spans(source, r"^\s*class\s+", r"^\s*(def|class|module)\s+", self.max_lines, "Class has ", 5);
        report(self.name(), self.severity(), fs)
    }
}

/// Reports a module definition that spans more lines than the limit, from its `module` to the bare `end` that closes it; the `def`, `class` and `module` definitions inside it nest.
pub struct ModuleLength {
    max_lines: usize,
}

impl ModuleLength {
    /// The limit this cop reports beyond.
    pub closed spec fn limit(&self) -> int {
        self.max_lines as int
    }

    /// The cop with its default limit, 100.
    pub fn new() -> (r: Self)
        ensures
            r.limit() == 100,
    {
        ModuleLength { max_lines: 100 }
    }

    /// The cop with the given limit.
    pub fn with_max_lines(max_lines: usize) -> (r: Self)
        ensures
            r.limit() == max_lines,
    {
        ModuleLength { max_lines }
    }
}

impl Default for ModuleLength {
    fn default() -> (r: Self)
        ensures
            r.limit() == 100,
    {
        Self::new()
    }
}

impl Cop for ModuleLength {
    open spec fn spec_name(&self) -> Seq<char> {
        "Metrics/ModuleLength"@
    }

    open spec fn spec_category(&self) -> Category {
        Category::Metrics
    }

    open spec fn spec_severity(&self) -> Severity {
        Severity::Convention
    }

    open spec fn spec_check(&self, src: SourceView) -> Seq<FindingView> {
        span_fold(src, r"^\s*module\s+"@, r"^\s*(def|class|module)\s+"@, self.limit(), bytes_of("Module has "), 6, src.lines.len() as int).2
    }

    fn name(&self) -> (r: &str) {
        "Metrics/ModuleLength"
    }

    fn category(&self) -> (r: Category) {
        Category::Metrics
    }

    fn severity(&self) -> (r: Severity) {
        Severity::Convention
    }

    open spec fn spec_description(&self) -> Seq<char> {
        "Modules should not be too long"@
    }

    fn description(&self) -> (r: &str) {
        "Modules should not be too long"
    }

    fn check(&self, source: &SourceFile) -> (r: Vec<Offense>) {
        let fs = scan_spans(source, r"^\s*module\s+", r"^\s*(def|class|module)\s+", self.max_lines, "Module has ", 6);
        report(self.name(), self.severity(), fs)
    }
}

/// Reports a block that spans more lines than the limit: blocks open with `do` or `{` and each closing `end` or `}` closes the innermost one.
pub struct BlockLength {
    max_lines: usize,
}

impl BlockLength {
    /// The limit this cop reports beyond.
    pub closed spec fn limit(&self) -> int {
        self.max_lines as int
    }

    /// The cop with its default limit, 25.
    pub fn new() -> (r: Self)
        ensures
            r.limit() == 25,
    {
        BlockLength { max_lines: 25 }
    }

    /// The cop with the given limit.
    pub fn with_max_lines(max_lines: usize) -> (r: Self)
        ensures
            r.limit() == max_lines,
    {
        BlockLength { max_lines }
    }
}

impl Default for BlockLength {
    fn default() -> (r: Self)
        ensures
            r.limit() == 25,
    {
        Self::new()
    }
}

impl Cop for BlockLength {
    open spec fn spec_name(&self) -> Seq<char> {
        "Metrics/BlockLength"@
    }

    open spec fn spec_category(&self) -> Category {
        Category::Metrics
    }

    open spec fn spec_severity(&self) -> Severity {
        Severity::Convention
    }

    open spec fn spec_check(&self, src: SourceView) -> Seq<FindingView> {
        block_fold(src, self.limit(), src.lines.len() as int).1
    }

    fn name(&self) -> (r: &str) {
        "Metrics/BlockLength"
    }

    fn category(&self) -> (r: Category) {
        Category::Metrics
    }

    fn severity(&self) -> (r: Severity) {
        Severity::Convention
    }

    open spec fn spec_description(&self) -> Seq<char> {
        "Blocks should not be too long"@
    }

    fn description(&self) -> (r: &str) {
        "Blocks should not be too long"
    }

    fn check(&self, source: &SourceFile) -> (r: Vec<Offense>) {
        let max = self.max_lines;
        let mut out: Vec<Finding> = Vec::new();
        let mut stack: Vec<usize> = Vec::new();
        let n = source.line_count();
        let mut i: usize = 0;
        while i < n
            invariant
                i <= n,
                n == source@.lines.len(),
                fits(source@),
                max == self.limit(),
                (stack_view(stack@), finding_views(out@)) == block_fold(source@, max as int, i as int),
            decreases n - i,
        {
            proof {
                lemma_block_stack_bounds(source@, max as int, i as int);
            }
            if marks_exec(source, i, r"(\bdo\b|\{)") {
                let ghost before = stack@;
                stack.push(i + 1);
                assert(stack_view(stack@) =~= stack_view(before).push(i + 1));
            }
            if marks_exec(source, i, r"(\bend\b|\})") && stack.len() > 0 {
                let ghost before = stack@;
                let start = stack.pop().unwrap();
                assert(stack_view(stack@) =~= stack_view(before).drop_last());
                assert(stack_view(before)[stack_view(before).len() - 1] == start as int);
                let length = i + 1 - start + 1;
                let m = count_message("Block has ", length as u128, " lines (max ", max);
                push_if(&mut out, length > max, Finding::new(start, 1, 2, m));
            }
            i = i + 1;
        }
        report(self.name(), self.severity(), out)
    }
}

/// Reports each line that opens a block (`do` or `{`) beyond the allowed nesting depth.
pub struct BlockNesting {
    max_depth: usize,
}

impl BlockNesting {
    /// The limit this cop reports beyond.
    pub closed spec fn limit(&self) -> int {
        self.max_depth as int
    }

    /// The cop with its default limit, 3.
    pub fn new() -> (r: Self)
        ensures
            r.limit() == 3,
    {
        BlockNesting { max_depth: 3 }
    }

    /// The cop with the given limit.
    pub fn with_max_depth(max_depth: usize) -> (r: Self)
        ensures
            r.limit() == max_depth,
    {
        BlockNesting { max_depth }
    }
}

impl Default for BlockNesting {
    fn default() -> (r: Self)
        ensures
            r.limit() == 3,
    {
        Self::new()
    }
}

impl Cop for BlockNesting {
    open spec fn spec_name(&self) -> Seq<char> {
        "Metrics/BlockNesting"@
    }

    open spec fn spec_category(&self) -> Category {
        Category::Metrics
    }

    open spec fn spec_severity(&self) -> Severity {
        Severity::Convention
    }

    open spec fn spec_check(&self, src: SourceView) -> Seq<FindingView> {
        nesting_fold(src, self.limit(), src.lines.len() as int).1
    }

    fn name(&self) -> (r: &str) {
        "Metrics/BlockNesting"
    }

    fn category(&self) -> (r: Category) {
        Category::Metrics
    }

    fn severity(&self) -> (r: Severity) {
        Severity::Convention
    }

    open spec fn spec_description(&self) -> Seq<char> {
        "Blocks should not be nested too deeply"@
    }

    fn description(&self) -> (r: &str) {
        "Blocks should not be nested too deeply"
    }

    fn check(&self, source: &SourceFile) -> (r: Vec<Offense>) {
        let max = self.max_depth;
        let mut out: Vec<Finding> = Vec::new();
        let mut depth: usize = 0;
        let n = source.line_count();
        let mut i: usize = 0;
        while i < n
            invariant
                i <= n,
                n == source@.lines.len(),
                fits(source@),
                max == self.limit(),
                (depth as int, finding_views(out@)) == nesting_fold(source@, max as int, i as int),
            decreases n - i,
        {
            proof {
                lemma_nesting_bounds(source@, max as int, i as int);
            }
            if marks_exec(source, i, r"(\bdo\b|\{)") {
                depth = depth + 1;
                let m = count_message("Block nesting depth is ", depth as u128, " (max ", max);
                push_if(&mut out, depth > max, Finding::new(i + 1, 1, source.line_at(i).len(), m));
            } else {
                push_if(&mut out, false, Finding::text(0, 0, 0, ""));
            }
            if marks_exec(source, i, r"(\bend\b|\})") && depth > 0 {
                depth = depth - 1;
            }
            i = i + 1;
        }
        report(self.name(), self.severity(), out)
    }
}

/// Reports a method definition whose parenthesised parameter list has more parameters than the limit.
pub struct ParameterLists {
    max_params: usize,
}

impl ParameterLists {
    /// The limit this cop reports beyond.
    pub closed spec fn limit(&self) -> int {
        self.max_params as int
    }

    /// The cop with its default limit, 5.
    pub fn new() -> (r: Self)
        ensures
            r.limit() == 5,
    {
        ParameterLists { max_params: 5 }
    }

    /// The cop with the given limit.
    pub fn with_max_params(max_params: usize) -> (r: Self)
        ensures
            r.limit() == max_params,
    {
        ParameterLists { max_params }
    }
}

impl Default for ParameterLists {
    fn default() -> (r: Self)
        ensures
            r.limit() == 5,
    {
        Self::new()
    }
}

impl LineRule for ParameterLists {
    /// The first method definition with a parenthesised parameter list, on a
    /// line that does not start inside a string or comment, with more
    /// parameters (commas plus one) than the limit.
    open spec fn spec_line(&self, src: SourceView, i: int) -> Seq<FindingView> {
        let l = src.lines[i];
        match first_match(r"def\s+\w+\(([^)]+)\)"@, l) {
            Some(m) => match group(m, 1) {
                Some(g) => {
                    let c = (count_byte(l.subrange(g.0, g.1), 44u8) + 1) as int;
                    one_if(
                        !src.in_string_or_comment(i + 1, 1) && c > self.limit(),
                        finding(i + 1, 1, 3, count_msg(bytes_of("Method has "), c, bytes_of(" parameters (max "), self.limit())),
                    )
                },
                None => seq![],
            },
            None => seq![],
        }
    }

    fn line_findings(&self, src: &SourceFile, i: usize) -> (r: Vec<Finding>) {
        let l = src.line_at(i);
        let mut out: Vec<Finding> = Vec::new();
        match first_match_exec(r"def\s+\w+\(([^)]+)\)", l) {
            Some(m) => {
                match group_exec(&m, 1) {
                    Some(g) => {
                        assert(groups_view(m@)[1] == Some((g.0 as int, g.1 as int)));
                        let c = count_byte_exec(&l[g.0..g.1], 44u8) + 1;
                        let msg = count_message("Method has ", c as u128, " parameters (max ", self.max_params);
                        let hit = !src.in_string_or_comment(i + 1, 1) && c > self.max_params;
                        push_if(&mut out, hit, Finding::new(i + 1, 1, 3, msg));
                    },
                    None => {},
                }
            },
            None => {},
        }
        out
    }
}

impl Cop for ParameterLists {
    open spec fn spec_name(&self) -> Seq<char> {
        "Metrics/ParameterLists"@
    }

    open spec fn spec_category(&self) -> Category {
        Category::Metrics
    }

    open spec fn spec_severity(&self) -> Severity {
        Severity::Convention
    }

    open spec fn spec_check(&self, src: SourceView) -> Seq<FindingView> {
        all_lines(self, src)
    }

    fn name(&self) -> (r: &str) {
        "Metrics/ParameterLists"
    }

    fn category(&self) -> (r: Category) {
        Category::Metrics
    }

    fn severity(&self) -> (r: Severity) {
        Severity::Convention
    }

    open spec fn spec_description(&self) -> Seq<char> {
        "Methods should not have too many parameters"@
    }

    fn description(&self) -> (r: &str) {
        "Methods should not have too many parameters"
    }

    fn check(&self, source: &SourceFile) -> (r: Vec<Offense>) {
        report(self.name(), self.severity(), run_lines(self, source))
    }
}

/// Reports a method whose cyclomatic complexity, one plus the decision keywords and operators on its lines, exceeds the limit.
pub struct CyclomaticComplexity {
    max_complexity: usize,
}

impl CyclomaticComplexity {
    /// The limit this cop reports beyond.
    pub closed spec fn limit(&self) -> int {
        self.max_complexity as int
    }

    /// The cop with its default limit, 10.
    pub fn new() -> (r: Self)
        ensures
            r.limit() == 10,
    {
        CyclomaticComplexity { max_complexity: 10 }
    }

    /// The cop with the given limit.
    pub fn with_max_complexity(max_complexity: usize) -> (r: Self)
        ensures
            r.limit() == max_complexity,
    {
        CyclomaticComplexity { max_complexity }
    }
}

impl Default for CyclomaticComplexity {
    fn default() -> (r: Self)
        ensures
            r.limit() == 10,
    {
        Self::new()
    }
}

impl Cop for CyclomaticComplexity {
    open spec fn spec_name(&self) -> Seq<char> {
        "Metrics/CyclomaticComplexity"@
    }

    open spec fn spec_category(&self) -> Category {
        Category::Metrics
    }

    open spec fn spec_severity(&self) -> Severity {
        Severity::Convention
    }

    open spec fn spec_check(&self, src: SourceView) -> Seq<FindingView> {
        score_fold(src, false, self.limit(), src.lines.len() as int).3
    }

    fn name(&self) -> (r: &str) {
        "Metrics/CyclomaticComplexity"
    }

    fn category(&self) -> (r: Category) {
        Category::Metrics
    }

    fn severity(&self) -> (r: Severity) {
        Severity::Convention
    }

    open spec fn spec_description(&self) -> Seq<char> {
        "Methods should not be too complex"@
    }

    fn description(&self) -> (r: &str) {
        "Methods should not be too complex"
    }

    fn check(&self, source: &SourceFile) -> (r: Vec<Offense>) {
        let fs = scan_scores(source, false, self.max_complexity);
        report(self.name(), self.severity(), fs)
    }
}

/// Reports a method whose ABC size, the assignments, branches and conditions on its lines, exceeds the limit.
pub struct AbcSize {
    max_size: usize,
}

impl AbcSize {
    /// The limit this cop reports beyond.
    pub closed spec fn limit(&self) -> int {
        self.max_size as int
    }

    /// The cop with its default limit, 20.
    pub fn new() -> (r: Self)
        ensures
            r.limit() == 20,
    {
        AbcSize { max_size: 20 }
    }

    /// The cop with the given limit.
    pub fn with_max_size(max_size: usize) -> (r: Self)
        ensures
            r.limit() == max_size,
    {
        AbcSize { max_size }
    }
}

impl Default for AbcSize {
    fn default() -> (r: Self)
        ensures
            r.limit() == 20,
    {
        Self::new()
    }
}

impl Cop for AbcSize {
    open spec fn spec_name(&self) -> Seq<char> {
        "Metrics/AbcSize"@
    }

    open spec fn spec_category(&self) -> Category {
        Category::Metrics
    }

    open spec fn spec_severity(&self) -> Severity {
        Severity::Convention
    }

    open spec fn spec_check(&self, src: SourceView) -> Seq<FindingView> {
        score_fold(src, true, self.limit(), src.lines.len() as int).3
    }

    fn name(&self) -> (r: &str) {
        "Metrics/AbcSize"
    }

    fn category(&self) -> (r: Category) {
        Category::Metrics
    }

    fn severity(&self) -> (r: Severity) {
        Severity::Convention
    }

    open spec fn spec_description(&self) -> Seq<char> {
        "Methods should not have high ABC size"@
    }

    fn description(&self) -> (r: &str) {
        "Methods should not have high ABC size"
    }

    fn check(&self, source: &SourceFile) -> (r: Vec<Offense>) {
        let fs = scan_scores(source, true, self.max_size);
        report(self.name(), self.severity(), fs)
    }
}

/// Reports an array or hash literal with more elements than the limit.
pub struct CollectionLiteralLength {
    max_length: usize,
}

impl CollectionLiteralLength {
    /// The limit this cop reports beyond.
    pub closed spec fn limit(&self) -> int {
        self.max_length as int
    }

    /// The cop with its default limit, 20.
    pub fn new() -> (r: Self)
        ensures
            r.limit() == 20,
    {
        CollectionLiteralLength { max_length: 20 }
    }

    /// The cop with the given limit.
    pub fn with_max_length(max_length: usize) -> (r: Self)
        ensures
            r.limit() == max_length,
    {
        CollectionLiteralLength { max_length }
    }
}

impl Default for CollectionLiteralLength {
    fn default() -> (r: Self)
        ensures
            r.limit() == 20,
    {
        Self::new()
    }
}

impl MatchRule for CollectionLiteralLength {
    /// A bracketed or braced literal with more elements (commas plus one)
    /// than the limit, on a line that does not start inside a string or
    /// comment, reported over the whole literal.
    open spec fn spec_match(&self, src: SourceView, i: int, m: Seq<Option<(int, int)>>) -> Seq<FindingView> {
        let l = src.lines[i];
        match group(m, 1) {
            Some(g) => {
                let c = (count_byte(l.subrange(g.0, g.1), 44u8) + 1) as int;
                one_if(
                    !src.in_string_or_comment(i + 1, 1) && c > self.limit(),
                    finding(
                        i + 1,
                        whole(m).0 + 1,
                        whole(m).1 - whole(m).0,
                        count_msg(bytes_of("Collection literal has "), c, bytes_of(" elements (max "), self.limit()),
                    ),
                )
            },
            None => seq![],
        }
    }

    fn match_findings(&self, src: &SourceFile, i: usize, m: &Vec<Option<(usize, usize)>>) -> (r: Vec<Finding>) {
        let l = src.line_at(i);
        let (s, e) = whole_exec(m, l.len());
        let mut out: Vec<Finding> = Vec::new();
        match group_exec(m, 1) {
            Some(g) => {
                assert(groups_view(m@)[1] == Some((g.0 as int, g.1 as int)));
                let c = count_byte_exec(&l[g.0..g.1], 44u8) + 1;
                let msg = count_message("Collection literal has ", c as u128, " elements (max ", self.max_length);
                let hit = !src.in_string_or_comment(i + 1, 1) && c > self.max_length;
                push_if(&mut out, hit, Finding::new(i + 1, s + 1, e - s, msg));
            },
            None => {},
        }
        out
    }
}

impl LineRule for CollectionLiteralLength {
    open spec fn spec_line(&self, src: SourceView, i: int) -> Seq<FindingView> {
        all_matches(self, src, i, regex_captures(r"[\[\{]\s*([^[\]{}]+)\s*[\]\}]"@, src.lines[i]))
    }

    fn line_findings(&self, src: &SourceFile, i: usize) -> (r: Vec<Finding>) {
        let ms = captures_all(r"[\[\{]\s*([^[\]{}]+)\s*[\]\}]", src.line_at(i));
        run_matches(self, src, i, &ms)
    }
}

impl Cop for CollectionLiteralLength {
    open spec fn spec_name(&self) -> Seq<char> {
        "Metrics/CollectionLiteralLength"@
    }

    open spec fn spec_category(&self) -> Category {
        Category::Metrics
    }

    open spec fn spec_severity(&self) -> Severity {
        Severity::Convention
    }

    open spec fn spec_check(&self, src: SourceView) -> Seq<FindingView> {
        all_lines(self, src)
    }

    fn name(&self) -> (r: &str) {
        "Metrics/CollectionLiteralLength"
    }

    fn category(&self) -> (r: Category) {
        Category::Metrics
    }

    fn severity(&self) -> (r: Severity) {
        Severity::Convention
    }

    open spec fn spec_description(&self) -> Seq<char> {
        "Collection literals should not be too long"@
    }

    fn description(&self) -> (r: &str) {
        "Collection literals should not be too long"
    }

    fn check(&self, source: &SourceFile) -> (r: Vec<Offense>) {
        report(self.name(), self.severity(), run_lines(self, source))
    }
}

/// Reports each call of `eval(` outside strings and comments.
pub struct Eval;

impl Cop for Eval {
    open spec fn spec_name(&self) -> Seq<char> {
        "Security/Eval"@
    }

    open spec fn spec_category(&self) -> Category {
        Category::Lint
    }

    open spec fn spec_severity(&self) -> Severity {
        Severity::Warning
    }

    open spec fn spec_check(&self, src: SourceView) -> Seq<FindingView> {
        matches_outside(src, r"\beval\s*\("@, None, bytes_of("Avoid using `eval` - it's a security risk."))
    }

    fn name(&self) -> (r: &str) {
        "Security/Eval"
    }

    fn category(&self) -> (r: Category) {
        Category::Lint
    }

    fn severity(&self) -> (r: Severity) {
        Severity::Warning
    }

    open spec fn spec_description(&self) -> Seq<char> {
        "Do not use eval - it's a security risk"@
    }

    fn description(&self) -> (r: &str) {
        "Do not use eval - it's a security risk"
    }

    fn check(&self, source: &SourceFile) -> (r: Vec<Offense>) {
        let fs = scan_matches_outside(source, r"\beval\s*\(", None, "Avoid using `eval` - it's a security risk.");
        report(self.name(), self.severity(), fs)
    }
}

/// Reports each call of `open(` outside strings and comments.
pub struct Open;

impl Cop for Open {
    open spec fn spec_name(&self) -> Seq<char> {
        "Security/Open"@
    }

    open spec fn spec_category(&self) -> Category {
        Category::Lint
    }

    open spec fn spec_severity(&self) -> Severity {
        Severity::Warning
    }

    open spec fn spec_check(&self, src: SourceView) -> Seq<FindingView> {
        matches_outside(src, r"\bopen\s*\("@, None, bytes_of("Using `open` can lead to command injection. Use `File.open` or `URI.open`."))
    }

    fn name(&self) -> (r: &str) {
        "Security/Open"
    }

    fn category(&self) -> (r: Category) {
        Category::Lint
    }

    fn severity(&self) -> (r: Severity) {
        Severity::Warning
    }

    open spec fn spec_description(&self) -> Seq<char> {
        "Using open with user input can lead to command injection"@
    }

    fn description(&self) -> (r: &str) {
        "Using open with user input can lead to command injection"
    }

    fn check(&self, source: &SourceFile) -> (r: Vec<Offense>) {
        let fs = scan_matches_outside(source, r"\bopen\s*\(", None, "Using `open` can lead to command injection. Use `File.open` or `URI.open`.");
        report(self.name(), self.severity(), fs)
    }
}

impl MatchCond for YAMLLoad {
    /// The match starts outside strings and comments, on a line that does not mention `safe_load`.
    open spec fn spec_ok(&self, src: SourceView, i: int, m: Seq<Option<(int, int)>>) -> bool {
        !src.in_string_or_comment(i + 1, whole(m).0 + 1) && !contains(src.lines[i], bytes_of("safe_load"))
    }

    fn ok(&self, src: &SourceFile, i: usize, m: &Vec<Option<(usize, usize)>>) -> (r: bool) {
        let l = src.line_at(i);
        let (s, _e) = whole_exec(m, l.len());
        !src.in_string_or_comment(i + 1, s + 1) && !contains_str(l, "safe_load")
    }
}

/// Reports each `YAML.load` outside strings and comments, on lines that do not mention `safe_load`.
pub struct YAMLLoad;

impl Cop for YAMLLoad {
    open spec fn spec_name(&self) -> Seq<char> {
        "Security/YAMLLoad"@
    }

    open spec fn spec_category(&self) -> Category {
        Category::Lint
    }

    open spec fn spec_severity(&self) -> Severity {
        Severity::Warning
    }

    open spec fn spec_check(&self, src: SourceView) -> Seq<FindingView> {
        cond_matches(self, src, r"\bYAML\.load\b"@, None, bytes_of("Use `YAML.safe_load` instead of `YAML.load`."))
    }

    fn name(&self) -> (r: &str) {
        "Security/YAMLLoad"
    }

    fn category(&self) -> (r: Category) {
        Category::Lint
    }

    fn severity(&self) -> (r: Severity) {
        Severity::Warning
    }

    open spec fn spec_description(&self) -> Seq<char> {
        "Use YAML.safe_load instead of YAML.load"@
    }

    fn description(&self) -> (r: &str) {
        "Use YAML.safe_load instead of YAML.load"
    }

    fn check(&self, source: &SourceFile) -> (r: Vec<Offense>) {
        let fs = scan_cond_matches(self, source, r"\bYAML\.load\b", None, "Use `YAML.safe_load` instead of `YAML.load`.");
        report(self.name(), self.severity(), fs)
    }
}

/// Reports each `JSON.load` outside strings and comments.
pub struct JSONLoad;

impl Cop for JSONLoad {
    open spec fn spec_name(&self) -> Seq<char> {
        "Security/JSONLoad"@
    }

    open spec fn spec_category(&self) -> Category {
        Category::Lint
    }

    open spec fn spec_severity(&self) -> Severity {
        Severity::Warning
    }

    open spec fn spec_check(&self, src: SourceView) -> Seq<FindingView> {
        matches_outside(src, r"\bJSON\.load\b"@, None, bytes_of("Use `JSON.parse` instead of `JSON.load`."))
    }

    fn name(&self) -> (r: &str) {
        "Security/JSONLoad"
    }

    fn category(&self) -> (r: Category) {
        Category::Lint
    }

    fn severity(&self) -> (r: Severity) {
        Severity::Warning
    }

    open spec fn spec_description(&self) -> Seq<char> {
        "Use JSON.parse instead of JSON.load"@
    }

    fn description(&self) -> (r: &str) {
        "Use JSON.parse instead of JSON.load"
    }

    fn check(&self, source: &SourceFile) -> (r: Vec<Offense>) {
        let fs = scan_matches_outside(source, r"\bJSON\.load\b", None, "Use `JSON.parse` instead of `JSON.load`.");
        report(self.name(), self.severity(), fs)
    }
}

/// Reports each `Marshal.load` outside strings and comments.
pub struct MarshalLoad;

impl Cop for MarshalLoad {
    open spec fn spec_name(&self) -> Seq<char> {
        "Security/MarshalLoad"@
    }

    open spec fn spec_category(&self) -> Category {
        Category::Lint
    }

    open spec fn spec_severity(&self) -> Severity {
        Severity::Warning
    }

    open spec fn spec_check(&self, src: SourceView) -> Seq<FindingView> {
        matches_outside(src, r"\bMarshal\.load\b"@, None, bytes_of("`Marshal.load` is unsafe with untrusted data."))
    }

    fn name(&self) -> (r: &str) {
        "Security/MarshalLoad"
    }

    fn category(&self) -> (r: Category) {
        Category::Lint
    }

    fn severity(&self) -> (r: Severity) {
        Severity::Warning
    }

    open spec fn spec_description(&self) -> Seq<char> {
        "Marshal.load is unsafe with untrusted data"@
    }

    fn description(&self) -> (r: &str) {
        "Marshal.load is unsafe with untrusted data"
    }

    fn check(&self, source: &SourceFile) -> (r: Vec<Offense>) {
        let fs = scan_matches_outside(source, r"\bMarshal\.load\b", None, "`Marshal.load` is unsafe with untrusted data.");
        report(self.name(), self.severity(), fs)
    }
}

/// Each call of a shell-running method on line `i`, method by method, in
/// the order `system`, `exec`, `spawn` and backtick.
pub open spec fn io_line(src: SourceView, i: int) -> Seq<FindingView> {
    line_matches_outside(src, i, r"\bsystem\b"@, None, bytes_of("Be careful with `system` - validate inputs to prevent command injection.")) + line_matches_outside(src, i, r"\bexec\b"@, None, bytes_of("Be careful with `exec` - validate inputs to prevent command injection.")) + line_matches_outside(src, i, r"\bspawn\b"@, None, bytes_of("Be careful with `spawn` - validate inputs to prevent command injection.")) + line_matches_outside(src, i, r"\b`\b"@, None, bytes_of("Be careful with ``` - validate inputs to prevent command injection."))
}

fn io_line_exec(src: &SourceFile, i: usize) -> (r: Vec<Finding>)
    requires
        i < src@.lines.len(),
    ensures
        finding_views(r@) == io_line(src@, i as int),
{
    let mut out: Vec<Finding> = Vec::new();
        let fs = line_matches_outside_exec(src, i, r"\bsystem\b", None, "Be careful with `system` - validate inputs to prevent command injection.");
        append_findings(&mut out, fs);
        let fs = line_matches_outside_exec(src, i, r"\bexec\b", None, "Be careful with `exec` - validate inputs to prevent command injection.");
        append_findings(&mut out, fs);
        let fs = line_matches_outside_exec(src, i, r"\bspawn\b", None, "Be careful with `spawn` - validate inputs to prevent command injection.");
        append_findings(&mut out, fs);
        let fs = line_matches_outside_exec(src, i, r"\b`\b", None, "Be careful with ``` - validate inputs to prevent command injection.");
        append_findings(&mut out, fs);
    out
}

impl LineRule for IoMethods {
    open spec fn spec_line(&self, src: SourceView, i: int) -> Seq<FindingView> {
        io_line(src, i)
    }

    fn line_findings(&self, src: &SourceFile, i: usize) -> (r: Vec<Finding>) {
        io_line_exec(src, i)
    }
}

/// Reports calls of `system`, `exec`, `spawn` and backticks outside strings and comments.
pub struct IoMethods;

impl Cop for IoMethods {
    open spec fn spec_name(&self) -> Seq<char> {
        "Security/IoMethods"@
    }

    open spec fn spec_category(&self) -> Category {
        Category::Lint
    }

    open spec fn spec_severity(&self) -> Severity {
        Severity::Warning
    }

    open spec fn spec_check(&self, src: SourceView) -> Seq<FindingView> {
        all_lines(self, src)
    }

    fn name(&self) -> (r: &str) {
        "Security/IoMethods"
    }

    fn category(&self) -> (r: Category) {
        Category::Lint
    }

    fn severity(&self) -> (r: Severity) {
        Severity::Warning
    }

    open spec fn spec_description(&self) -> Seq<char> {
        "Be careful with IO methods that execute shell commands"@
    }

    fn description(&self) -> (r: &str) {
        "Be careful with IO methods that execute shell commands"
    }

    fn check(&self, source: &SourceFile) -> (r: Vec<Offense>) {
        report(self.name(), self.severity(), run_lines(self, source))
    }
}

/// Reserved for compound hash checks; it reports nothing.
pub struct CompoundHash;

impl Cop for CompoundHash {
    open spec fn spec_name(&self) -> Seq<char> {
        "Security/CompoundHash"@
    }

    open spec fn spec_category(&self) -> Category {
        Category::Lint
    }

    open spec fn spec_severity(&self) -> Severity {
        Severity::Warning
    }

    open spec fn spec_check(&self, src: SourceView) -> Seq<FindingView> {
        seq![]
    }

    fn name(&self) -> (r: &str) {
        "Security/CompoundHash"
    }

    fn category(&self) -> (r: Category) {
        Category::Lint
    }

    fn severity(&self) -> (r: Severity) {
        Severity::Warning
    }

    open spec fn spec_description(&self) -> Seq<char> {
        "Be careful with compound hash usage"@
    }

    fn description(&self) -> (r: &str) {
        "Be careful with compound hash usage"
    }

    fn check(&self, source: &SourceFile) -> (r: Vec<Offense>) {
        report(self.name(), self.severity(), Vec::new())
    }
}

/// The metrics and security cops, in the order `all_metrics_cops` returns them,
/// each by name, category and severity; each metrics cop finds what a cop of
/// its kind with its default limit finds.
pub open spec fn metrics_cops(cops: Seq<Box<dyn Cop>>) -> bool {
    &&& cops.len() == 16
    &&& cop_at(cops, 0, "Metrics/MethodLength"@, Category::Metrics, Severity::Convention)
    &&& cop_at(cops, 1, "Metrics/ClassLength"@, Category::Metrics, Severity::Convention)
    &&& cop_at(cops, 2, "Metrics/ModuleLength"@, Category::Metrics, Severity::Convention)
    &&& cop_at(cops, 3, "Metrics/BlockLength"@, Category::Metrics, Severity::Convention)
    &&& cop_at(cops, 4, "Metrics/BlockNesting"@, Category::Metrics, Severity::Convention)
    &&& cop_at(cops, 5, "Metrics/ParameterLists"@, Category::Metrics, Severity::Convention)
    &&& cop_at(cops, 6, "Metrics/CyclomaticComplexity"@, Category::Metrics, Severity::Convention)
    &&& cop_at(cops, 7, "Metrics/AbcSize"@, Category::Metrics, Severity::Convention)
    &&& cop_at(cops, 8, "Metrics/CollectionLiteralLength"@, Category::Metrics, Severity::Convention)
    &&& cop_at(cops, 9, "Security/Eval"@, Category::Lint, Severity::Warning)
    &&& cop_at(cops, 10, "Security/Open"@, Category::Lint, Severity::Warning)
    &&& cop_at(cops, 11, "Security/YAMLLoad"@, Category::Lint, Severity::Warning)
    &&& cop_at(cops, 12, "Security/JSONLoad"@, Category::Lint, Severity::Warning)
    &&& cop_at(cops, 13, "Security/MarshalLoad"@, Category::Lint, Severity::Warning)
    &&& cop_at(cops, 14, "Security/IoMethods"@, Category::Lint, Severity::Warning)
    &&& cop_at(cops, 15, "Security/CompoundHash"@, Category::Lint, Severity::Warning)
    &&& exists|c: MethodLength| c.limit() == 10 && #[trigger] checks_as(cops, 0, c)
    &&& exists|c: ClassLength| c.limit() == 100 && #[trigger] checks_as(cops, 1, c)
    &&& exists|c: ModuleLength| c.limit() == 100 && #[trigger] checks_as(cops, 2, c)
    &&& exists|c: BlockLength| c.limit() == 25 && #[trigger] checks_as(cops, 3, c)
    &&& exists|c: BlockNesting| c.limit() == 3 && #[trigger] checks_as(cops, 4, c)
    &&& exists|c: ParameterLists| c.limit() == 5 && #[trigger] checks_as(cops, 5, c)
    &&& exists|c: CyclomaticComplexity| c.limit() == 10 && #[trigger] checks_as(cops, 6, c)
    &&& exists|c: AbcSize| c.limit() == 20 && #[trigger] checks_as(cops, 7, c)
    &&& exists|c: CollectionLiteralLength| c.limit() == 20 && #[trigger] checks_as(cops, 8, c)
}

/// Returns all cops of this module as trait objects.
pub fn all_metrics_cops() -> (r: Vec<Box<dyn Cop>>)
    ensures
        metrics_cops(r@),
{
    let c0 = MethodLength::default();
    let ghost g0 = c0;
    let c1 = ClassLength::default();
    let ghost g1 = c1;
    let c2 = ModuleLength::default();
    let ghost g2 = c2;
    let c3 = BlockLength::default();
    let ghost g3 = c3;
    let c4 = BlockNesting::default();
    let ghost g4 = c4;
    let c5 = ParameterLists::default();
    let ghost g5 = c5;
    let c6 = CyclomaticComplexity::default();
    let ghost g6 = c6;
    let c7 = AbcSize::default();
    let ghost g7 = c7;
    let c8 = CollectionLiteralLength::default();
    let ghost g8 = c8;
    let v: Vec<Box<dyn Cop>> = vec![
        Box::new(c0),
        Box::new(c1),
        Box::new(c2),
        Box::new(c3),
        Box::new(c4),
        Box::new(c5),
        Box::new(c6),
        Box::new(c7),
        Box::new(c8),
        Box::new(Eval),
        Box::new(Open),
        Box::new(YAMLLoad),
        Box::new(JSONLoad),
        Box::new(MarshalLoad),
        Box::new(IoMethods),
        Box::new(CompoundHash),
    ];
    proof {
        assert(checks_as(v@, 0, g0));
        assert(checks_as(v@, 1, g1));
        assert(checks_as(v@, 2, g2));
        assert(checks_as(v@, 3, g3));
        assert(checks_as(v@, 4, g4));
        assert(checks_as(v@, 5, g5));
        assert(checks_as(v@, 6, g6));
        assert(checks_as(v@, 7, g7));
        assert(checks_as(v@, 8, g8));
    }
    v
}

} // verus!
