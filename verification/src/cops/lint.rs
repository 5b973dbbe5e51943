//! Lint cops for detecting code quality issues: leftover debugger calls,
//! literal conditions and methods defined twice.

use vstd::prelude::*;

use crate::cop::{Category, Cop, Severity};
use crate::offense::{Finding, FindingView, Message, Offense, finding, finding_views, report};
use crate::pattern::{
    captures_all, first_match, regex_escape, regex_escaped, first_match_exec, group, group_exec, groups_view, match_wf, matches_wf,
    regex_captures, spans_view, whole, whole_exec,
};
use crate::rule::{
    LineRule, MatchRule, all_lines, all_matches, append_findings, gather, lemma_gather_all, lemma_gather_contains, one_if, push_if,
    run_lines, run_matches,
};
use crate::scan::{group_bytes, group_bytes_exec, whole_finding, whole_finding_exec};
use crate::source::{SourceFile, SourceView, fits};
use crate::text::{bytes_of, lead_ws, lemma_lead_ws_bytes, starts_with, trim_start};
use crate::text::{bytes_eq, lead_ws_exec, starts_with_str, trim_start_exec};
use vstd::string::StringExecFns;

verus! {

// ---------------------------------------------------------------------------
// Debugger
// ---------------------------------------------------------------------------

/// The number of debugger entry points the cop knows.
pub open spec fn debug_count() -> int {
    8
}

/// The debugger entry point `k`, in the order the cop tries them.
pub open spec fn debug_method(k: int) -> &'static str {
    if k == 0 {
        "binding.pry"
    } else if k == 1 {
        "binding.irb"
    } else if k == 2 {
        "byebug"
    } else if k == 3 {
        "debugger"
    } else if k == 4 {
        "binding.break"
    } else if k == 5 {
        "pry"
    } else if k == 6 {
        "save_and_open_page"
    } else {
        "save_and_open_screenshot"
    }
}

/// The pattern that finds entry point `k` as a whole word: the method,
/// escaped, between word boundaries.
pub open spec fn debug_pattern(k: int) -> Seq<char> {
    r"\b"@ + regex_escaped(debug_method(k)@) + r"\b"@
}

fn debug_method_exec(k: usize) -> (r: &'static str)
    ensures
        r == debug_method(k as int),
{
    if k == 0 {
        "binding.pry"
    } else if k == 1 {
        "binding.irb"
    } else if k == 2 {
        "byebug"
    } else if k == 3 {
        "debugger"
    } else if k == 4 {
        "binding.break"
    } else if k == 5 {
        "pry"
    } else if k == 6 {
        "save_and_open_page"
    } else {
        "save_and_open_screenshot"
    }
}

fn debug_pattern_exec(k: usize) -> (r: String)
    ensures
        r@ == debug_pattern(k as int),
{
    let p = String::from_str(r"\b");
    let p = p.concat(regex_escape(debug_method_exec(k)).as_str());
    p.concat(r"\b")
}

/// A hit as plain integers: start, end and entry point.
pub open spec fn hits_view(v: Seq<(usize, usize, usize)>) -> Seq<(int, int, int)> {
    v.map_values(|h: (usize, usize, usize)| (h.0 as int, h.1 as int, h.2 as int))
}

/// The first `n` matches `ms` of entry point `k` on line `i` that start
/// outside strings and comments, as (start, end, k).
pub open spec fn hits(src: SourceView, i: int, k: int, ms: Seq<Seq<Option<(int, int)>>>, n: int) -> Seq<(int, int, int)>
    decreases n,
{
    if n <= 0 {
        seq![]
    } else {
        let prev = hits(src, i, k, ms, n - 1);
        let w = whole(ms[n - 1]);
        if src.in_string_or_comment(i + 1, w.0 + 1) {
            prev
        } else {
            prev.push((w.0, w.1, k))
        }
    }
}

/// The hits of entry point `k` on line `i`.
pub open spec fn pattern_hits(src: SourceView, i: int, k: int) -> Seq<(int, int, int)> {
    let ms = regex_captures(debug_pattern(k), src.lines[i]);
    hits(src, i, k, ms, ms.len() as int)
}

/// The hits of the first `n` entry points on line `i`, entry point by entry point.
pub open spec fn candidates(src: SourceView, i: int, n: int) -> Seq<(int, int, int)>
    decreases n,
{
    if n <= 0 {
        seq![]
    } else {
        candidates(src, i, n - 1) + pattern_hits(src, i, n - 1)
    }
}

/// `x` inserted into `s` after every element that starts no later than it.
pub open spec fn insert_by_start(s: Seq<(int, int, int)>, x: (int, int, int)) -> Seq<(int, int, int)>
    decreases s.len(),
{
    if s.len() == 0 {
        seq![x]
    } else if s.last().0 <= x.0 {
        s.push(x)
    } else {
        insert_by_start(s.drop_last(), x).push(s.last())
    }
}

/// The hits in order of their start, hits with equal starts in the order
/// they were found (a stable sort).
pub open spec fn sort_by_start(s: Seq<(int, int, int)>) -> Seq<(int, int, int)>
    decreases s.len(),
{
    if s.len() == 0 {
        s
    } else {
        insert_by_start(sort_by_start(s.drop_last()), s.last())
    }
}

/// The hits kept in turn: each that starts at or after the end of the last
/// kept one.
pub open spec fn disjoint_hits(s: Seq<(int, int, int)>, last_end: int) -> Seq<(int, int, int)>
    decreases s.len(),
{
    if s.len() == 0 {
        seq![]
    } else if s[0].0 < last_end {
        disjoint_hits(s.skip(1), last_end)
    } else {
        seq![s[0]] + disjoint_hits(s.skip(1), s[0].1)
    }
}

/// Every hit starts no later than it ends, within `[0, len]`.
pub open spec fn hits_within(s: Seq<(int, int, int)>, len: int) -> bool {
    forall|q: int| 0 <= q < s.len() ==> 0 <= #[trigger] s[q].0 <= s[q].1 <= len
}

proof fn lemma_insert_within(s: Seq<(int, int, int)>, x: (int, int, int), len: int)
    requires
        hits_within(s, len),
        0 <= x.0 <= x.1 <= len,
    ensures
        hits_within(insert_by_start(s, x), len),
    decreases s.len(),
{
    if s.len() > 0 && !(s.last().0 <= x.0) {
        assert(hits_within(s.drop_last(), len));
        lemma_insert_within(s.drop_last(), x, len);
        let inner = insert_by_start(s.drop_last(), x);
        assert(insert_by_start(s, x) == inner.push(s.last()));
        assert forall|q: int| 0 <= q < inner.push(s.last()).len() implies 0 <= #[trigger] inner.push(s.last())[q].0 <= inner.push(
            s.last(),
        )[q].1 <= len by {
            if q < inner.len() {
                assert(inner.push(s.last())[q] == inner[q]);
            }
        }
    }
}

/// The finding for a kept hit on line `i`.
pub open spec fn debug_finding(i: int, h: (int, int, int)) -> FindingView {
    finding(
        i + 1,
        h.0 + 1,
        h.1 - h.0,
        bytes_of("Remove debugger entry point `") + bytes_of(debug_method(h.2)) + bytes_of("`."),
    )
}

/// The findings on line `i`: none on a comment line, else every hit that
/// does not overlap an earlier kept one, in order of position.
pub open spec fn debugger_line(src: SourceView, i: int) -> Seq<FindingView> {
    let l = src.lines[i];
    if src.in_string_or_comment(i + 1, 1) && starts_with(trim_start(l), bytes_of("#")) {
        seq![]
    } else {
        disjoint_hits(sort_by_start(candidates(src, i, debug_count())), 0).map_values(|h: (int, int, int)| debug_finding(i, h))
    }
}

/// The first hit kept after `last_end` starts at or after it, and each kept
/// hit starts at or after the end of the one before.
proof fn lemma_disjoint_hits(s: Seq<(int, int, int)>, last_end: int)
    ensures
        disjoint_hits(s, last_end).len() > 0 ==> disjoint_hits(s, last_end)[0].0 >= last_end,
        forall|k: int|
            0 <= k && k + 1 < disjoint_hits(s, last_end).len() ==> #[trigger] disjoint_hits(s, last_end)[k].1 <= disjoint_hits(
                s,
                last_end,
            )[k + 1].0,
    decreases s.len(),
{
    if s.len() > 0 {
        lemma_disjoint_hits(s.skip(1), last_end);
        lemma_disjoint_hits(s.skip(1), s[0].1);
        if s[0].0 >= last_end {
            let rest = disjoint_hits(s.skip(1), s[0].1);
            let all = seq![s[0]] + rest;
            assert(disjoint_hits(s, last_end) == all);
            assert forall|k: int| 0 <= k && k + 1 < all.len() implies #[trigger] all[k].1 <= all[k + 1].0 by {
                assert(all[k + 1] == rest[k]);
                if k > 0 {
                    assert(all[k] == rest[k - 1]);
                }
            }
        }
    }
}

/// The debugger entry points reported on a line come in order of position
/// and never overlap: each starts at or after the end of the one before.
pub proof fn law_debugger_findings_disjoint(src: SourceView, i: int)
    ensures
        forall|k: int|
            0 <= k && k + 1 < debugger_line(src, i).len() ==> #[trigger] debugger_line(src, i)[k].column + debugger_line(src, i)[k].length
                <= debugger_line(src, i)[k + 1].column,
{
    let l = src.lines[i];
    if !(src.in_string_or_comment(i + 1, 1) && starts_with(trim_start(l), bytes_of("#"))) {
        let hs = disjoint_hits(sort_by_start(candidates(src, i, debug_count())), 0);
        lemma_disjoint_hits(sort_by_start(candidates(src, i, debug_count())), 0);
        let fs = hs.map_values(|h: (int, int, int)| debug_finding(i, h));
        assert(debugger_line(src, i) == fs);
        assert forall|k: int| 0 <= k && k + 1 < fs.len() implies #[trigger] fs[k].column + fs[k].length <= fs[k + 1].column by {
            assert(hs[k].1 <= hs[k + 1].0);
        }
    }
}

fn insert_by_start_exec(v: &mut Vec<(usize, usize, usize)>, x: (usize, usize, usize))
    ensures
        hits_view(final(v)@) == insert_by_start(hits_view(old(v)@), (x.0 as int, x.1 as int, x.2 as int)),
    decreases old(v)@.len(),
{
    let ghost xv = (x.0 as int, x.1 as int, x.2 as int);
    if v.len() == 0 {
        v.push(x);
        assert(hits_view(v@) =~= seq![xv]);
    } else {
        let last = v[v.len() - 1];
        let ghost before = v@;
        assert(hits_view(before).last() == (last.0 as int, last.1 as int, last.2 as int));
        if last.0 <= x.0 {
            v.push(x);
            assert(hits_view(v@) =~= hits_view(before).push(xv));
        } else {
            let l = v.pop().unwrap();
            assert(v@ == before.drop_last());
            assert(hits_view(v@) =~= hits_view(before).drop_last());
            insert_by_start_exec(v, x);
            let ghost mid = v@;
            v.push(l);
            assert(hits_view(v@) =~= hits_view(mid).push(hits_view(before).last()));
        }
    }
}

fn debugger_line_exec(src: &SourceFile, i: usize) -> (r: Vec<Finding>)
    requires
        i < src@.lines.len(),
    ensures
        finding_views(r@) == debugger_line(src@, i as int),
{
    let l = src.line_at(i);
    let mut out: Vec<Finding> = Vec::new();
    if src.in_string_or_comment(i + 1, 1) && starts_with_str(trim_start_exec(l), "#") {
        return out;
    }
    let mut cands: Vec<(usize, usize, usize)> = Vec::new();
    let mut k: usize = 0;
    while k < 8
        invariant
            k <= 8,
            i < src@.lines.len(),
            l@ == src@.lines[i as int],
            l@.len() <= isize::MAX,
            fits(src@),
            hits_view(cands@) == candidates(src@, i as int, k as int),
            hits_within(hits_view(cands@), l@.len() as int),
        decreases 8 - k,
    {
        let p = debug_pattern_exec(k);
        let ms = captures_all(p.as_str(), l);
        let ghost msv = spans_view(ms@);
        let ghost base = cands@;
        let mut j: usize = 0;
        while j < ms.len()
            invariant
                j <= ms@.len(),
                k < 8,
                i < src@.lines.len(),
                l@ == src@.lines[i as int],
                l@.len() <= isize::MAX,
                msv == spans_view(ms@),
                msv == regex_captures(debug_pattern(k as int), l@),
                matches_wf(msv, l@.len() as int),
                hits_view(base) == candidates(src@, i as int, k as int),
                fits(src@),
                hits_view(cands@) == candidates(src@, i as int, k as int) + hits(src@, i as int, k as int, msv, j as int),
                hits_within(hits_view(cands@), l@.len() as int),
            decreases ms.len() - j,
        {
            assert(msv[j as int] == groups_view(ms@[j as int]@));
            assert(match_wf(msv[j as int], l@.len() as int));
            let (s, e) = whole_exec(&ms[j], l.len());
            let ghost c0 = candidates(src@, i as int, k as int);
            let ghost h0 = hits(src@, i as int, k as int, msv, j as int);
            if !src.in_string_or_comment(i + 1, s + 1) {
                let ghost before = cands@;
                cands.push((s, e, k));
                assert(hits_view(cands@) =~= hits_view(before).push((s as int, e as int, k as int)));
                assert(c0 + h0.push((s as int, e as int, k as int)) =~= (c0 + h0).push((s as int, e as int, k as int)));
                assert forall|q: int| 0 <= q < hits_view(cands@).len() implies 0 <= #[trigger] hits_view(cands@)[q].0
                    <= hits_view(cands@)[q].1 <= l@.len() by {
                    if q < hits_view(before).len() {
                        assert(hits_view(cands@)[q] == hits_view(before)[q]);
                    }
                }
            }
            j = j + 1;
        }
        k = k + 1;
    }
    let mut sorted: Vec<(usize, usize, usize)> = Vec::new();
    let mut j: usize = 0;
    while j < cands.len()
        invariant
            j <= cands@.len(),
            hits_view(sorted@) == sort_by_start(hits_view(cands@).take(j as int)),
            hits_within(hits_view(cands@), l@.len() as int),
            hits_within(hits_view(sorted@), l@.len() as int),
        decreases cands.len() - j,
    {
        assert(hits_view(cands@).take(j + 1).drop_last() =~= hits_view(cands@).take(j as int));
        assert(hits_view(cands@)[j as int] == (cands@[j as int].0 as int, cands@[j as int].1 as int, cands@[j as int].2 as int));
        proof {
            lemma_insert_within(hits_view(sorted@), hits_view(cands@)[j as int], l@.len() as int);
        }
        insert_by_start_exec(&mut sorted, cands[j]);
        j = j + 1;
    }
    assert(hits_view(cands@).take(cands@.len() as int) =~= hits_view(cands@));
    let mut last_end: usize = 0;
    let mut q: usize = 0;
    let ghost all = hits_view(sorted@);
    assert(all.skip(0) =~= all);
    assert(finding_views(out@) + disjoint_hits(all, 0).map_values(|h: (int, int, int)| debug_finding(i as int, h))
        =~= disjoint_hits(all, 0).map_values(|h: (int, int, int)| debug_finding(i as int, h)));
    while q < sorted.len()
        invariant
            q <= sorted@.len(),
            all == hits_view(sorted@),
            i < src@.lines.len(),
            fits(src@),
            l@ == src@.lines[i as int],
            hits_within(all, l@.len() as int),
            disjoint_hits(all, 0).map_values(|h: (int, int, int)| debug_finding(i as int, h)) == finding_views(out@)
                + disjoint_hits(all.skip(q as int), last_end as int).map_values(|h: (int, int, int)| debug_finding(i as int, h)),
        decreases sorted.len() - q,
    {
        let h = sorted[q];
        assert(all.skip(q as int)[0] == (h.0 as int, h.1 as int, h.2 as int));
        assert(all.skip(q as int).skip(1) =~= all.skip(q + 1));
        if h.0 >= last_end {
            let mut msg = Message::from_str("Remove debugger entry point `");
            msg.push_str(debug_method_exec(h.2));
            msg.push_str("`.");
            let ghost before = out@;
            out.push(Finding::new(i + 1, h.0 + 1, h.1 - h.0, msg));
            proof {
                let hv = (h.0 as int, h.1 as int, h.2 as int);
                let rest = disjoint_hits(all.skip(q + 1), h.1 as int);
                assert(disjoint_hits(all.skip(q as int), last_end as int) == seq![hv] + rest);
                assert((seq![hv] + rest).map_values(|x: (int, int, int)| debug_finding(i as int, x)) =~= seq![debug_finding(i as int, hv)]
                    + rest.map_values(|x: (int, int, int)| debug_finding(i as int, x)));
                assert(finding_views(out@) =~= finding_views(before) + seq![debug_finding(i as int, hv)]);
            }
            last_end = h.1;
        }
        q = q + 1;
    }
    assert(all.skip(all.len() as int) =~= Seq::<(int, int, int)>::empty());
    out
}

impl LineRule for Debugger {
    /// The debugger entry points on line `i`.
    open spec fn spec_line(&self, src: SourceView, i: int) -> Seq<FindingView> {
        debugger_line(src, i)
    }

    fn line_findings(&self, src: &SourceFile, i: usize) -> (r: Vec<Finding>) {
        debugger_line_exec(src, i)
    }
}

impl Debugger {
    /// The cop; its patterns are fixed.
    pub fn new() -> (r: Self) {
        Debugger
    }
}

impl Default for Debugger {
    fn default() -> (r: Self) {
        Self::new()
    }
}

/// Detects leftover debugging calls like `binding.pry` and `byebug`.
pub struct Debugger;

impl Cop for Debugger {
    open spec fn spec_name(&self) -> Seq<char> {
        "Lint/Debugger"@
    }

    open spec fn spec_category(&self) -> Category {
        Category::Lint
    }

    open spec fn spec_severity(&self) -> Severity {
        Severity::Warning
    }

    open spec fn spec_check(&self, src: SourceView) -> Seq<FindingView> {
        all_lines(self, src)
    }

    fn name(&self) -> (r: &str) {
        "Lint/Debugger"
    }

    fn category(&self) -> (r: Category) {
        Category::Lint
    }

    fn severity(&self) -> (r: Severity) {
        Severity::Warning
    }

    open spec fn spec_description(&self) -> Seq<char> {
        "Checks for leftover debugging code like `binding.pry` or `byebug`."@
    }

    fn description(&self) -> (r: &str) {
        "Checks for leftover debugging code like `binding.pry` or `byebug`."
    }

    fn check(&self, source: &SourceFile) -> (r: Vec<Offense>) {
        report(self.name(), self.severity(), run_lines(self, source))
    }
}

impl MatchRule for LiteralInCondition {
    /// A `true`, `false` or `nil` right after `if` or `unless`, outside strings and comments.
    open spec fn spec_match(&self, src: SourceView, i: int, m: Seq<Option<(int, int)>>) -> Seq<FindingView> {
        let l = src.lines[i];
        whole_finding(i, m, !src.in_string_or_comment(i + 1, whole(m).0 + 1), bytes_of("Literal `") + group_bytes(l, m, 2) + bytes_of("` used in `") + group_bytes(l, m, 1) + bytes_of("` condition."))
    }

    fn match_findings(&self, src: &SourceFile, i: usize, m: &Vec<Option<(usize, usize)>>) -> (r: Vec<Finding>) {
        let l = src.line_at(i);
        let (s, _e) = whole_exec(m, l.len());
        let hit = !src.in_string_or_comment(i + 1, s + 1);
        let mut msg = Message::from_str("Literal `");
        msg.push_bytes(group_bytes_exec(l, m, 2));
        msg.push_str("` used in `");
        msg.push_bytes(group_bytes_exec(l, m, 1));
        msg.push_str("` condition.");
        whole_finding_exec(i, m, l.len(), hit, msg)
    }
}

impl LineRule for LiteralInCondition {
    open spec fn spec_line(&self, src: SourceView, i: int) -> Seq<FindingView> {
        all_matches(self, src, i, regex_captures(r"\b(if|unless)\s+(true|false|nil)\b"@, src.lines[i]))
    }

    fn line_findings(&self, src: &SourceFile, i: usize) -> (r: Vec<Finding>) {
        let ms = captures_all(r"\b(if|unless)\s+(true|false|nil)\b", src.line_at(i));
        run_matches(self, src, i, &ms)
    }
}

impl LiteralInCondition {
    /// The cop; its patterns are fixed.
    pub fn new() -> (r: Self) {
        LiteralInCondition
    }
}

impl Default for LiteralInCondition {
    fn default() -> (r: Self) {
        Self::new()
    }
}

/// Detects literal values used as conditions, like `if true` or `unless nil`.
pub struct LiteralInCondition;

impl Cop for LiteralInCondition {
    open spec fn spec_name(&self) -> Seq<char> {
        "Lint/LiteralInCondition"@
    }

    open spec fn spec_category(&self) -> Category {
        Category::Lint
    }

    open spec fn spec_severity(&self) -> Severity {
        Severity::Warning
    }

    open spec fn spec_check(&self, src: SourceView) -> Seq<FindingView> {
        all_lines(self, src)
    }

    fn name(&self) -> (r: &str) {
        "Lint/LiteralInCondition"
    }

    fn category(&self) -> (r: Category) {
        Category::Lint
    }

    fn severity(&self) -> (r: Severity) {
        Severity::Warning
    }

    open spec fn spec_description(&self) -> Seq<char> {
        "Checks for literals used in conditions."@
    }

    fn description(&self) -> (r: &str) {
        "Checks for literals used in conditions."
    }

    fn check(&self, source: &SourceFile) -> (r: Vec<Offense>) {
        report(self.name(), self.severity(), run_lines(self, source))
    }
}

// ---------------------------------------------------------------------------
// DuplicateMethods
// ---------------------------------------------------------------------------

/// A byte of an identifier: an ASCII letter, digit or underscore.
pub open spec fn is_ident_byte(b: u8) -> bool {
    (65u8 <= b <= 90u8) || (97u8 <= b <= 122u8) || (48u8 <= b <= 57u8) || b == 95u8
}

/// A byte that may start an identifier: an ASCII letter or underscore.
pub open spec fn is_ident_start(b: u8) -> bool {
    (65u8 <= b <= 90u8) || (97u8 <= b <= 122u8) || b == 95u8
}

/// The number of identifier bytes from byte `q` of `l` on.
pub open spec fn ident_run(l: Seq<u8>, q: int) -> nat
    decreases l.len() - q,
{
    if 0 <= q < l.len() && is_ident_byte(l[q]) {
        1 + ident_run(l, q + 1)
    } else {
        0
    }
}

/// The byte range of the method name on a line that defines a method: the
/// line is optional whitespace, `def`, whitespace, then an identifier (a
/// letter or underscore, then letters, digits and underscores), which may end
/// in `?` or `!`.
pub open spec fn def_name_span(l: Seq<u8>) -> Option<(int, int)> {
    let p = lead_ws(l) as int;
    if p + 3 <= l.len() && l[p] == 100u8 && l[p + 1] == 101u8 && l[p + 2] == 102u8 {
        let w = lead_ws(l.skip(p + 3)) as int;
        let q = p + 3 + w;
        if w > 0 && q < l.len() && is_ident_start(l[q]) {
            let e = q + ident_run(l, q);
            if e < l.len() && (l[e] == 63u8 || l[e] == 33u8) {
                Some((q, e + 1))
            } else {
                Some((q, e))
            }
        } else {
            None
        }
    } else {
        None
    }
}

/// The method defined on line `i`, as its name and the column where the
/// definition's line starts, where the line defines one outside strings and
/// comments.
pub open spec fn def_at(src: SourceView, i: int) -> Option<(Seq<u8>, int)> {
    let l = src.lines[i];
    match def_name_span(l) {
        Some(s) => if !src.in_string_or_comment(i + 1, 1) {
            Some((l.subrange(s.0, s.1), 1))
        } else {
            None
        },
        None => None,
    }
}

/// A byte that belongs to a word: an ASCII letter, digit or underscore.
pub open spec fn word_byte(b: u8) -> bool {
    (48u8 <= b && b <= 57u8) || (65u8 <= b && b <= 90u8) || (97u8 <= b && b <= 122u8) || b == 95u8
}

/// `nm` stands at byte `q` of line `l` as a whole method name: it is not
/// preceded by a word byte; it starts with a letter or underscore, goes on
/// with word bytes and may end in `?` or `!`; and, unless it ends so, no word
/// byte, `?` or `!` follows it.
pub open spec fn whole_name_at(l: Seq<u8>, q: int, nm: Seq<u8>) -> bool {
    &&& 0 < q
    &&& nm.len() >= 1
    &&& q + nm.len() <= l.len()
    &&& l.subrange(q, q + nm.len()) == nm
    &&& !word_byte(l[q - 1])
    &&& ((65u8 <= nm[0] && nm[0] <= 90u8) || (97u8 <= nm[0] && nm[0] <= 122u8) || nm[0] == 95u8)
    &&& forall|k: int| 0 <= k < nm.len() - 1 ==> word_byte(#[trigger] nm[k])
    &&& (word_byte(nm.last()) || nm.last() == 63u8 || nm.last() == 33u8)
    &&& (nm.last() == 63u8 || nm.last() == 33u8 || q + nm.len() == l.len() || !(word_byte(l[q + nm.len()])
        || l[q + nm.len()] == 63u8 || l[q + nm.len()] == 33u8))
}

proof fn lemma_ident_run(l: Seq<u8>, q: int)
    requires
        0 <= q <= l.len(),
    ensures
        q + ident_run(l, q) <= l.len(),
        forall|k: int| q <= k < q + ident_run(l, q) ==> is_ident_byte(#[trigger] l[k]),
        q + ident_run(l, q) < l.len() ==> !is_ident_byte(l[q + ident_run(l, q)]),
    decreases l.len() - q,
{
    if q < l.len() && is_ident_byte(l[q]) {
        lemma_ident_run(l, q + 1);
    }
}

/// The name found on a method definition's line is the whole identifier
/// there: digits, underscores and a final `?` or `!` included, and nothing of
/// a longer word left out.
pub proof fn law_def_name_is_whole(src: SourceView, i: int)
    requires
        0 <= i < src.lines.len(),
        def_at(src, i) is Some,
    ensures
        exists|q: int| #[trigger] whole_name_at(src.lines[i], q, def_at(src, i)->Some_0.0),
{
    let l = src.lines[i];
    let p = lead_ws(l) as int;
    lemma_lead_ws_bytes(l);
    let r = l.skip(p + 3);
    lemma_lead_ws_bytes(r);
    let w = lead_ws(r) as int;
    let q = p + 3 + w;
    lemma_ident_run(l, q);
    let e = q + ident_run(l, q);
    let s = def_name_span(l)->Some_0;
    assert(s.0 == q);
    let nm = l.subrange(s.0, s.1);
    assert(l[q - 1] == r[w - 1]);
    assert(nm[0] == l[q]);
    assert forall|k: int| 0 <= k < nm.len() - 1 implies word_byte(#[trigger] nm[k]) by {
        assert(nm[k] == l[q + k]);
    }
    assert(nm.last() == l[s.1 - 1]);
    assert(whole_name_at(l, q, nm));
    assert(def_at(src, i)->Some_0.0 == nm);
    assert(whole_name_at(src.lines[i], q, def_at(src, i)->Some_0.0));
}

/// Two definitions are reported as one method defined again only where their
/// lines carry the same whole name: the finding `f` is at a line whose method
/// name, taken whole, is also the whole name on an earlier line.
pub proof fn law_repeats_share_whole_name(src: SourceView, f: int)
    requires
        0 <= f < duplicate_methods(src).len(),
    ensures
        ({
            let k = duplicate_methods(src)[f].line - 1;
            let nm = def_at(src, k)->Some_0.0;
            &&& 0 <= k < src.lines.len()
            &&& def_at(src, k) is Some
            &&& exists|j: int, q1: int, q2: int|
                #![trigger whole_name_at(src.lines[j], q1, nm), whole_name_at(src.lines[k], q2, nm)]
                0 <= j < k && whole_name_at(src.lines[j], q1, nm) && whole_name_at(src.lines[k], q2, nm)
        }),
{
    law_first_definition_not_reported(src);
    let k = duplicate_methods(src)[f].line - 1;
    assert(0 <= k < src.lines.len() && def_at(src, k) is Some && !first_def(src, k));
    let j = choose|j: int| 0 <= j < k && #[trigger] same_def(src, j, k);
    law_def_name_is_whole(src, j);
    law_def_name_is_whole(src, k);
    let nm = def_at(src, k)->Some_0.0;
    let q1 = choose|q: int| #[trigger] whole_name_at(src.lines[j], q, def_at(src, j)->Some_0.0);
    let q2 = choose|q: int| #[trigger] whole_name_at(src.lines[k], q, def_at(src, k)->Some_0.0);
    assert(whole_name_at(src.lines[j], q1, nm));
    assert(whole_name_at(src.lines[k], q2, nm));
}

/// Lines `j` and `k` define methods of the same name.
pub open spec fn same_def(src: SourceView, j: int, k: int) -> bool {
    match (def_at(src, j), def_at(src, k)) {
        (Some(a), Some(b)) => a.0 == b.0,
        _ => false,
    }
}

/// Line `j` holds the first definition of its name.
pub open spec fn first_def(src: SourceView, j: int) -> bool {
    def_at(src, j) is Some && forall|k: int| 0 <= k < j ==> !#[trigger] same_def(src, k, j)
}

/// The later definitions of the name first defined on line `j`, in line order.
pub open spec fn repeats_of(src: SourceView, j: int) -> Seq<FindingView> {
    gather(
        src.lines.len() as int,
        |k: int|
            one_if(
                k > j && same_def(src, j, k),
                finding(
                    k + 1,
                    def_at(src, k)->Some_0.1,
                    3,
                    bytes_of("Method `") + def_at(src, j)->Some_0.0 + bytes_of("` is defined multiple times."),
                ),
            ),
    )
}

/// Every definition after the first of its name: name by name, in the order
/// of the names' first definitions, and each name's repeats in line order.
pub open spec fn duplicate_methods(src: SourceView) -> Seq<FindingView> {
    gather(
        src.lines.len() as int,
        |j: int|
            if first_def(src, j) {
                repeats_of(src, j)
            } else {
                seq![]
            },
    )
}

/// The definitions of each line, as the name's byte range and the column.
pub open spec fn defs_view(src: SourceView, v: Seq<Option<(usize, usize, usize)>>) -> bool {
    &&& v.len() == src.lines.len()
    &&& forall|i: int|
        0 <= i < v.len() ==> match #[trigger] v[i] {
            Some(d) => d.0 <= d.1 <= src.lines[i].len() && def_at(src, i) == Some((src.lines[i].subrange(d.0 as int, d.1 as int), d.2 as int)),
            None => def_at(src, i) is None,
        }
}

/// The first definition of each method name is never reported: every
/// finding is at a line that repeats a name defined on an earlier line.
pub proof fn law_first_definition_not_reported(src: SourceView)
    ensures
        forall|q: int|
            0 <= q < duplicate_methods(src).len() ==> {
                let k = #[trigger] duplicate_methods(src)[q].line - 1;
                0 <= k < src.lines.len() && def_at(src, k) is Some && !first_def(src, k)
            },
{
    let n = src.lines.len() as int;
    let pr = |f: FindingView| {
        let k = f.line - 1;
        0 <= k < n && def_at(src, k) is Some && !first_def(src, k)
    };
    let outer = |j: int|
        if first_def(src, j) {
            repeats_of(src, j)
        } else {
            seq![]
        };
    assert forall|j: int, q: int| 0 <= j < n && 0 <= q < outer(j).len() implies #[trigger] pr(#[trigger] outer(j)[q]) by {
        let inner = |k: int|
            one_if(
                k > j && same_def(src, j, k),
                finding(
                    k + 1,
                    def_at(src, k)->Some_0.1,
                    3,
                    bytes_of("Method `") + def_at(src, j)->Some_0.0 + bytes_of("` is defined multiple times."),
                ),
            );
        assert forall|k: int, r: int| 0 <= k < n && 0 <= r < inner(k).len() implies #[trigger] pr(#[trigger] inner(k)[r]) by {
            assert(k > j && same_def(src, j, k));
            assert(inner(k)[r].line == k + 1);
            assert(!same_def(src, j, k) ==> false);
            if first_def(src, k) {
                assert(!same_def(src, j, k));
            }
        }
        lemma_gather_all(n, inner, pr);
        assert(repeats_of(src, j) == gather(n, inner));
        assert(pr(gather(n, inner)[q]));
    }
    lemma_gather_all(n, outer, pr);
    assert(duplicate_methods(src) == gather(n, outer));
    assert forall|q: int| 0 <= q < duplicate_methods(src).len() implies {
        let k = #[trigger] duplicate_methods(src)[q].line - 1;
        0 <= k < src.lines.len() && def_at(src, k) is Some && !first_def(src, k)
    } by {
        assert(pr(gather(n, outer)[q]));
    }
}

/// Some name defined on a line before `x`, or at it, is first defined there
/// and names the method of line `k`.
proof fn lemma_first_of_name(src: SourceView, k: int, x: int)
    requires
        0 <= x < k,
        same_def(src, x, k),
    ensures
        exists|j: int| 0 <= j <= x && #[trigger] first_def(src, j) && same_def(src, j, k),
    decreases x,
{
    if !first_def(src, x) {
        let y = choose|y: int| 0 <= y < x && #[trigger] same_def(src, y, x);
        assert(same_def(src, y, k));
        lemma_first_of_name(src, k, y);
        let j = choose|j: int| 0 <= j <= y && #[trigger] first_def(src, j) && same_def(src, j, k);
        assert(0 <= j <= x && first_def(src, j) && same_def(src, j, k));
    } else {
        assert(first_def(src, x) && same_def(src, x, k));
    }
}

/// Every method definition after the first of its name is reported, at its
/// line.
pub proof fn law_every_repeat_reported(src: SourceView, k: int)
    requires
        0 <= k < src.lines.len(),
        def_at(src, k) is Some,
        !first_def(src, k),
    ensures
        exists|q: int| 0 <= q < duplicate_methods(src).len() && #[trigger] duplicate_methods(src)[q].line == k + 1,
{
    let n = src.lines.len() as int;
    let x = choose|x: int| 0 <= x < k && #[trigger] same_def(src, x, k);
    lemma_first_of_name(src, k, x);
    let j = choose|j: int| 0 <= j <= x && #[trigger] first_def(src, j) && same_def(src, j, k);
    let inner = |kk: int|
        one_if(
            kk > j && same_def(src, j, kk),
            finding(
                kk + 1,
                def_at(src, kk)->Some_0.1,
                3,
                bytes_of("Method `") + def_at(src, j)->Some_0.0 + bytes_of("` is defined multiple times."),
            ),
        );
    assert(inner(k).len() == 1);
    lemma_gather_contains(n, inner, k, 0);
    assert(repeats_of(src, j) == gather(n, inner));
    let outer = |jj: int|
        if first_def(src, jj) {
            repeats_of(src, jj)
        } else {
            seq![]
        };
    let r = choose|r: int| 0 <= r < gather(n, inner).len() && gather(n, inner)[r] == inner(k)[0];
    assert(outer(j) == repeats_of(src, j));
    lemma_gather_contains(n, outer, j, r);
    assert(duplicate_methods(src) == gather(n, outer));
    let q = choose|q: int| 0 <= q < gather(n, outer).len() && gather(n, outer)[q] == outer(j)[r];
    assert(duplicate_methods(src)[q].line == k + 1);
}

fn def_name_span_exec(l: &[u8]) -> (r: Option<(usize, usize)>)
    ensures
        match r {
            Some(s) => def_name_span(l@) == Some((s.0 as int, s.1 as int)) && s.0 <= s.1 <= l@.len(),
            None => def_name_span(l@) is None,
        },
{
    let p = lead_ws_exec(l);
    if l.len() - p >= 3 && l[p] == 100u8 && l[p + 1] == 101u8 && l[p + 2] == 102u8 {
        let rest = &l[p + 3..l.len()];
        assert(rest@ =~= l@.skip(p + 3));
        let w = lead_ws_exec(rest);
        let q = p + 3 + w;
        if w > 0 && q < l.len() && ((65u8 <= l[q] && l[q] <= 90u8) || (97u8 <= l[q] && l[q] <= 122u8) || l[q] == 95u8) {
            let mut e = q;
            while e < l.len() && ((65u8 <= l[e] && l[e] <= 90u8) || (97u8 <= l[e] && l[e] <= 122u8) || (48u8 <= l[e]
                && l[e] <= 57u8) || l[e] == 95u8)
                invariant
                    q <= e <= l@.len(),
                    ident_run(l@, q as int) == (e - q) + ident_run(l@, e as int),
                decreases l.len() - e,
            {
                e = e + 1;
            }
            if e < l.len() && (l[e] == 63u8 || l[e] == 33u8) {
                Some((q, e + 1))
            } else {
                Some((q, e))
            }
        } else {
            None
        }
    } else {
        None
    }
}

fn def_at_exec(src: &SourceFile, i: usize) -> (r: Option<(usize, usize, usize)>)
    requires
        i < src@.lines.len(),
    ensures
        match r {
            Some(d) => d.0 <= d.1 <= src@.lines[i as int].len() && def_at(src@, i as int) == Some(
                (src@.lines[i as int].subrange(d.0 as int, d.1 as int), d.2 as int),
            ),
            None => def_at(src@, i as int) is None,
        },
{
    let l = src.line_at(i);
    match def_name_span_exec(l) {
        Some(s) => {
            if !src.in_string_or_comment(i + 1, 1) {
                Some((s.0, s.1, 1))
            } else {
                None
            }
        },
        None => None,
    }
}

fn same_def_exec(src: &SourceFile, defs: &Vec<Option<(usize, usize, usize)>>, j: usize, k: usize) -> (r: bool)
    requires
        defs_view(src@, defs@),
        j < defs@.len(),
        k < defs@.len(),
    ensures
        r == same_def(src@, j as int, k as int),
{
    match (defs[j], defs[k]) {
        (Some(a), Some(b)) => {
            assert(defs@[j as int] == Some(a));
            assert(defs@[k as int] == Some(b));
            bytes_eq(&src.line_at(j)[a.0..a.1], &src.line_at(k)[b.0..b.1])
        },
        _ => {
            assert(defs@[j as int] is None || defs@[k as int] is None);
            false
        },
    }
}

impl DuplicateMethods {
    /// The cop; its patterns are fixed.
    pub fn new() -> (r: Self) {
        DuplicateMethods
    }
}

impl Default for DuplicateMethods {
    fn default() -> (r: Self) {
        Self::new()
    }
}

/// Detects methods defined more than once in a file.
pub struct DuplicateMethods;

impl Cop for DuplicateMethods {
    open spec fn spec_name(&self) -> Seq<char> {
        "Lint/DuplicateMethods"@
    }

    open spec fn spec_category(&self) -> Category {
        Category::Lint
    }

    open spec fn spec_severity(&self) -> Severity {
        Severity::Warning
    }

    open spec fn spec_check(&self, src: SourceView) -> Seq<FindingView> {
        duplicate_methods(src)
    }

    fn name(&self) -> (r: &str) {
        "Lint/DuplicateMethods"
    }

    fn category(&self) -> (r: Category) {
        Category::Lint
    }

    fn severity(&self) -> (r: Severity) {
        Severity::Warning
    }

    open spec fn spec_description(&self) -> Seq<char> {
        "Checks for duplicate method definitions."@
    }

    fn description(&self) -> (r: &str) {
        "Checks for duplicate method definitions."
    }

    fn check(&self, source: &SourceFile) -> (r: Vec<Offense>) {
        let n = source.line_count();
        let mut defs: Vec<Option<(usize, usize, usize)>> = Vec::new();
        let mut i: usize = 0;
        while i < n
            invariant
                i <= n,
                n == source@.lines.len(),
                defs@.len() == i,
                forall|q: int|
                    0 <= q < i ==> match #[trigger] defs@[q] {
                        Some(d) => d.0 <= d.1 <= source@.lines[q].len() && def_at(source@, q) == Some(
                            (source@.lines[q].subrange(d.0 as int, d.1 as int), d.2 as int),
                        ),
                        None => def_at(source@, q) is None,
                    },
            decreases n - i,
        {
            let d = def_at_exec(source, i);
            defs.push(d);
            i = i + 1;
        }
        let mut out: Vec<Finding> = Vec::new();
        let mut j: usize = 0;
        while j < n
            invariant
                j <= n,
                n == source@.lines.len(),
                defs_view(source@, defs@),
                finding_views(out@) == gather(
                    j as int,
                    |x: int|
                        if first_def(source@, x) {
                            repeats_of(source@, x)
                        } else {
                            seq![]
                        },
                ),
            decreases n - j,
        {
            let mut first = defs[j].is_some();
            assert(first == (def_at(source@, j as int) is Some));
            let mut k: usize = 0;
            while k < j
                invariant_except_break
                    first == (def_at(source@, j as int) is Some && forall|x: int| 0 <= x < k ==> !#[trigger] same_def(source@, x, j as int)),
                invariant
                    k <= j,
                    j < n,
                    n == source@.lines.len(),
                    defs_view(source@, defs@),
                ensures
                    first == first_def(source@, j as int),
                decreases j - k,
            {
                if same_def_exec(source, &defs, k, j) {
                    first = false;
                    break;
                }
                k = k + 1;
            }
            let mut reps: Vec<Finding> = Vec::new();
            if first {
                let (s, e, _c) = defs[j].unwrap();
                assert(defs@[j as int] is Some);
                let mut k2: usize = 0;
                while k2 < n
                    invariant
                        k2 <= n,
                        j < n,
                        n == source@.lines.len(),
                        defs_view(source@, defs@),
                        first_def(source@, j as int),
                        defs@[j as int] == Some((s, e, _c)),
                        finding_views(reps@) == gather(
                            k2 as int,
                            |k: int|
                                one_if(
                                    k > j && same_def(source@, j as int, k),
                                    finding(
                                        k + 1,
                                        def_at(source@, k)->Some_0.1,
                                        3,
                                        bytes_of("Method `") + def_at(source@, j as int)->Some_0.0 + bytes_of(
                                            "` is defined multiple times.",
                                        ),
                                    ),
                                ),
                        ),
                    decreases n - k2,
                {
                    let hit = k2 > j && same_def_exec(source, &defs, j, k2);
                    let col = match defs[k2] {
                        Some(d) => d.2,
                        None => 0,
                    };
                    let l = source.line_at(j);
                    let mut msg = Message::from_str("Method `");
                    msg.push_bytes(&l[s..e]);
                    msg.push_str("` is defined multiple times.");
                    push_if(&mut reps, hit, Finding::new(k2 + 1, col, 3, msg));
                    k2 = k2 + 1;
                }
            }
            append_findings(&mut out, reps);
            j = j + 1;
        }
        report(self.name(), self.severity(), out)
    }
}

} // verus!
