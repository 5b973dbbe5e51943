//! Shared structure of cops that look at each line, and at each regex match
//! within a line.

use vstd::prelude::*;

use crate::offense::{Finding, FindingView, finding_views};
use crate::pattern::{groups_view, match_wf, matches_wf, spans_view};
use crate::source::{SourceFile, SourceView};

verus! {

/// The findings `f(0) + f(1) + ... + f(n - 1)`, in order.
pub open spec fn gather(n: int, f: spec_fn(int) -> Seq<FindingView>) -> Seq<FindingView>
    decreases n,
{
    if n <= 0 {
        seq![]
    } else {
        gather(n - 1, f) + f(n - 1)
    }
}

/// A property of every finding of each `f(i)`, `i < n`, holds of every
/// gathered finding.
pub proof fn lemma_gather_all(n: int, f: spec_fn(int) -> Seq<FindingView>, p: spec_fn(FindingView) -> bool)
    requires
        forall|i: int, k: int| 0 <= i < n && 0 <= k < f(i).len() ==> #[trigger] p(#[trigger] f(i)[k]),
    ensures
        forall|k: int| 0 <= k < gather(n, f).len() ==> #[trigger] p(gather(n, f)[k]),
    decreases n,
{
    if n > 0 {
        lemma_gather_all(n - 1, f, p);
        let g = gather(n - 1, f);
        assert forall|k: int| 0 <= k < gather(n, f).len() implies #[trigger] p(gather(n, f)[k]) by {
            if k < g.len() {
                assert(gather(n, f)[k] == g[k]);
            } else {
                assert(gather(n, f)[k] == f(n - 1)[k - g.len()]);
            }
        }
    }
}

/// Each finding of `f(i)`, `i < n`, is among the gathered findings.
pub proof fn lemma_gather_contains(n: int, f: spec_fn(int) -> Seq<FindingView>, i: int, k: int)
    requires
        0 <= i < n,
        0 <= k < f(i).len(),
    ensures
        exists|q: int| 0 <= q < gather(n, f).len() && gather(n, f)[q] == f(i)[k],
    decreases n,
{
    let g = gather(n - 1, f);
    if i < n - 1 {
        lemma_gather_contains(n - 1, f, i, k);
        let q = choose|q: int| 0 <= q < g.len() && g[q] == f(i)[k];
        assert(gather(n, f)[q] == g[q]);
    } else {
        assert(gather(n, f)[g.len() + k] == f(n - 1)[k]);
    }
}

/// One finding, or none.
pub open spec fn one_if(c: bool, f: FindingView) -> Seq<FindingView> {
    if c {
        seq![f]
    } else {
        seq![]
    }
}

/// Appends `more` to `out`.
pub fn append_findings(out: &mut Vec<Finding>, more: Vec<Finding>)
    ensures
        finding_views(final(out)@) == finding_views(old(out)@) + finding_views(more@),
{
    let mut more = more;
    let ghost a = out@;
    let ghost b = more@;
    out.append(&mut more);
    assert(finding_views(a + b) =~= finding_views(a) + finding_views(b));
}

/// Appends one finding when `c` holds.
pub fn push_if(out: &mut Vec<Finding>, c: bool, f: Finding)
    ensures
        finding_views(final(out)@) == finding_views(old(out)@) + (if c {
            seq![f@]
        } else {
            seq![]
        }),
{
    if c {
        let ghost a = out@;
        out.push(f);
        assert(finding_views(a.push(f)) =~= finding_views(a) + seq![f@]);
    } else {
        assert(finding_views(out@) =~= finding_views(out@) + Seq::<FindingView>::empty());
    }
}

/// A cop whose findings are those of each line in turn.
pub trait LineRule {
    /// The findings on the 0-based line `i`.
    spec fn spec_line(&self, src: SourceView, i: int) -> Seq<FindingView>;

    fn line_findings(&self, src: &SourceFile, i: usize) -> (r: Vec<Finding>)
        requires
            i < src@.lines.len(),
        ensures
            finding_views(r@) == self.spec_line(src@, i as int),
    ;
}

/// The findings of every line, in line order.
pub open spec fn all_lines<R: LineRule>(rule: &R, src: SourceView) -> Seq<FindingView> {
    gather(src.lines.len() as int, |k: int| rule.spec_line(src, k))
}

pub fn run_lines<R: LineRule>(rule: &R, src: &SourceFile) -> (r: Vec<Finding>)
    ensures
        finding_views(r@) == all_lines(rule, src@),
{
    let mut out: Vec<Finding> = Vec::new();
    let n = src.line_count();
    let mut i: usize = 0;
    while i < n
        invariant
            i <= n,
            n == src@.lines.len(),
            finding_views(out@) == gather(i as int, |k: int| rule.spec_line(src@, k)),
        decreases n - i,
    {
        let fs = rule.line_findings(src, i);
        append_findings(&mut out, fs);
        i = i + 1;
    }
    out
}

/// A cop whose findings on a line are those of each regex match in turn.
pub trait MatchRule {
    /// The findings for match `m` on the 0-based line `i`.
    spec fn spec_match(&self, src: SourceView, i: int, m: Seq<Option<(int, int)>>) -> Seq<FindingView>;

    fn match_findings(&self, src: &SourceFile, i: usize, m: &Vec<Option<(usize, usize)>>) -> (r: Vec<Finding>)
        requires
            i < src@.lines.len(),
            match_wf(groups_view(m@), src@.lines[i as int].len() as int),
        ensures
            finding_views(r@) == self.spec_match(src@, i as int, groups_view(m@)),
    ;
}

/// The findings of every match in `ms`, in order.
pub open spec fn all_matches<R: MatchRule>(rule: &R, src: SourceView, i: int, ms: Seq<Seq<Option<(int, int)>>>) -> Seq<FindingView> {
    gather(ms.len() as int, |k: int| rule.spec_match(src, i, ms[k]))
}

pub fn run_matches<R: MatchRule>(rule: &R, src: &SourceFile, i: usize, ms: &Vec<Vec<Option<(usize, usize)>>>) -> (r: Vec<Finding>)
    requires
        i < src@.lines.len(),
        matches_wf(spans_view(ms@), src@.lines[i as int].len() as int),
    ensures
        finding_views(r@) == all_matches(rule, src@, i as int, spans_view(ms@)),
{
    let mut out: Vec<Finding> = Vec::new();
    let n = ms.len();
    let mut k: usize = 0;
    while k < n
        invariant
            k <= n,
            n == ms@.len(),
            i < src@.lines.len(),
            matches_wf(spans_view(ms@), src@.lines[i as int].len() as int),
            finding_views(out@) == gather(k as int, |j: int| rule.spec_match(src@, i as int, spans_view(ms@)[j])),
        decreases n - k,
    {
        assert(spans_view(ms@)[k as int] == groups_view(ms@[k as int]@));
        assert(match_wf(spans_view(ms@)[k as int], src@.lines[i as int].len() as int));
        let fs = rule.match_findings(src, i, &ms[k]);
        append_findings(&mut out, fs);
        k = k + 1;
    }
    out
}

} // verus!
