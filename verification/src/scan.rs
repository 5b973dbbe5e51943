//! Scans shared by many cops: regex matches on each line, outside strings and
//! comments, each reported with a fixed message.

use vstd::prelude::*;

use crate::offense::{Finding, FindingView, finding, finding_views};
use crate::pattern::{
    captures_all, first_match, first_match_exec, groups_view, match_wf, matches_wf, regex_captures,
    spans_view, whole, whole_exec, is_match, is_match_exec,
};
use crate::rule::{append_findings, gather, lemma_gather_all, one_if, push_if};
use crate::source::{SourceFile, SourceView, fits};
use crate::offense::Message;
use crate::pattern::{group, group_exec};
use crate::seen::{Seen, first_line_with, lemma_seen_step, lookup};
use crate::text::{bytes_of, decimal, find, find_str, lemma_find_from_spec, trim, trim_exec};

verus! {

/// The length reported for a match: `len` where given, else the match's own length.
pub open spec fn reported_len(m: Seq<Option<(int, int)>>, len: Option<int>) -> int {
    match len {
        Some(n) => n,
        None => whole(m).1 - whole(m).0,
    }
}

/// A match on line `i` that starts outside strings and comments, reported at
/// its start with message `msg`.
pub open spec fn match_outside(src: SourceView, i: int, m: Seq<Option<(int, int)>>, len: Option<int>, msg: Seq<u8>) -> Seq<FindingView> {
    one_if(
        !src.in_string_or_comment(i + 1, whole(m).0 + 1),
        finding(i + 1, whole(m).0 + 1, reported_len(m, len), msg),
    )
}

/// Every match of `p` on line `i` that starts outside strings and comments.
pub open spec fn line_matches_outside(src: SourceView, i: int, p: Seq<char>, len: Option<int>, msg: Seq<u8>) -> Seq<FindingView> {
    let ms = regex_captures(p, src.lines[i]);
    gather(ms.len() as int, |k: int| match_outside(src, i, ms[k], len, msg))
}

/// Every match of `p` on every line that starts outside strings and comments.
pub open spec fn matches_outside(src: SourceView, p: Seq<char>, len: Option<int>, msg: Seq<u8>) -> Seq<FindingView> {
    gather(src.lines.len() as int, |i: int| line_matches_outside(src, i, p, len, msg))
}

/// The first match of `p` on line `i`, where it starts outside strings and comments.
pub open spec fn first_outside(src: SourceView, i: int, p: Seq<char>, len: Option<int>, msg: Seq<u8>) -> Seq<FindingView> {
    match first_match(p, src.lines[i]) {
        Some(m) => match_outside(src, i, m, len, msg),
        None => seq![],
    }
}

/// The first match of `p` on every line, where it starts outside strings and comments.
pub open spec fn firsts_outside(src: SourceView, p: Seq<char>, len: Option<int>, msg: Seq<u8>) -> Seq<FindingView> {
    gather(src.lines.len() as int, |i: int| first_outside(src, i, p, len, msg))
}

/// Some line has a match of `p`.
pub open spec fn some_line_matches(src: SourceView, p: Seq<char>) -> bool {
    exists|j: int| 0 <= j < src.lines.len() && is_match(p, #[trigger] src.lines[j])
}

fn len_exec(len: Option<usize>, s: usize, e: usize) -> (r: usize)
    requires
        s <= e,
    ensures
        r as int == match len {
            Some(n) => n as int,
            None => e - s,
        },
{
    match len {
        Some(n) => n,
        None => e - s,
    }
}

pub open spec fn len_view(len: Option<usize>) -> Option<int> {
    match len {
        Some(n) => Some(n as int),
        None => None,
    }
}

fn match_outside_exec(src: &SourceFile, i: usize, m: &Vec<Option<(usize, usize)>>, len: Option<usize>, msg: &str) -> (r: Vec<Finding>)
    requires
        i < src@.lines.len(),
        match_wf(groups_view(m@), src@.lines[i as int].len() as int),
    ensures
        finding_views(r@) == match_outside(src@, i as int, groups_view(m@), len_view(len), bytes_of(msg)),
{
    let l = src.line_at(i);
    let (s, e) = whole_exec(m, l.len());
    let hit = !src.in_string_or_comment(i + 1, s + 1);
    let mut out: Vec<Finding> = Vec::new();
    push_if(&mut out, hit, Finding::text(i + 1, s + 1, len_exec(len, s, e), msg));
    out
}

/// Every match of `p` on line `i` that starts outside strings and comments.
pub fn line_matches_outside_exec(src: &SourceFile, i: usize, p: &str, len: Option<usize>, msg: &str) -> (r: Vec<Finding>)
    requires
        i < src@.lines.len(),
    ensures
        finding_views(r@) == line_matches_outside(src@, i as int, p@, len_view(len), bytes_of(msg)),
{
    let ms = captures_all(p, src.line_at(i));
    let ghost msv = spans_view(ms@);
    let mut out: Vec<Finding> = Vec::new();
    let mut k: usize = 0;
    while k < ms.len()
        invariant
            k <= ms@.len(),
            i < src@.lines.len(),
            msv == spans_view(ms@),
            msv == regex_captures(p@, src@.lines[i as int]),
            matches_wf(msv, src@.lines[i as int].len() as int),
            finding_views(out@) == gather(
                k as int,
                |j: int| match_outside(src@, i as int, msv[j], len_view(len), bytes_of(msg)),
            ),
        decreases ms.len() - k,
    {
        assert(msv[k as int] == groups_view(ms@[k as int]@));
        assert(match_wf(msv[k as int], src@.lines[i as int].len() as int));
        let fs = match_outside_exec(src, i, &ms[k], len, msg);
        append_findings(&mut out, fs);
        k = k + 1;
    }
    out
}

/// Every match of `p` on every line that starts outside strings and comments.
pub fn scan_matches_outside(src: &SourceFile, p: &str, len: Option<usize>, msg: &str) -> (r: Vec<Finding>)
    ensures
        finding_views(r@) == matches_outside(src@, p@, len_view(len), bytes_of(msg)),
{
    let mut out: Vec<Finding> = Vec::new();
    let n = src.line_count();
    let mut i: usize = 0;
    while i < n
        invariant
            i <= n,
            n == src@.lines.len(),
            finding_views(out@) == gather(
                i as int,
                |j: int| line_matches_outside(src@, j, p@, len_view(len), bytes_of(msg)),
            ),
        decreases n - i,
    {
        let fs = line_matches_outside_exec(src, i, p, len, msg);
        append_findings(&mut out, fs);
        i = i + 1;
    }
    out
}

/// The first match of `p` on every line, where it starts outside strings and comments.
pub fn scan_firsts_outside(src: &SourceFile, p: &str, len: Option<usize>, msg: &str) -> (r: Vec<Finding>)
    ensures
        finding_views(r@) == firsts_outside(src@, p@, len_view(len), bytes_of(msg)),
{
    let mut out: Vec<Finding> = Vec::new();
    let n = src.line_count();
    let mut i: usize = 0;
    while i < n
        invariant
            i <= n,
            n == src@.lines.len(),
            finding_views(out@) == gather(i as int, |j: int| first_outside(src@, j, p@, len_view(len), bytes_of(msg))),
        decreases n - i,
    {
        match first_match_exec(p, src.line_at(i)) {
            Some(m) => {
                let fs = match_outside_exec(src, i, &m, len, msg);
                append_findings(&mut out, fs);
            },
            None => {
                push_if(&mut out, false, Finding::text(0, 0, 0, msg));
            },
        }
        i = i + 1;
    }
    out
}

/// Whether some line has a match of `p`.
pub fn some_line_matches_exec(src: &SourceFile, p: &str) -> (r: bool)
    ensures
        r == some_line_matches(src@, p@),
{
    let n = src.line_count();
    let mut i: usize = 0;
    while i < n
        invariant
            i <= n,
            n == src@.lines.len(),
            forall|j: int| 0 <= j < i ==> !is_match(p@, #[trigger] src@.lines[j]),
        decreases n - i,
    {
        if is_match_exec(p, src.line_at(i)) {
            return true;
        }
        i = i + 1;
    }
    false
}

/// The text of group `k` of match `m` on `line`.
pub open spec fn group_text(line: Seq<u8>, m: Seq<Option<(int, int)>>, k: int) -> Option<Seq<u8>> {
    match group(m, k) {
        Some(g) => Some(line.subrange(g.0, g.1)),
        None => None,
    }
}

/// The text of group 1 of the first match of `p` on `line`.
pub open spec fn captured_name(p: Seq<char>, line: Seq<u8>) -> Option<Seq<u8>> {
    match first_match(p, line) {
        Some(m) => group_text(line, m, 1),
        None => None,
    }
}

/// The 1-based column of the first match of `p` on `line`.
pub open spec fn match_col(p: Seq<char>, line: Seq<u8>) -> int {
    match first_match(p, line) {
        Some(m) => whole(m).0 + 1,
        None => 0,
    }
}

/// A name captured on line `j` that was already captured on an earlier line:
/// reported with the number of the line where it was first seen.
pub open spec fn duplicate_at(src: SourceView, j: int, p: Seq<char>, head: Seq<u8>, mid: Seq<u8>, trimmed: bool) -> Seq<FindingView> {
    let l = src.lines[j];
    match captured_name(p, l) {
        Some(nm) => match first_line_with(|k: int| captured_name(p, src.lines[k]), j, nm) {
            Some(first) => seq![
                finding(
                    j + 1,
                    match_col(p, l),
                    if trimmed {
                        trim(l).len() as int
                    } else {
                        l.len() as int
                    },
                    head + nm + mid + decimal(first as nat) + bytes_of(")"),
                ),
            ],
            None => seq![],
        },
        None => seq![],
    }
}

pub open spec fn duplicates(src: SourceView, p: Seq<char>, head: Seq<u8>, mid: Seq<u8>, trimmed: bool) -> Seq<FindingView> {
    gather(src.lines.len() as int, |j: int| duplicate_at(src, j, p, head, mid, trimmed))
}

proof fn lemma_first_line_bounds(names: spec_fn(int) -> Option<Seq<u8>>, n: int, k: Seq<u8>)
    requires
        0 <= n,
    ensures
        match first_line_with(names, n, k) {
            Some(v) => 1 <= v <= n,
            None => true,
        },
    decreases n,
{
    if n > 0 {
        lemma_first_line_bounds(names, n - 1, k);
    }
}

/// Every name captured by `p` that was captured on an earlier line.
pub fn scan_duplicates(src: &SourceFile, p: &str, head: &str, mid: &str, trimmed: bool) -> (r: Vec<Finding>)
    ensures
        finding_views(r@) == duplicates(src@, p@, bytes_of(head), bytes_of(mid), trimmed),
{
    let mut out: Vec<Finding> = Vec::new();
    let mut seen = Seen::new();
    let n = src.line_count();
    let ghost names = |k: int| captured_name(p@, src@.lines[k]);
    let mut i: usize = 0;
    while i < n
        invariant
            i <= n,
            n == src@.lines.len(),
            fits(src@),
            names == (|k: int| captured_name(p@, src@.lines[k])),
            forall|k: Seq<u8>| #[trigger] lookup(seen@, k) == first_line_with(names, i as int, k),
            forall|k: Seq<u8>| match #[trigger] lookup(seen@, k) {
                Some(v) => 1 <= v <= i,
                None => true,
            },
            finding_views(out@) == gather(
                i as int,
                |j: int| duplicate_at(src@, j, p@, bytes_of(head), bytes_of(mid), trimmed),
            ),
        decreases n - i,
    {
        let l = src.line_at(i);
        proof {
            lemma_seen_step(seen@, names, i as int);
        }
        let mut fs: Vec<Finding> = Vec::new();
        match first_match_exec(p, l) {
            Some(m) => {
                match group_exec(&m, 1) {
                    Some(g) => {
                        assert(groups_view(m@)[1] == Some((g.0 as int, g.1 as int)));
                        let nm = &l[g.0..g.1];
                        match seen.lookup(nm) {
                            Some(first) => {
                                let (s, e) = whole_exec(&m, l.len());
                                let mut msg = Message::from_str(head);
                                msg.push_bytes(nm);
                                msg.push_str(mid);
                                msg.push_decimal(first as u128);
                                msg.push_str(")");
                                let len = if trimmed { trim_exec(l).len() } else { l.len() };
                                push_if(&mut fs, true, Finding::new(i + 1, s + 1, len, msg));
                            },
                            None => {
                                seen.insert(nm, i + 1);
                            },
                        }
                    },
                    None => {},
                }
            },
            None => {},
        }
        append_findings(&mut out, fs);
        proof {
            assert forall|k: Seq<u8>| match #[trigger] lookup(seen@, k) {
                Some(v) => 1 <= v <= i + 1,
                None => true,
            } by {
                lemma_first_line_bounds(names, i + 1, k);
            }
        }
        i = i + 1;
    }
    out
}

/// The text of group `k` of match `m` on `line`, empty where the group did
/// not take part in the match.
pub open spec fn group_bytes(line: Seq<u8>, m: Seq<Option<(int, int)>>, k: int) -> Seq<u8> {
    match group(m, k) {
        Some(g) => line.subrange(g.0, g.1),
        None => seq![],
    }
}

pub fn group_bytes_exec<'a>(line: &'a [u8], m: &Vec<Option<(usize, usize)>>, k: usize) -> (r: &'a [u8])
    requires
        match_wf(groups_view(m@), line@.len() as int),
    ensures
        r@ == group_bytes(line@, groups_view(m@), k as int),
{
    match group_exec(m, k) {
        Some(g) => {
            assert(groups_view(m@)[k as int] == Some((g.0 as int, g.1 as int)));
            &line[g.0..g.1]
        },
        None => {
            assert(line@.subrange(0, 0) =~= Seq::<u8>::empty());
            &line[0..0]
        },
    }
}

/// A finding over the whole of match `m` on line `i`, when `hit` holds.
pub open spec fn whole_finding(i: int, m: Seq<Option<(int, int)>>, hit: bool, msg: Seq<u8>) -> Seq<FindingView> {
    one_if(hit, finding(i + 1, whole(m).0 + 1, whole(m).1 - whole(m).0, msg))
}

pub fn whole_finding_exec(i: usize, m: &Vec<Option<(usize, usize)>>, len: usize, hit: bool, msg: Message) -> (r: Vec<Finding>)
    requires
        match_wf(groups_view(m@), len as int),
        i < usize::MAX,
        len < usize::MAX,
    ensures
        finding_views(r@) == whole_finding(i as int, groups_view(m@), hit, msg@),
{
    let (s, e) = whole_exec(m, len);
    let mut out: Vec<Finding> = Vec::new();
    push_if(&mut out, hit, Finding::new(i + 1, s + 1, e - s, msg));
    out
}

/// The first occurrence of `needle` on line `i`, when it starts outside
/// strings and comments, reported with length `len`.
pub open spec fn first_text_outside(src: SourceView, i: int, needle: Seq<u8>, len: int, msg: Seq<u8>) -> Seq<FindingView> {
    match find(src.lines[i], needle) {
        Some(p) => one_if(!src.in_string_or_comment(i + 1, p + 1), finding(i + 1, p + 1, len, msg)),
        None => seq![],
    }
}

pub fn first_text_outside_exec(src: &SourceFile, i: usize, needle: &str, len: usize, msg: &str) -> (r: Vec<Finding>)
    requires
        i < src@.lines.len(),
    ensures
        finding_views(r@) == first_text_outside(src@, i as int, bytes_of(needle), len as int, bytes_of(msg)),
{
    let l = src.line_at(i);
    let mut out: Vec<Finding> = Vec::new();
    match find_str(l, needle) {
        Some(p) => {
            proof {
                lemma_find_from_spec(l@, bytes_of(needle), 0);
            }
            push_if(&mut out, !src.in_string_or_comment(i + 1, p + 1), Finding::text(i + 1, p + 1, len, msg));
        },
        None => {},
    }
    out
}

/// The finding does not start inside a string literal or a comment.
pub open spec fn starts_outside(src: SourceView, f: FindingView) -> bool {
    !src.in_string_or_comment(f.line, f.column)
}

/// A cop that reports the matches of a pattern outside strings and comments
/// reports nothing that starts inside a string literal or a comment.
pub proof fn law_matches_outside_start_outside(src: SourceView, p: Seq<char>, len: Option<int>, msg: Seq<u8>)
    ensures
        forall|k: int| 0 <= k < matches_outside(src, p, len, msg).len() ==> starts_outside(src, #[trigger] matches_outside(src, p, len, msg)[k]),
{
    let pr = |f: FindingView| starts_outside(src, f);
    assert forall|i: int, k: int| 0 <= i < src.lines.len() && 0 <= k < line_matches_outside(src, i, p, len, msg).len() implies #[trigger] pr(
        #[trigger] line_matches_outside(src, i, p, len, msg)[k],
    ) by {
        let ms = regex_captures(p, src.lines[i]);
        let per = |j: int| match_outside(src, i, ms[j], len, msg);
        assert forall|j: int, q: int| 0 <= j < ms.len() && 0 <= q < per(j).len() implies #[trigger] pr(#[trigger] per(j)[q]) by {}
        lemma_gather_all(ms.len() as int, per, pr);
        assert(line_matches_outside(src, i, p, len, msg) == gather(ms.len() as int, per));
        assert(pr(gather(ms.len() as int, per)[k]));
    }
    let f = |i: int| line_matches_outside(src, i, p, len, msg);
    lemma_gather_all(src.lines.len() as int, f, pr);
    assert(matches_outside(src, p, len, msg) == gather(src.lines.len() as int, f));
    assert forall|k: int| 0 <= k < matches_outside(src, p, len, msg).len() implies starts_outside(
        src,
        #[trigger] matches_outside(src, p, len, msg)[k],
    ) by {
        assert(pr(gather(src.lines.len() as int, f)[k]));
    }
}

/// The same for cops that report only the first match on each line.
pub proof fn law_firsts_outside_start_outside(src: SourceView, p: Seq<char>, len: Option<int>, msg: Seq<u8>)
    ensures
        forall|k: int| 0 <= k < firsts_outside(src, p, len, msg).len() ==> starts_outside(src, #[trigger] firsts_outside(src, p, len, msg)[k]),
{
    let pr = |f: FindingView| starts_outside(src, f);
    assert forall|i: int, k: int| 0 <= i < src.lines.len() && 0 <= k < first_outside(src, i, p, len, msg).len() implies #[trigger] pr(
        #[trigger] first_outside(src, i, p, len, msg)[k],
    ) by {}
    let f = |i: int| first_outside(src, i, p, len, msg);
    lemma_gather_all(src.lines.len() as int, f, pr);
    assert(firsts_outside(src, p, len, msg) == gather(src.lines.len() as int, f));
    assert forall|k: int| 0 <= k < firsts_outside(src, p, len, msg).len() implies starts_outside(
        src,
        #[trigger] firsts_outside(src, p, len, msg)[k],
    ) by {
        assert(pr(gather(src.lines.len() as int, f)[k]));
    }
}

/// A condition on a regex match, beyond the match itself.
pub trait MatchCond {
    spec fn spec_ok(&self, src: SourceView, i: int, m: Seq<Option<(int, int)>>) -> bool;

    fn ok(&self, src: &SourceFile, i: usize, m: &Vec<Option<(usize, usize)>>) -> (r: bool)
        requires
            i < src@.lines.len(),
            match_wf(groups_view(m@), src@.lines[i as int].len() as int),
        ensures
            r == self.spec_ok(src@, i as int, groups_view(m@)),
    ;
}

/// A match on line `i` for which the condition holds, reported at its start.
pub open spec fn cond_match<C: MatchCond>(c: &C, src: SourceView, i: int, m: Seq<Option<(int, int)>>, len: Option<int>, msg: Seq<u8>) -> Seq<FindingView> {
    one_if(c.spec_ok(src, i, m), finding(i + 1, whole(m).0 + 1, reported_len(m, len), msg))
}

pub open spec fn cond_line<C: MatchCond>(c: &C, src: SourceView, i: int, p: Seq<char>, len: Option<int>, msg: Seq<u8>) -> Seq<FindingView> {
    let ms = regex_captures(p, src.lines[i]);
    gather(ms.len() as int, |k: int| cond_match(c, src, i, ms[k], len, msg))
}

/// Every match of `p` on every line for which the condition holds.
pub open spec fn cond_matches<C: MatchCond>(c: &C, src: SourceView, p: Seq<char>, len: Option<int>, msg: Seq<u8>) -> Seq<FindingView> {
    gather(src.lines.len() as int, |i: int| cond_line(c, src, i, p, len, msg))
}

pub open spec fn cond_first<C: MatchCond>(c: &C, src: SourceView, i: int, p: Seq<char>, len: Option<int>, msg: Seq<u8>) -> Seq<FindingView> {
    match first_match(p, src.lines[i]) {
        Some(m) => cond_match(c, src, i, m, len, msg),
        None => seq![],
    }
}

/// The first match of `p` on every line, where the condition holds for it.
pub open spec fn cond_firsts<C: MatchCond>(c: &C, src: SourceView, p: Seq<char>, len: Option<int>, msg: Seq<u8>) -> Seq<FindingView> {
    gather(src.lines.len() as int, |i: int| cond_first(c, src, i, p, len, msg))
}

fn cond_match_exec<C: MatchCond>(c: &C, src: &SourceFile, i: usize, m: &Vec<Option<(usize, usize)>>, len: Option<usize>, msg: &str) -> (r: Vec<Finding>)
    requires
        i < src@.lines.len(),
        match_wf(groups_view(m@), src@.lines[i as int].len() as int),
    ensures
        finding_views(r@) == cond_match(c, src@, i as int, groups_view(m@), len_view(len), bytes_of(msg)),
{
    let l = src.line_at(i);
    let (s, e) = whole_exec(m, l.len());
    let hit = c.ok(src, i, m);
    let mut out: Vec<Finding> = Vec::new();
    push_if(&mut out, hit, Finding::text(i + 1, s + 1, len_exec(len, s, e), msg));
    out
}

/// Every match of `p` on every line for which the condition holds.
pub fn scan_cond_matches<C: MatchCond>(c: &C, src: &SourceFile, p: &str, len: Option<usize>, msg: &str) -> (r: Vec<Finding>)
    ensures
        finding_views(r@) == cond_matches(c, src@, p@, len_view(len), bytes_of(msg)),
{
    let mut out: Vec<Finding> = Vec::new();
    let n = src.line_count();
    let mut i: usize = 0;
    while i < n
        invariant
            i <= n,
            n == src@.lines.len(),
            finding_views(out@) == gather(i as int, |j: int| cond_line(c, src@, j, p@, len_view(len), bytes_of(msg))),
        decreases n - i,
    {
        let ms = captures_all(p, src.line_at(i));
        let ghost msv = spans_view(ms@);
        let mut line_out: Vec<Finding> = Vec::new();
        let mut k: usize = 0;
        while k < ms.len()
            invariant
                k <= ms@.len(),
                i < n,
                n == src@.lines.len(),
                msv == spans_view(ms@),
                msv == regex_captures(p@, src@.lines[i as int]),
                matches_wf(msv, src@.lines[i as int].len() as int),
                finding_views(line_out@) == gather(
                    k as int,
                    |j: int| cond_match(c, src@, i as int, msv[j], len_view(len), bytes_of(msg)),
                ),
            decreases ms.len() - k,
        {
            assert(msv[k as int] == groups_view(ms@[k as int]@));
            assert(match_wf(msv[k as int], src@.lines[i as int].len() as int));
            let fs = cond_match_exec(c, src, i, &ms[k], len, msg);
            append_findings(&mut line_out, fs);
            k = k + 1;
        }
        append_findings(&mut out, line_out);
        i = i + 1;
    }
    out
}

/// The first match of `p` on every line, where the condition holds for it.
pub fn scan_cond_firsts<C: MatchCond>(c: &C, src: &SourceFile, p: &str, len: Option<usize>, msg: &str) -> (r: Vec<Finding>)
    ensures
        finding_views(r@) == cond_firsts(c, src@, p@, len_view(len), bytes_of(msg)),
{
    let mut out: Vec<Finding> = Vec::new();
    let n = src.line_count();
    let mut i: usize = 0;
    while i < n
        invariant
            i <= n,
            n == src@.lines.len(),
            finding_views(out@) == gather(i as int, |j: int| cond_first(c, src@, j, p@, len_view(len), bytes_of(msg))),
        decreases n - i,
    {
        match first_match_exec(p, src.line_at(i)) {
            Some(m) => {
                let fs = cond_match_exec(c, src, i, &m, len, msg);
                append_findings(&mut out, fs);
            },
            None => {
                push_if(&mut out, false, Finding::text(0, 0, 0, msg));
            },
        }
        i = i + 1;
    }
    out
}

/// The line `i + 1` (1-based) after line `i`, when it exists and is blank.
pub open spec fn next_blank(src: SourceView, i: int) -> bool {
    i + 1 < src.lines.len() && crate::text::is_blank(src.lines[i + 1])
}

pub fn next_blank_exec(src: &SourceFile, i: usize) -> (r: bool)
    requires
        i < src@.lines.len(),
    ensures
        r == next_blank(src@, i as int),
{
    let n = src.line_count();
    i + 1 < n && crate::text::is_blank_exec(src.line_at(i + 1))
}

} // verus!
