//! Additional layout cops: spacing, blank lines and indentation, line by line.

use vstd::prelude::*;

use crate::cop::{Category, Cop, Severity};
use crate::offense::{Finding, FindingView, Message, Offense, finding, finding_views, report};
use crate::pattern::{
    captures_all, first_match, first_match_exec, groups_view, is_match, is_match_exec, match_wf,
    matches_wf, regex_captures, spans_view, whole, whole_exec,
};
use crate::rule::{LineRule, all_lines, append_findings, gather, one_if, push_if, run_lines};
use crate::scan::{
    MatchCond, cond_firsts, cond_matches, firsts_outside, matches_outside, scan_firsts_outside, next_blank, next_blank_exec,
    scan_cond_firsts, scan_cond_matches, scan_matches_outside,
};
use crate::source::{SourceFile, SourceView, fits};
use crate::text::{
    bytes_of, contains, decimal, ends_with, find, find_byte, find_byte_from, is_blank, lead_ws,
    starts_with, trim, trim_end, trim_start, ws_len_at,
};
use crate::text::{
    contains_str, ends_with_str, eq_str, find_byte_exec, find_str, is_blank_exec,
    lead_ws_exec, starts_with_str, trim_end_exec, trim_exec, trim_start_exec, ws_len_at_exec,
};

verus! {

/// A magic comment: `# frozen_string_literal:`, `# encoding:`, `# coding:` or `# warn_indent:`.
pub open spec fn magic_comment(line: Seq<u8>) -> bool {
    let t = trim(line);
    starts_with(t, bytes_of("# frozen_string_literal:")) || starts_with(t, bytes_of("# encoding:"))
        || starts_with(t, bytes_of("# coding:")) || starts_with(t, bytes_of("# warn_indent:"))
}

/// Whether a line is a magic comment.
pub fn is_magic_comment(line: &[u8]) -> (r: bool)
    ensures
        r == magic_comment(line@),
{
    let t = trim_exec(line);
    starts_with_str(t, "# frozen_string_literal:") || starts_with_str(t, "# encoding:")
        || starts_with_str(t, "# coding:") || starts_with_str(t, "# warn_indent:")
}

impl LineRule for LineLength {
    /// A line longer than 120 bytes.
    open spec fn spec_line(&self, src: SourceView, i: int) -> Seq<FindingView> {
        let l = src.lines[i];
        one_if(
            l.len() > 120,
            finding(i + 1, 121, l.len() - 120, bytes_of("Line is too long. [") + decimal(l.len()) + bytes_of("/120]")),
        )
    }

    fn line_findings(&self, src: &SourceFile, i: usize) -> (r: Vec<Finding>) {
        let l = src.line_at(i);
        let mut out: Vec<Finding> = Vec::new();
        if l.len() > 120 {
            let mut msg = Message::from_str("Line is too long. [");
            msg.push_decimal(l.len() as u128);
            msg.push_str("/120]");
            push_if(&mut out, true, Finding::new(i + 1, 121, l.len() - 120, msg));
        }
        out
    }
}

/// Checks that lines do not exceed 120 characters
pub struct LineLength;

impl Cop for LineLength {
    open spec fn spec_name(&self) -> Seq<char> {
        "Layout/LineLength"@
    }

    open spec fn spec_category(&self) -> Category {
        Category::Layout
    }

    open spec fn spec_severity(&self) -> Severity {
        Severity::Convention
    }

    open spec fn spec_check(&self, src: SourceView) -> Seq<FindingView> {
        all_lines(self, src)
    }

    fn name(&self) -> (r: &str) {
        "Layout/LineLength"
    }

    fn category(&self) -> (r: Category) {
        Category::Layout
    }

    fn severity(&self) -> (r: Severity) {
        Severity::Convention
    }

    open spec fn spec_description(&self) -> Seq<char> {
        "Checks that lines do not exceed 120 characters"@
    }

    fn description(&self) -> (r: &str) {
        "Checks that lines do not exceed 120 characters"
    }

    fn check(&self, source: &SourceFile) -> (r: Vec<Offense>) {
        report(self.name(), self.severity(), run_lines(self, source))
    }
}

impl LineRule for EmptyComment {
    /// A comment that is only `#`.
    open spec fn spec_line(&self, src: SourceView, i: int) -> Seq<FindingView> {
        let l = src.lines[i];
        match find_byte(l, 35u8) {
            Some(c) => one_if(trim(l) == bytes_of("#"), finding(i + 1, c + 1, 1, bytes_of("Empty comment detected."))),
            None => seq![],
        }
    }

    fn line_findings(&self, src: &SourceFile, i: usize) -> (r: Vec<Finding>) {
        let l = src.line_at(i);
        let mut out: Vec<Finding> = Vec::new();
        match find_byte_exec(l, 35u8) {
            Some(c) => {
                proof {
                    crate::text::lemma_find_byte_from_spec(l@, 35u8, 0);
                }
                push_if(&mut out, eq_str(trim_exec(l), "#"), Finding::text(i + 1, c + 1, 1, "Empty comment detected."));
            },
            None => {},
        }
        out
    }
}

/// Checks for comments that contain only a # character
pub struct EmptyComment;

impl Cop for EmptyComment {
    open spec fn spec_name(&self) -> Seq<char> {
        "Layout/EmptyComment"@
    }

    open spec fn spec_category(&self) -> Category {
        Category::Layout
    }

    open spec fn spec_severity(&self) -> Severity {
        Severity::Convention
    }

    open spec fn spec_check(&self, src: SourceView) -> Seq<FindingView> {
        all_lines(self, src)
    }

    fn name(&self) -> (r: &str) {
        "Layout/EmptyComment"
    }

    fn category(&self) -> (r: Category) {
        Category::Layout
    }

    fn severity(&self) -> (r: Severity) {
        Severity::Convention
    }

    open spec fn spec_description(&self) -> Seq<char> {
        "Checks for comments that contain only a # character"@
    }

    fn description(&self) -> (r: &str) {
        "Checks for comments that contain only a # character"
    }

    fn check(&self, source: &SourceFile) -> (r: Vec<Offense>) {
        report(self.name(), self.severity(), run_lines(self, source))
    }
}

/// After the first `n` lines: the run of blank lines just seen, and the findings.
pub open spec fn empty_lines_fold(src: SourceView, n: int) -> (int, Seq<FindingView>)
    decreases n,
{
    if n <= 0 {
        (0, seq![])
    } else {
        let prev = empty_lines_fold(src, n - 1);
        if is_blank(src.lines[n - 1]) {
            let c = prev.0 + 1;
            (c, prev.1 + one_if(c > 1, finding(n, 1, 1, bytes_of("Multiple consecutive blank lines detected."))))
        } else {
            (0, prev.1)
        }
    }
}

proof fn lemma_empty_lines_fold(src: SourceView, n: int)
    requires
        0 <= n,
    ensures
        0 <= empty_lines_fold(src, n).0 <= n,
    decreases n,
{
    if n > 0 {
        lemma_empty_lines_fold(src, n - 1);
    }
}

/// Checks for multiple consecutive blank lines
pub struct EmptyLines;

impl Cop for EmptyLines {
    open spec fn spec_name(&self) -> Seq<char> {
        "Layout/EmptyLines"@
    }

    open spec fn spec_category(&self) -> Category {
        Category::Layout
    }

    open spec fn spec_severity(&self) -> Severity {
        Severity::Convention
    }

    open spec fn spec_check(&self, src: SourceView) -> Seq<FindingView> {
        empty_lines_fold(src, src.lines.len() as int).1
    }

    fn name(&self) -> (r: &str) {
        "Layout/EmptyLines"
    }

    fn category(&self) -> (r: Category) {
        Category::Layout
    }

    fn severity(&self) -> (r: Severity) {
        Severity::Convention
    }

    open spec fn spec_description(&self) -> Seq<char> {
        "Checks for multiple consecutive blank lines"@
    }

    fn description(&self) -> (r: &str) {
        "Checks for multiple consecutive blank lines"
    }

    fn check(&self, source: &SourceFile) -> (r: Vec<Offense>) {
        let mut out: Vec<Finding> = Vec::new();
        let mut run: usize = 0;
        let n = source.line_count();
        let mut i: usize = 0;
        while i < n
            invariant
                i <= n,
                n == source@.lines.len(),
                fits(source@),
                (run as int, finding_views(out@)) == empty_lines_fold(source@, i as int),
            decreases n - i,
        {
            proof {
                lemma_empty_lines_fold(source@, i as int);
            }
            if is_blank_exec(source.line_at(i)) {
                run = run + 1;
                push_if(&mut out, run > 1, Finding::text(i + 1, 1, 1, "Multiple consecutive blank lines detected."));
            } else {
                run = 0;
            }
            i = i + 1;
        }
        report(self.name(), self.severity(), out)
    }
}

impl MatchCond for LeadingCommentSpace {
    /// Outside shebang and magic-comment lines, a `#` followed by neither space nor `#`.
    open spec fn spec_ok(&self, src: SourceView, i: int, m: Seq<Option<(int, int)>>) -> bool {
        let l = src.lines[i];
        !(starts_with(trim(l), bytes_of("#!")) || magic_comment(l)) && (!src.in_string_or_comment(i + 1, whole(m).0 + 1)
            || l[whole(m).0] == 35u8)
    }

    fn ok(&self, src: &SourceFile, i: usize, m: &Vec<Option<(usize, usize)>>) -> (r: bool) {
        let l = src.line_at(i);
        let (s, e) = whole_exec(m, l.len());
        if starts_with_str(trim_exec(l), "#!") || is_magic_comment(l) {
            return false;
        }
        !src.in_string_or_comment(i + 1, s + 1) || (s < l.len() && l[s] == 35u8)
    }
}

/// Checks for missing space after # in comments
pub struct LeadingCommentSpace;

impl Cop for LeadingCommentSpace {
    open spec fn spec_name(&self) -> Seq<char> {
        "Layout/LeadingCommentSpace"@
    }

    open spec fn spec_category(&self) -> Category {
        Category::Layout
    }

    open spec fn spec_severity(&self) -> Severity {
        Severity::Convention
    }

    open spec fn spec_check(&self, src: SourceView) -> Seq<FindingView> {
        cond_firsts(self, src, r#"#[^ #\n]"#@, Some(2), bytes_of("Missing space after #."))
    }

    fn name(&self) -> (r: &str) {
        "Layout/LeadingCommentSpace"
    }

    fn category(&self) -> (r: Category) {
        Category::Layout
    }

    fn severity(&self) -> (r: Severity) {
        Severity::Convention
    }

    open spec fn spec_description(&self) -> Seq<char> {
        "Checks for missing space after # in comments"@
    }

    fn description(&self) -> (r: &str) {
        "Checks for missing space after # in comments"
    }

    fn check(&self, source: &SourceFile) -> (r: Vec<Offense>) {
        let fs = scan_cond_firsts(self, source, r#"#[^ #\n]"#, Some(2), "Missing space after #.");
        report(self.name(), self.severity(), fs)
    }
}

/// A run of two or more spaces between tokens, found after the indentation.
pub open spec fn extra_spacing_match(src: SourceView, i: int, m: Seq<Option<(int, int)>>) -> Seq<FindingView> {
    let col = whole(m).0 + lead_ws(src.lines[i]) + 2;
    one_if(
        !src.in_string_or_comment(i + 1, col) && whole(m).1 > whole(m).0,
        finding(i + 1, col, whole(m).1 - whole(m).0 - 1, bytes_of("Extra spacing detected.")),
    )
}

impl LineRule for ExtraSpacing {
    open spec fn spec_line(&self, src: SourceView, i: int) -> Seq<FindingView> {
        let ms = regex_captures(r#"[^ \t]  +[^ \t]"#@, trim_start(src.lines[i]));
        gather(ms.len() as int, |k: int| extra_spacing_match(src, i, ms[k]))
    }

    fn line_findings(&self, src: &SourceFile, i: usize) -> (r: Vec<Finding>) {
        let l = src.line_at(i);
        let ts = lead_ws_exec(l);
        proof {
            crate::text::lemma_lead_ws_bounds(l@);
        }
        let rest = &l[ts..l.len()];
        let ms = captures_all(r#"[^ \t]  +[^ \t]"#, rest);
        let ghost msv = spans_view(ms@);
        let mut out: Vec<Finding> = Vec::new();
        let mut k: usize = 0;
        while k < ms.len()
            invariant
                k <= ms@.len(),
                i < src@.lines.len(),
                fits(src@),
                l@ == src@.lines[i as int],
                ts == lead_ws(l@),
                ts <= l@.len(),
                rest@ == trim_start(l@),
                rest@.len() == l@.len() - ts,
                msv == spans_view(ms@),
                msv == regex_captures(r#"[^ \t]  +[^ \t]"#@, rest@),
                matches_wf(msv, rest@.len() as int),
                finding_views(out@) == gather(k as int, |j: int| extra_spacing_match(src@, i as int, msv[j])),
            decreases ms.len() - k,
        {
            assert(msv[k as int] == groups_view(ms@[k as int]@));
            let (s, e) = whole_exec(&ms[k], rest.len());
            let col = s + ts + 2;
            let len = if e > s { e - s - 1 } else { 0 };
            let hit = !src.in_string_or_comment(i + 1, col);
            let mut fs: Vec<Finding> = Vec::new();
            push_if(&mut fs, hit && e > s, Finding::text(i + 1, col, len, "Extra spacing detected."));
            append_findings(&mut out, fs);
            k = k + 1;
        }
        out
    }
}

/// Checks for extra spacing between tokens
pub struct ExtraSpacing;

impl Cop for ExtraSpacing {
    open spec fn spec_name(&self) -> Seq<char> {
        "Layout/ExtraSpacing"@
    }

    open spec fn spec_category(&self) -> Category {
        Category::Layout
    }

    open spec fn spec_severity(&self) -> Severity {
        Severity::Convention
    }

    open spec fn spec_check(&self, src: SourceView) -> Seq<FindingView> {
        all_lines(self, src)
    }

    fn name(&self) -> (r: &str) {
        "Layout/ExtraSpacing"
    }

    fn category(&self) -> (r: Category) {
        Category::Layout
    }

    fn severity(&self) -> (r: Severity) {
        Severity::Convention
    }

    open spec fn spec_description(&self) -> Seq<char> {
        "Checks for extra spacing between tokens"@
    }

    fn description(&self) -> (r: &str) {
        "Checks for extra spacing between tokens"
    }

    fn check(&self, source: &SourceFile) -> (r: Vec<Offense>) {
        report(self.name(), self.severity(), run_lines(self, source))
    }
}

impl MatchCond for SpaceAfterColon {
    /// A colon not preceded by a colon or space.
    open spec fn spec_ok(&self, src: SourceView, i: int, m: Seq<Option<(int, int)>>) -> bool {
        !src.in_string_or_comment(i + 1, whole(m).0 + 1) && (!(whole(m).0 > 0 && (src.lines[i][whole(m).0 - 1] == 58u8 || src.lines[i][whole(m).0 - 1] == 32u8)))
    }

    fn ok(&self, src: &SourceFile, i: usize, m: &Vec<Option<(usize, usize)>>) -> (r: bool) {
        let l = src.line_at(i);
        let (s, e) = whole_exec(m, l.len());
        if src.in_string_or_comment(i + 1, s + 1) {
            return false;
        }
        !(s > 0 && (l[s - 1] == 58u8 || l[s - 1] == 32u8))
    }
}

/// Checks for missing space after colon in hash literals
pub struct SpaceAfterColon;

impl Cop for SpaceAfterColon {
    open spec fn spec_name(&self) -> Seq<char> {
        "Layout/SpaceAfterColon"@
    }

    open spec fn spec_category(&self) -> Category {
        Category::Layout
    }

    open spec fn spec_severity(&self) -> Severity {
        Severity::Convention
    }

    open spec fn spec_check(&self, src: SourceView) -> Seq<FindingView> {
        cond_matches(self, src, r#":[^ \n]"#@, Some(2), bytes_of("Space missing after colon."))
    }

    fn name(&self) -> (r: &str) {
        "Layout/SpaceAfterColon"
    }

    fn category(&self) -> (r: Category) {
        Category::Layout
    }

    fn severity(&self) -> (r: Severity) {
        Severity::Convention
    }

    open spec fn spec_description(&self) -> Seq<char> {
        "Checks for missing space after colon in hash literals"@
    }

    fn description(&self) -> (r: &str) {
        "Checks for missing space after colon in hash literals"
    }

    fn check(&self, source: &SourceFile) -> (r: Vec<Offense>) {
        let fs = scan_cond_matches(self, source, r#":[^ \n]"#, Some(2), "Space missing after colon.");
        report(self.name(), self.severity(), fs)
    }
}

/// Checks for space between method name and opening parenthesis
pub struct SpaceAfterMethodName;

impl Cop for SpaceAfterMethodName {
    open spec fn spec_name(&self) -> Seq<char> {
        "Layout/SpaceAfterMethodName"@
    }

    open spec fn spec_category(&self) -> Category {
        Category::Layout
    }

    open spec fn spec_severity(&self) -> Severity {
        Severity::Convention
    }

    open spec fn spec_check(&self, src: SourceView) -> Seq<FindingView> {
        firsts_outside(src, r#"\bdef\s+\w+\s+\("#@, None, bytes_of("Do not put space between method name and opening parenthesis."))
    }

    fn name(&self) -> (r: &str) {
        "Layout/SpaceAfterMethodName"
    }

    fn category(&self) -> (r: Category) {
        Category::Layout
    }

    fn severity(&self) -> (r: Severity) {
        Severity::Convention
    }

    open spec fn spec_description(&self) -> Seq<char> {
        "Checks for space between method name and opening parenthesis"@
    }

    fn description(&self) -> (r: &str) {
        "Checks for space between method name and opening parenthesis"
    }

    fn check(&self, source: &SourceFile) -> (r: Vec<Offense>) {
        let fs = scan_firsts_outside(source, r#"\bdef\s+\w+\s+\("#, None, "Do not put space between method name and opening parenthesis.");
        report(self.name(), self.severity(), fs)
    }
}

/// Checks for space after ! operator
pub struct SpaceAfterNot;

impl Cop for SpaceAfterNot {
    open spec fn spec_name(&self) -> Seq<char> {
        "Layout/SpaceAfterNot"@
    }

    open spec fn spec_category(&self) -> Category {
        Category::Layout
    }

    open spec fn spec_severity(&self) -> Severity {
        Severity::Convention
    }

    open spec fn spec_check(&self, src: SourceView) -> Seq<FindingView> {
        matches_outside(src, r#"!\s+[^\s=]"#@, None, bytes_of("Do not leave space after ! operator."))
    }

    fn name(&self) -> (r: &str) {
        "Layout/SpaceAfterNot"
    }

    fn category(&self) -> (r: Category) {
        Category::Layout
    }

    fn severity(&self) -> (r: Severity) {
        Severity::Convention
    }

    open spec fn spec_description(&self) -> Seq<char> {
        "Checks for space after ! operator"@
    }

    fn description(&self) -> (r: &str) {
        "Checks for space after ! operator"
    }

    fn check(&self, source: &SourceFile) -> (r: Vec<Offense>) {
        let fs = scan_matches_outside(source, r#"!\s+[^\s=]"#, None, "Do not leave space after ! operator.");
        report(self.name(), self.severity(), fs)
    }
}

/// Checks for missing space after semicolon
pub struct SpaceAfterSemicolon;

impl Cop for SpaceAfterSemicolon {
    open spec fn spec_name(&self) -> Seq<char> {
        "Layout/SpaceAfterSemicolon"@
    }

    open spec fn spec_category(&self) -> Category {
        Category::Layout
    }

    open spec fn spec_severity(&self) -> Severity {
        Severity::Convention
    }

    open spec fn spec_check(&self, src: SourceView) -> Seq<FindingView> {
        matches_outside(src, r#";[^ \n]"#@, Some(2), bytes_of("Space missing after semicolon."))
    }

    fn name(&self) -> (r: &str) {
        "Layout/SpaceAfterSemicolon"
    }

    fn category(&self) -> (r: Category) {
        Category::Layout
    }

    fn severity(&self) -> (r: Severity) {
        Severity::Convention
    }

    open spec fn spec_description(&self) -> Seq<char> {
        "Checks for missing space after semicolon"@
    }

    fn description(&self) -> (r: &str) {
        "Checks for missing space after semicolon"
    }

    fn check(&self, source: &SourceFile) -> (r: Vec<Offense>) {
        let fs = scan_matches_outside(source, r#";[^ \n]"#, Some(2), "Space missing after semicolon.");
        report(self.name(), self.severity(), fs)
    }
}

/// Checks for space before comma
pub struct SpaceBeforeComma;

impl Cop for SpaceBeforeComma {
    open spec fn spec_name(&self) -> Seq<char> {
        "Layout/SpaceBeforeComma"@
    }

    open spec fn spec_category(&self) -> Category {
        Category::Layout
    }

    open spec fn spec_severity(&self) -> Severity {
        Severity::Convention
    }

    open spec fn spec_check(&self, src: SourceView) -> Seq<FindingView> {
        matches_outside(src, r#"\s,"#@, Some(2), bytes_of("Space found before comma."))
    }

    fn name(&self) -> (r: &str) {
        "Layout/SpaceBeforeComma"
    }

    fn category(&self) -> (r: Category) {
        Category::Layout
    }

    fn severity(&self) -> (r: Severity) {
        Severity::Convention
    }

    open spec fn spec_description(&self) -> Seq<char> {
        "Checks for space before comma"@
    }

    fn description(&self) -> (r: &str) {
        "Checks for space before comma"
    }

    fn check(&self, source: &SourceFile) -> (r: Vec<Offense>) {
        let fs = scan_matches_outside(source, r#"\s,"#, Some(2), "Space found before comma.");
        report(self.name(), self.severity(), fs)
    }
}

/// A `#` right after a non-blank byte, outside strings and comments, on a line
/// that is not itself a comment.
pub open spec fn space_before_comment_match(src: SourceView, i: int, m: Seq<Option<(int, int)>>) -> Seq<FindingView> {
    let l = src.lines[i];
    let s = whole(m).0;
    match find_byte_from(l, 35u8, s) {
        Some(h) => one_if(
            !src.in_string_or_comment(i + 1, h),
            finding(i + 1, h + 1, 1, bytes_of("Missing space before inline comment.")),
        ),
        None => seq![],
    }
}

impl LineRule for SpaceBeforeComment {
    open spec fn spec_line(&self, src: SourceView, i: int) -> Seq<FindingView> {
        if starts_with(trim_start(src.lines[i]), bytes_of("#")) {
            seq![]
        } else {
            let ms = regex_captures(r#"[^ \t]#"#@, src.lines[i]);
            gather(ms.len() as int, |k: int| space_before_comment_match(src, i, ms[k]))
        }
    }

    fn line_findings(&self, src: &SourceFile, i: usize) -> (r: Vec<Finding>) {
        let l = src.line_at(i);
        let mut out: Vec<Finding> = Vec::new();
        if starts_with_str(trim_start_exec(l), "#") {
            return out;
        }
        let ms = captures_all(r#"[^ \t]#"#, l);
        let ghost msv = spans_view(ms@);
        let mut k: usize = 0;
        while k < ms.len()
            invariant
                k <= ms@.len(),
                i < src@.lines.len(),
                fits(src@),
                l@ == src@.lines[i as int],
                msv == spans_view(ms@),
                msv == regex_captures(r#"[^ \t]#"#@, l@),
                matches_wf(msv, l@.len() as int),
                finding_views(out@) == gather(k as int, |j: int| space_before_comment_match(src@, i as int, msv[j])),
            decreases ms.len() - k,
        {
            assert(msv[k as int] == groups_view(ms@[k as int]@));
            let (s, e) = whole_exec(&ms[k], l.len());
            let mut fs: Vec<Finding> = Vec::new();
            match crate::text::find_byte_from_exec(l, 35u8, s) {
                Some(h) => {
                    proof {
                        crate::text::lemma_find_byte_from_spec(l@, 35u8, s as int);
                    }
                    let hit = !src.in_string_or_comment(i + 1, h);
                    push_if(&mut fs, hit, Finding::text(i + 1, h + 1, 1, "Missing space before inline comment."));
                },
                None => {},
            }
            append_findings(&mut out, fs);
            k = k + 1;
        }
        out
    }
}

/// Checks for missing space before inline comments
pub struct SpaceBeforeComment;

impl Cop for SpaceBeforeComment {
    open spec fn spec_name(&self) -> Seq<char> {
        "Layout/SpaceBeforeComment"@
    }

    open spec fn spec_category(&self) -> Category {
        Category::Layout
    }

    open spec fn spec_severity(&self) -> Severity {
        Severity::Convention
    }

    open spec fn spec_check(&self, src: SourceView) -> Seq<FindingView> {
        all_lines(self, src)
    }

    fn name(&self) -> (r: &str) {
        "Layout/SpaceBeforeComment"
    }

    fn category(&self) -> (r: Category) {
        Category::Layout
    }

    fn severity(&self) -> (r: Severity) {
        Severity::Convention
    }

    open spec fn spec_description(&self) -> Seq<char> {
        "Checks for missing space before inline comments"@
    }

    fn description(&self) -> (r: &str) {
        "Checks for missing space before inline comments"
    }

    fn check(&self, source: &SourceFile) -> (r: Vec<Offense>) {
        report(self.name(), self.severity(), run_lines(self, source))
    }
}

/// Checks for space before semicolon
pub struct SpaceBeforeSemicolon;

impl Cop for SpaceBeforeSemicolon {
    open spec fn spec_name(&self) -> Seq<char> {
        "Layout/SpaceBeforeSemicolon"@
    }

    open spec fn spec_category(&self) -> Category {
        Category::Layout
    }

    open spec fn spec_severity(&self) -> Severity {
        Severity::Convention
    }

    open spec fn spec_check(&self, src: SourceView) -> Seq<FindingView> {
        matches_outside(src, r#"\s;"#@, Some(2), bytes_of("Space found before semicolon."))
    }

    fn name(&self) -> (r: &str) {
        "Layout/SpaceBeforeSemicolon"
    }

    fn category(&self) -> (r: Category) {
        Category::Layout
    }

    fn severity(&self) -> (r: Severity) {
        Severity::Convention
    }

    open spec fn spec_description(&self) -> Seq<char> {
        "Checks for space before semicolon"@
    }

    fn description(&self) -> (r: &str) {
        "Checks for space before semicolon"
    }

    fn check(&self, source: &SourceFile) -> (r: Vec<Offense>) {
        let fs = scan_matches_outside(source, r#"\s;"#, Some(2), "Space found before semicolon.");
        report(self.name(), self.severity(), fs)
    }
}

/// Checks for spaces inside array literal brackets
pub struct SpaceInsideArrayLiteralBrackets;

impl Cop for SpaceInsideArrayLiteralBrackets {
    open spec fn spec_name(&self) -> Seq<char> {
        "Layout/SpaceInsideArrayLiteralBrackets"@
    }

    open spec fn spec_category(&self) -> Category {
        Category::Layout
    }

    open spec fn spec_severity(&self) -> Severity {
        Severity::Convention
    }

    open spec fn spec_check(&self, src: SourceView) -> Seq<FindingView> {
        matches_outside(src, r#"\[\s+|\s+\]"#@, None, bytes_of("Space inside array brackets."))
    }

    fn name(&self) -> (r: &str) {
        "Layout/SpaceInsideArrayLiteralBrackets"
    }

    fn category(&self) -> (r: Category) {
        Category::Layout
    }

    fn severity(&self) -> (r: Severity) {
        Severity::Convention
    }

    open spec fn spec_description(&self) -> Seq<char> {
        "Checks for spaces inside array literal brackets"@
    }

    fn description(&self) -> (r: &str) {
        "Checks for spaces inside array literal brackets"
    }

    fn check(&self, source: &SourceFile) -> (r: Vec<Offense>) {
        let fs = scan_matches_outside(source, r#"\[\s+|\s+\]"#, None, "Space inside array brackets.");
        report(self.name(), self.severity(), fs)
    }
}

impl MatchCond for SpaceInsideHashLiteralBraces {
    /// Not the brace of an interpolation `#{`.
    open spec fn spec_ok(&self, src: SourceView, i: int, m: Seq<Option<(int, int)>>) -> bool {
        !src.in_string_or_comment(i + 1, whole(m).0 + 1) && (!(whole(m).0 > 0 && src.lines[i][whole(m).0 - 1] == 35u8))
    }

    fn ok(&self, src: &SourceFile, i: usize, m: &Vec<Option<(usize, usize)>>) -> (r: bool) {
        let l = src.line_at(i);
        let (s, e) = whole_exec(m, l.len());
        if src.in_string_or_comment(i + 1, s + 1) {
            return false;
        }
        !(s > 0 && l[s - 1] == 35u8)
    }
}

/// Checks for spaces inside hash literal braces
pub struct SpaceInsideHashLiteralBraces;

impl Cop for SpaceInsideHashLiteralBraces {
    open spec fn spec_name(&self) -> Seq<char> {
        "Layout/SpaceInsideHashLiteralBraces"@
    }

    open spec fn spec_category(&self) -> Category {
        Category::Layout
    }

    open spec fn spec_severity(&self) -> Severity {
        Severity::Convention
    }

    open spec fn spec_check(&self, src: SourceView) -> Seq<FindingView> {
        cond_matches(self, src, r#"\{\s+|\s+\}"#@, None, bytes_of("Space inside hash braces."))
    }

    fn name(&self) -> (r: &str) {
        "Layout/SpaceInsideHashLiteralBraces"
    }

    fn category(&self) -> (r: Category) {
        Category::Layout
    }

    fn severity(&self) -> (r: Severity) {
        Severity::Convention
    }

    open spec fn spec_description(&self) -> Seq<char> {
        "Checks for spaces inside hash literal braces"@
    }

    fn description(&self) -> (r: &str) {
        "Checks for spaces inside hash literal braces"
    }

    fn check(&self, source: &SourceFile) -> (r: Vec<Offense>) {
        let fs = scan_cond_matches(self, source, r#"\{\s+|\s+\}"#, None, "Space inside hash braces.");
        report(self.name(), self.severity(), fs)
    }
}

/// Checks for spaces inside range literals
pub struct SpaceInsideRangeLiteral;

impl Cop for SpaceInsideRangeLiteral {
    open spec fn spec_name(&self) -> Seq<char> {
        "Layout/SpaceInsideRangeLiteral"@
    }

    open spec fn spec_category(&self) -> Category {
        Category::Layout
    }

    open spec fn spec_severity(&self) -> Severity {
        Severity::Convention
    }

    open spec fn spec_check(&self, src: SourceView) -> Seq<FindingView> {
        matches_outside(src, r#"\s\.\.|\.\.\.?\s"#@, None, bytes_of("Space inside range literal."))
    }

    fn name(&self) -> (r: &str) {
        "Layout/SpaceInsideRangeLiteral"
    }

    fn category(&self) -> (r: Category) {
        Category::Layout
    }

    fn severity(&self) -> (r: Severity) {
        Severity::Convention
    }

    open spec fn spec_description(&self) -> Seq<char> {
        "Checks for spaces inside range literals"@
    }

    fn description(&self) -> (r: &str) {
        "Checks for spaces inside range literals"
    }

    fn check(&self, source: &SourceFile) -> (r: Vec<Offense>) {
        let fs = scan_matches_outside(source, r#"\s\.\.|\.\.\.?\s"#, None, "Space inside range literal.");
        report(self.name(), self.severity(), fs)
    }
}

/// Checks for spaces inside reference brackets
pub struct SpaceInsideReferenceBrackets;

impl Cop for SpaceInsideReferenceBrackets {
    open spec fn spec_name(&self) -> Seq<char> {
        "Layout/SpaceInsideReferenceBrackets"@
    }

    open spec fn spec_category(&self) -> Category {
        Category::Layout
    }

    open spec fn spec_severity(&self) -> Severity {
        Severity::Convention
    }

    open spec fn spec_check(&self, src: SourceView) -> Seq<FindingView> {
        matches_outside(src, r#"\w\[\s+|\s+\]"#@, None, bytes_of("Space inside reference brackets."))
    }

    fn name(&self) -> (r: &str) {
        "Layout/SpaceInsideReferenceBrackets"
    }

    fn category(&self) -> (r: Category) {
        Category::Layout
    }

    fn severity(&self) -> (r: Severity) {
        Severity::Convention
    }

    open spec fn spec_description(&self) -> Seq<char> {
        "Checks for spaces inside reference brackets"@
    }

    fn description(&self) -> (r: &str) {
        "Checks for spaces inside reference brackets"
    }

    fn check(&self, source: &SourceFile) -> (r: Vec<Offense>) {
        let fs = scan_matches_outside(source, r#"\w\[\s+|\s+\]"#, None, "Space inside reference brackets.");
        report(self.name(), self.severity(), fs)
    }
}

impl MatchCond for SpaceInsideStringInterpolation {
    /// The match opens an interpolation `#{`.
    open spec fn spec_ok(&self, src: SourceView, i: int, m: Seq<Option<(int, int)>>) -> bool {
        starts_with(src.lines[i].subrange(whole(m).0, whole(m).1), bytes_of("#{"))
    }

    fn ok(&self, src: &SourceFile, i: usize, m: &Vec<Option<(usize, usize)>>) -> (r: bool) {
        let l = src.line_at(i);
        let (s, e) = whole_exec(m, l.len());
        starts_with_str(&l[s..e], "#{")
    }
}

/// Checks for spaces inside string interpolation
pub struct SpaceInsideStringInterpolation;

impl Cop for SpaceInsideStringInterpolation {
    open spec fn spec_name(&self) -> Seq<char> {
        "Layout/SpaceInsideStringInterpolation"@
    }

    open spec fn spec_category(&self) -> Category {
        Category::Layout
    }

    open spec fn spec_severity(&self) -> Severity {
        Severity::Convention
    }

    open spec fn spec_check(&self, src: SourceView) -> Seq<FindingView> {
        cond_matches(self, src, r#"#\{\s+|\s+\}"#@, None, bytes_of("Space inside string interpolation."))
    }

    fn name(&self) -> (r: &str) {
        "Layout/SpaceInsideStringInterpolation"
    }

    fn category(&self) -> (r: Category) {
        Category::Layout
    }

    fn severity(&self) -> (r: Severity) {
        Severity::Convention
    }

    open spec fn spec_description(&self) -> Seq<char> {
        "Checks for spaces inside string interpolation"@
    }

    fn description(&self) -> (r: &str) {
        "Checks for spaces inside string interpolation"
    }

    fn check(&self, source: &SourceFile) -> (r: Vec<Offense>) {
        let fs = scan_cond_matches(self, source, r#"#\{\s+|\s+\}"#, None, "Space inside string interpolation.");
        report(self.name(), self.severity(), fs)
    }
}

impl MatchCond for SpaceAroundEqualsInParameterDefault {
    /// On a `def` line, an `=` spaced on one side only.
    open spec fn spec_ok(&self, src: SourceView, i: int, m: Seq<Option<(int, int)>>) -> bool {
        !src.in_string_or_comment(i + 1, whole(m).0 + 1) && (contains(src.lines[i], bytes_of("def ")) && {
            let t = src.lines[i].subrange(whole(m).0, whole(m).1);
            !contains(t, bytes_of(" = ")) && (contains(t, bytes_of(" =")) || contains(t, bytes_of("= ")))
        })
    }

    fn ok(&self, src: &SourceFile, i: usize, m: &Vec<Option<(usize, usize)>>) -> (r: bool) {
        let l = src.line_at(i);
        let (s, e) = whole_exec(m, l.len());
        if src.in_string_or_comment(i + 1, s + 1) {
            return false;
        }
        let t = &l[s..e];
        contains_str(l, "def ") && !contains_str(t, " = ") && (contains_str(t, " =") || contains_str(t, "= "))
    }
}

/// Checks for spaces around = in parameter defaults
pub struct SpaceAroundEqualsInParameterDefault;

impl Cop for SpaceAroundEqualsInParameterDefault {
    open spec fn spec_name(&self) -> Seq<char> {
        "Layout/SpaceAroundEqualsInParameterDefault"@
    }

    open spec fn spec_category(&self) -> Category {
        Category::Layout
    }

    open spec fn spec_severity(&self) -> Severity {
        Severity::Convention
    }

    open spec fn spec_check(&self, src: SourceView) -> Seq<FindingView> {
        cond_matches(self, src, r#"\w\s*=\s*\w"#@, None, bytes_of("Use spaces around = in parameter default."))
    }

    fn name(&self) -> (r: &str) {
        "Layout/SpaceAroundEqualsInParameterDefault"
    }

    fn category(&self) -> (r: Category) {
        Category::Layout
    }

    fn severity(&self) -> (r: Severity) {
        Severity::Convention
    }

    open spec fn spec_description(&self) -> Seq<char> {
        "Checks for spaces around = in parameter defaults"@
    }

    fn description(&self) -> (r: &str) {
        "Checks for spaces around = in parameter defaults"
    }

    fn check(&self, source: &SourceFile) -> (r: Vec<Offense>) {
        let fs = scan_cond_matches(self, source, r#"\w\s*=\s*\w"#, None, "Use spaces around = in parameter default.");
        report(self.name(), self.severity(), fs)
    }
}

/// Checks for missing space after keywords
pub struct SpaceAroundKeyword;

impl Cop for SpaceAroundKeyword {
    open spec fn spec_name(&self) -> Seq<char> {
        "Layout/SpaceAroundKeyword"@
    }

    open spec fn spec_category(&self) -> Category {
        Category::Layout
    }

    open spec fn spec_severity(&self) -> Severity {
        Severity::Convention
    }

    open spec fn spec_check(&self, src: SourceView) -> Seq<FindingView> {
        matches_outside(src, r#"\b(if|unless|while|until|case|when)\w+"#@, None, bytes_of("Space missing after keyword."))
    }

    fn name(&self) -> (r: &str) {
        "Layout/SpaceAroundKeyword"
    }

    fn category(&self) -> (r: Category) {
        Category::Layout
    }

    fn severity(&self) -> (r: Severity) {
        Severity::Convention
    }

    open spec fn spec_description(&self) -> Seq<char> {
        "Checks for missing space after keywords"@
    }

    fn description(&self) -> (r: &str) {
        "Checks for missing space after keywords"
    }

    fn check(&self, source: &SourceFile) -> (r: Vec<Offense>) {
        let fs = scan_matches_outside(source, r#"\b(if|unless|while|until|case|when)\w+"#, None, "Space missing after keyword.");
        report(self.name(), self.severity(), fs)
    }
}

/// Checks for missing space before block braces
pub struct SpaceBeforeBlockBraces;

impl Cop for SpaceBeforeBlockBraces {
    open spec fn spec_name(&self) -> Seq<char> {
        "Layout/SpaceBeforeBlockBraces"@
    }

    open spec fn spec_category(&self) -> Category {
        Category::Layout
    }

    open spec fn spec_severity(&self) -> Severity {
        Severity::Convention
    }

    open spec fn spec_check(&self, src: SourceView) -> Seq<FindingView> {
        matches_outside(src, r#"\w\{"#@, Some(2), bytes_of("Space missing before block brace."))
    }

    fn name(&self) -> (r: &str) {
        "Layout/SpaceBeforeBlockBraces"
    }

    fn category(&self) -> (r: Category) {
        Category::Layout
    }

    fn severity(&self) -> (r: Severity) {
        Severity::Convention
    }

    open spec fn spec_description(&self) -> Seq<char> {
        "Checks for missing space before block braces"@
    }

    fn description(&self) -> (r: &str) {
        "Checks for missing space before block braces"
    }

    fn check(&self, source: &SourceFile) -> (r: Vec<Offense>) {
        let fs = scan_matches_outside(source, r#"\w\{"#, Some(2), "Space missing before block brace.");
        report(self.name(), self.severity(), fs)
    }
}

impl LineRule for SpaceInsideBlockBraces {
    /// A `{|` and a `|}` outside strings and comments.
    open spec fn spec_line(&self, src: SourceView, i: int) -> Seq<FindingView> {
        let l = src.lines[i];
        (match find(l, bytes_of("{|")) {
            Some(p) => one_if(
                !src.in_string_or_comment(i + 1, p + 1),
                finding(i + 1, p + 1, 2, bytes_of("Space missing inside block braces.")),
            ),
            None => seq![],
        }) + (match find(l, bytes_of("|}")) {
            Some(p) => one_if(
                !src.in_string_or_comment(i + 1, p + 1),
                finding(i + 1, p + 1, 2, bytes_of("Space missing inside block braces.")),
            ),
            None => seq![],
        })
    }

    fn line_findings(&self, src: &SourceFile, i: usize) -> (r: Vec<Finding>) {
        let l = src.line_at(i);
        let mut out: Vec<Finding> = Vec::new();
        proof {
            crate::text::lemma_find_from_spec(l@, bytes_of("{|"), 0);
            crate::text::lemma_find_from_spec(l@, bytes_of("|}"), 0);
        }
        match find_str(l, "{|") {
            Some(p) => {
                let hit = !src.in_string_or_comment(i + 1, p + 1);
                push_if(&mut out, hit, Finding::text(i + 1, p + 1, 2, "Space missing inside block braces."));
            },
            None => {
                push_if(&mut out, false, Finding::text(i + 1, 1, 2, "Space missing inside block braces."));
            },
        }
        let mut second: Vec<Finding> = Vec::new();
        match find_str(l, "|}") {
            Some(p) => {
                let hit = !src.in_string_or_comment(i + 1, p + 1);
                push_if(&mut second, hit, Finding::text(i + 1, p + 1, 2, "Space missing inside block braces."));
            },
            None => {},
        }
        append_findings(&mut out, second);
        out
    }
}

/// Checks for missing spaces inside block braces
pub struct SpaceInsideBlockBraces;

impl Cop for SpaceInsideBlockBraces {
    open spec fn spec_name(&self) -> Seq<char> {
        "Layout/SpaceInsideBlockBraces"@
    }

    open spec fn spec_category(&self) -> Category {
        Category::Layout
    }

    open spec fn spec_severity(&self) -> Severity {
        Severity::Convention
    }

    open spec fn spec_check(&self, src: SourceView) -> Seq<FindingView> {
        all_lines(self, src)
    }

    fn name(&self) -> (r: &str) {
        "Layout/SpaceInsideBlockBraces"
    }

    fn category(&self) -> (r: Category) {
        Category::Layout
    }

    fn severity(&self) -> (r: Severity) {
        Severity::Convention
    }

    open spec fn spec_description(&self) -> Seq<char> {
        "Checks for missing spaces inside block braces"@
    }

    fn description(&self) -> (r: &str) {
        "Checks for missing spaces inside block braces"
    }

    fn check(&self, source: &SourceFile) -> (r: Vec<Offense>) {
        report(self.name(), self.severity(), run_lines(self, source))
    }
}

impl MatchCond for SpaceBeforeFirstArg {
    /// Not right after `def ` or `class `.
    open spec fn spec_ok(&self, src: SourceView, i: int, m: Seq<Option<(int, int)>>) -> bool {
        !src.in_string_or_comment(i + 1, whole(m).0 + 1) && (!ends_with(src.lines[i].take(whole(m).0), bytes_of("def ")) && !ends_with(src.lines[i].take(whole(m).0), bytes_of("class ")))
    }

    fn ok(&self, src: &SourceFile, i: usize, m: &Vec<Option<(usize, usize)>>) -> (r: bool) {
        let l = src.line_at(i);
        let (s, e) = whole_exec(m, l.len());
        if src.in_string_or_comment(i + 1, s + 1) {
            return false;
        }
        !ends_with_str(&l[0..s], "def ") && !ends_with_str(&l[0..s], "class ")
    }
}

/// Checks for extra space before first argument
pub struct SpaceBeforeFirstArg;

impl Cop for SpaceBeforeFirstArg {
    open spec fn spec_name(&self) -> Seq<char> {
        "Layout/SpaceBeforeFirstArg"@
    }

    open spec fn spec_category(&self) -> Category {
        Category::Layout
    }

    open spec fn spec_severity(&self) -> Severity {
        Severity::Convention
    }

    open spec fn spec_check(&self, src: SourceView) -> Seq<FindingView> {
        cond_matches(self, src, r#"\w+  +\w+"#@, None, bytes_of("Extra space before first argument."))
    }

    fn name(&self) -> (r: &str) {
        "Layout/SpaceBeforeFirstArg"
    }

    fn category(&self) -> (r: Category) {
        Category::Layout
    }

    fn severity(&self) -> (r: Severity) {
        Severity::Convention
    }

    open spec fn spec_description(&self) -> Seq<char> {
        "Checks for extra space before first argument"@
    }

    fn description(&self) -> (r: &str) {
        "Checks for extra space before first argument"
    }

    fn check(&self, source: &SourceFile) -> (r: Vec<Offense>) {
        let fs = scan_cond_matches(self, source, r#"\w+  +\w+"#, None, "Extra space before first argument.");
        report(self.name(), self.severity(), fs)
    }
}

/// Checks for space before brackets in array access
pub struct SpaceBeforeBrackets;

impl Cop for SpaceBeforeBrackets {
    open spec fn spec_name(&self) -> Seq<char> {
        "Layout/SpaceBeforeBrackets"@
    }

    open spec fn spec_category(&self) -> Category {
        Category::Layout
    }

    open spec fn spec_severity(&self) -> Severity {
        Severity::Convention
    }

    open spec fn spec_check(&self, src: SourceView) -> Seq<FindingView> {
        matches_outside(src, r#"\w\s+\["#@, None, bytes_of("Space found before brackets."))
    }

    fn name(&self) -> (r: &str) {
        "Layout/SpaceBeforeBrackets"
    }

    fn category(&self) -> (r: Category) {
        Category::Layout
    }

    fn severity(&self) -> (r: Severity) {
        Severity::Convention
    }

    open spec fn spec_description(&self) -> Seq<char> {
        "Checks for space before brackets in array access"@
    }

    fn description(&self) -> (r: &str) {
        "Checks for space before brackets in array access"
    }

    fn check(&self, source: &SourceFile) -> (r: Vec<Offense>) {
        let fs = scan_matches_outside(source, r#"\w\s+\["#, None, "Space found before brackets.");
        report(self.name(), self.severity(), fs)
    }
}

impl MatchCond for SpaceInLambdaLiteral {
    /// The arrow is separated from its parenthesis by a space.
    open spec fn spec_ok(&self, src: SourceView, i: int, m: Seq<Option<(int, int)>>) -> bool {
        !src.in_string_or_comment(i + 1, whole(m).0 + 1) && (contains(src.lines[i].subrange(whole(m).0, whole(m).1), bytes_of(" (")))
    }

    fn ok(&self, src: &SourceFile, i: usize, m: &Vec<Option<(usize, usize)>>) -> (r: bool) {
        let l = src.line_at(i);
        let (s, e) = whole_exec(m, l.len());
        if src.in_string_or_comment(i + 1, s + 1) {
            return false;
        }
        contains_str(&l[s..e], " (")
    }
}

/// Checks for space in lambda literal
pub struct SpaceInLambdaLiteral;

impl Cop for SpaceInLambdaLiteral {
    open spec fn spec_name(&self) -> Seq<char> {
        "Layout/SpaceInLambdaLiteral"@
    }

    open spec fn spec_category(&self) -> Category {
        Category::Layout
    }

    open spec fn spec_severity(&self) -> Severity {
        Severity::Convention
    }

    open spec fn spec_check(&self, src: SourceView) -> Seq<FindingView> {
        cond_matches(self, src, r#"->\s*\("#@, None, bytes_of("Unexpected space in lambda literal."))
    }

    fn name(&self) -> (r: &str) {
        "Layout/SpaceInLambdaLiteral"
    }

    fn category(&self) -> (r: Category) {
        Category::Layout
    }

    fn severity(&self) -> (r: Severity) {
        Severity::Convention
    }

    open spec fn spec_description(&self) -> Seq<char> {
        "Checks for space in lambda literal"@
    }

    fn description(&self) -> (r: &str) {
        "Checks for space in lambda literal"
    }

    fn check(&self, source: &SourceFile) -> (r: Vec<Offense>) {
        let fs = scan_cond_matches(self, source, r#"->\s*\("#, None, "Unexpected space in lambda literal.");
        report(self.name(), self.severity(), fs)
    }
}

pub open spec fn initial_indentation(src: SourceView) -> Seq<FindingView> {
    if src.lines.len() >= 1 {
        let l = src.lines[0];
        one_if(
            ws_len_at(l, 0) > 0 && !starts_with(trim_start(l), bytes_of("#")),
            finding(1, 1, lead_ws(l) as int, bytes_of("Indentation on first line detected.")),
        )
    } else {
        seq![]
    }
}

/// Checks that first line has no indentation
pub struct InitialIndentation;

impl Cop for InitialIndentation {
    open spec fn spec_name(&self) -> Seq<char> {
        "Layout/InitialIndentation"@
    }

    open spec fn spec_category(&self) -> Category {
        Category::Layout
    }

    open spec fn spec_severity(&self) -> Severity {
        Severity::Convention
    }

    open spec fn spec_check(&self, src: SourceView) -> Seq<FindingView> {
        initial_indentation(src)
    }

    fn name(&self) -> (r: &str) {
        "Layout/InitialIndentation"
    }

    fn category(&self) -> (r: Category) {
        Category::Layout
    }

    fn severity(&self) -> (r: Severity) {
        Severity::Convention
    }

    open spec fn spec_description(&self) -> Seq<char> {
        "Checks that first line has no indentation"@
    }

    fn description(&self) -> (r: &str) {
        "Checks that first line has no indentation"
    }

    fn check(&self, source: &SourceFile) -> (r: Vec<Offense>) {
        let mut out: Vec<Finding> = Vec::new();
        if source.line_count() >= 1 {
            let l = source.line_at(0);
            let hit = ws_len_at_exec(l, 0) > 0 && !starts_with_str(trim_start_exec(l), "#");
            push_if(&mut out, hit, Finding::text(1, 1, lead_ws_exec(l), "Indentation on first line detected."));
        }
        report(self.name(), self.severity(), out)
    }
}

/// The 0-based index of the last line before line `j` that is neither blank nor a comment.
pub open spec fn last_code_before(lines: Seq<Seq<u8>>, j: int) -> Option<int>
    decreases j,
{
    if j <= 0 {
        None
    } else if !is_blank(lines[j - 1]) && !starts_with(trim_start(lines[j - 1]), bytes_of("#")) {
        Some(j - 1)
    } else {
        last_code_before(lines, j - 1)
    }
}

proof fn lemma_last_code_before(lines: Seq<Seq<u8>>, j: int)
    ensures
        match last_code_before(lines, j) {
            Some(k) => 0 <= k < j,
            None => true,
        },
    decreases j,
{
    if j > 0 {
        lemma_last_code_before(lines, j - 1);
    }
}

impl LineRule for CommentIndentation {
    /// A comment line indented differently from the last code line above it.
    open spec fn spec_line(&self, src: SourceView, i: int) -> Seq<FindingView> {
        let l = src.lines[i];
        let t = trim_start(l);
        if starts_with(t, bytes_of("#")) && !starts_with(t, bytes_of("#!")) {
            match last_code_before(src.lines, i) {
                Some(k) => one_if(
                    lead_ws(src.lines[k]) != lead_ws(l),
                    finding(i + 1, 1, lead_ws(l) as int, bytes_of("Comment indentation incorrect.")),
                ),
                None => seq![],
            }
        } else {
            seq![]
        }
    }

    fn line_findings(&self, src: &SourceFile, i: usize) -> (r: Vec<Finding>) {
        let l = src.line_at(i);
        let t = trim_start_exec(l);
        let mut out: Vec<Finding> = Vec::new();
        if starts_with_str(t, "#") && !starts_with_str(t, "#!") {
            let mut k = i;
            while k > 0
                invariant
                    k <= i,
                    i < src@.lines.len(),
                    last_code_before(src@.lines, i as int) == last_code_before(src@.lines, k as int),
                ensures
                    k <= i,
                    last_code_before(src@.lines, i as int) == last_code_before(src@.lines, k as int),
                    k == 0 || (!is_blank(src@.lines[k - 1]) && !starts_with(trim_start(src@.lines[k - 1]), bytes_of("#"))),
                decreases k,
            {
                let p = src.line_at(k - 1);
                if !is_blank_exec(p) && !starts_with_str(trim_start_exec(p), "#") {
                    break;
                }
                k = k - 1;
            }
            if k > 0 {
                let prev_indent = lead_ws_exec(src.line_at(k - 1));
                let cur = lead_ws_exec(l);
                push_if(&mut out, prev_indent != cur, Finding::text(i + 1, 1, cur, "Comment indentation incorrect."));
            }
        }
        out
    }
}

/// Checks that comments are aligned with surrounding code
pub struct CommentIndentation;

impl Cop for CommentIndentation {
    open spec fn spec_name(&self) -> Seq<char> {
        "Layout/CommentIndentation"@
    }

    open spec fn spec_category(&self) -> Category {
        Category::Layout
    }

    open spec fn spec_severity(&self) -> Severity {
        Severity::Convention
    }

    open spec fn spec_check(&self, src: SourceView) -> Seq<FindingView> {
        all_lines(self, src)
    }

    fn name(&self) -> (r: &str) {
        "Layout/CommentIndentation"
    }

    fn category(&self) -> (r: Category) {
        Category::Layout
    }

    fn severity(&self) -> (r: Severity) {
        Severity::Convention
    }

    open spec fn spec_description(&self) -> Seq<char> {
        "Checks that comments are aligned with surrounding code"@
    }

    fn description(&self) -> (r: &str) {
        "Checks that comments are aligned with surrounding code"
    }

    fn check(&self, source: &SourceFile) -> (r: Vec<Offense>) {
        report(self.name(), self.severity(), run_lines(self, source))
    }
}

/// After the first `n` lines: whether a tab-indented and a space-indented line were seen, and the findings.
pub open spec fn consistency_fold(src: SourceView, n: int) -> (bool, bool, Seq<FindingView>)
    decreases n,
{
    if n <= 0 {
        (false, false, seq![])
    } else {
        let prev = consistency_fold(src, n - 1);
        let l = src.lines[n - 1];
        let tabs = prev.0 || starts_with(l, bytes_of("\t"));
        let spaces = prev.1 || (!starts_with(l, bytes_of("\t")) && starts_with(l, bytes_of(" ")));
        (
            tabs,
            spaces,
            prev.2 + one_if(
                tabs && spaces && !(prev.0 && prev.1),
                finding(n, 1, 1, bytes_of("Mixed tabs and spaces in indentation.")),
            ),
        )
    }
}

/// Checks for consistent indentation style
pub struct IndentationConsistency;

impl Cop for IndentationConsistency {
    open spec fn spec_name(&self) -> Seq<char> {
        "Layout/IndentationConsistency"@
    }

    open spec fn spec_category(&self) -> Category {
        Category::Layout
    }

    open spec fn spec_severity(&self) -> Severity {
        Severity::Convention
    }

    open spec fn spec_check(&self, src: SourceView) -> Seq<FindingView> {
        consistency_fold(src, src.lines.len() as int).2
    }

    fn name(&self) -> (r: &str) {
        "Layout/IndentationConsistency"
    }

    fn category(&self) -> (r: Category) {
        Category::Layout
    }

    fn severity(&self) -> (r: Severity) {
        Severity::Convention
    }

    open spec fn spec_description(&self) -> Seq<char> {
        "Checks for consistent indentation style"@
    }

    fn description(&self) -> (r: &str) {
        "Checks for consistent indentation style"
    }

    fn check(&self, source: &SourceFile) -> (r: Vec<Offense>) {
        let mut out: Vec<Finding> = Vec::new();
        let mut tabs = false;
        let mut spaces = false;
        let n = source.line_count();
        let mut i: usize = 0;
        while i < n
            invariant
                i <= n,
                n == source@.lines.len(),
                fits(source@),
                (tabs, spaces, finding_views(out@)) == consistency_fold(source@, i as int),
            decreases n - i,
        {
            let l = source.line_at(i);
            let both_before = tabs && spaces;
            if starts_with_str(l, "\t") {
                tabs = true;
            } else if starts_with_str(l, " ") {
                spaces = true;
            }
            push_if(
                &mut out,
                tabs && spaces && !both_before,
                Finding::text(i + 1, 1, 1, "Mixed tabs and spaces in indentation."),
            );
            i = i + 1;
        }
        report(self.name(), self.severity(), out)
    }
}

impl LineRule for DotPosition {
    /// A line that ends in a dot outside strings and comments.
    open spec fn spec_line(&self, src: SourceView, i: int) -> Seq<FindingView> {
        let t = trim_end(src.lines[i]);
        one_if(
            ends_with(t, bytes_of(".")) && !src.in_string_or_comment(i + 1, t.len() as int),
            finding(i + 1, t.len() as int, 1, bytes_of("Place dot at beginning of next line in method chain.")),
        )
    }

    fn line_findings(&self, src: &SourceFile, i: usize) -> (r: Vec<Finding>) {
        let t = trim_end_exec(src.line_at(i));
        let mut out: Vec<Finding> = Vec::new();
        let hit = ends_with_str(t, ".") && !src.in_string_or_comment(i + 1, t.len());
        push_if(&mut out, hit, Finding::text(i + 1, t.len(), 1, "Place dot at beginning of next line in method chain."));
        out
    }
}

/// Checks dot position in method chains
pub struct DotPosition;

impl Cop for DotPosition {
    open spec fn spec_name(&self) -> Seq<char> {
        "Layout/DotPosition"@
    }

    open spec fn spec_category(&self) -> Category {
        Category::Layout
    }

    open spec fn spec_severity(&self) -> Severity {
        Severity::Convention
    }

    open spec fn spec_check(&self, src: SourceView) -> Seq<FindingView> {
        all_lines(self, src)
    }

    fn name(&self) -> (r: &str) {
        "Layout/DotPosition"
    }

    fn category(&self) -> (r: Category) {
        Category::Layout
    }

    fn severity(&self) -> (r: Severity) {
        Severity::Convention
    }

    open spec fn spec_description(&self) -> Seq<char> {
        "Checks dot position in method chains"@
    }

    fn description(&self) -> (r: &str) {
        "Checks dot position in method chains"
    }

    fn check(&self, source: &SourceFile) -> (r: Vec<Offense>) {
        report(self.name(), self.severity(), run_lines(self, source))
    }
}

impl LineRule for ConditionPosition {
    /// A keyword alone on its line, with its condition on the next.
    open spec fn spec_line(&self, src: SourceView, i: int) -> Seq<FindingView> {
        let t = trim(src.lines[i]);
        one_if(
            t == bytes_of("if") || t == bytes_of("unless") || t == bytes_of("while") || t == bytes_of("until"),
            finding(i + 1, 1, t.len() as int, bytes_of("Place condition on same line as keyword.")),
        )
    }

    fn line_findings(&self, src: &SourceFile, i: usize) -> (r: Vec<Finding>) {
        let t = trim_exec(src.line_at(i));
        let mut out: Vec<Finding> = Vec::new();
        let hit = eq_str(t, "if") || eq_str(t, "unless") || eq_str(t, "while") || eq_str(t, "until");
        push_if(&mut out, hit, Finding::text(i + 1, 1, t.len(), "Place condition on same line as keyword."));
        out
    }
}

/// Checks that conditions are on same line as if/while
pub struct ConditionPosition;

impl Cop for ConditionPosition {
    open spec fn spec_name(&self) -> Seq<char> {
        "Layout/ConditionPosition"@
    }

    open spec fn spec_category(&self) -> Category {
        Category::Layout
    }

    open spec fn spec_severity(&self) -> Severity {
        Severity::Convention
    }

    open spec fn spec_check(&self, src: SourceView) -> Seq<FindingView> {
        all_lines(self, src)
    }

    fn name(&self) -> (r: &str) {
        "Layout/ConditionPosition"
    }

    fn category(&self) -> (r: Category) {
        Category::Layout
    }

    fn severity(&self) -> (r: Severity) {
        Severity::Convention
    }

    open spec fn spec_description(&self) -> Seq<char> {
        "Checks that conditions are on same line as if/while"@
    }

    fn description(&self) -> (r: &str) {
        "Checks that conditions are on same line as if/while"
    }

    fn check(&self, source: &SourceFile) -> (r: Vec<Offense>) {
        report(self.name(), self.severity(), run_lines(self, source))
    }
}

impl LineRule for EmptyLineAfterMagicComment {
    /// A magic comment followed directly by a line that is neither blank nor a magic comment.
    open spec fn spec_line(&self, src: SourceView, i: int) -> Seq<FindingView> {
        one_if(
            magic_comment(src.lines[i]) && i + 1 < src.lines.len() && !is_blank(src.lines[i + 1]) && !magic_comment(
                src.lines[i + 1],
            ),
            finding(i + 2, 1, 1, bytes_of("Add empty line after magic comment.")),
        )
    }

    fn line_findings(&self, src: &SourceFile, i: usize) -> (r: Vec<Finding>) {
        let mut out: Vec<Finding> = Vec::new();
        let n = src.line_count();
        let hit = is_magic_comment(src.line_at(i)) && i + 1 < n && !is_blank_exec(src.line_at(i + 1))
            && !is_magic_comment(src.line_at(i + 1));
        push_if(&mut out, hit, Finding::text(i + 2, 1, 1, "Add empty line after magic comment."));
        out
    }
}

/// Checks for blank line after magic comments
pub struct EmptyLineAfterMagicComment;

impl Cop for EmptyLineAfterMagicComment {
    open spec fn spec_name(&self) -> Seq<char> {
        "Layout/EmptyLineAfterMagicComment"@
    }

    open spec fn spec_category(&self) -> Category {
        Category::Layout
    }

    open spec fn spec_severity(&self) -> Severity {
        Severity::Convention
    }

    open spec fn spec_check(&self, src: SourceView) -> Seq<FindingView> {
        all_lines(self, src)
    }

    fn name(&self) -> (r: &str) {
        "Layout/EmptyLineAfterMagicComment"
    }

    fn category(&self) -> (r: Category) {
        Category::Layout
    }

    fn severity(&self) -> (r: Severity) {
        Severity::Convention
    }

    open spec fn spec_description(&self) -> Seq<char> {
        "Checks for blank line after magic comments"@
    }

    fn description(&self) -> (r: &str) {
        "Checks for blank line after magic comments"
    }

    fn check(&self, source: &SourceFile) -> (r: Vec<Offense>) {
        report(self.name(), self.severity(), run_lines(self, source))
    }
}

impl LineRule for EmptyLineAfterGuardClause {
    /// A guard clause followed directly by a non-blank line.
    open spec fn spec_line(&self, src: SourceView, i: int) -> Seq<FindingView> {
        one_if(
            i + 1 < src.lines.len() && is_match(r#"^\s*(return|raise|break|next)\s+(if|unless)\s+"#@, src.lines[i]) && !is_blank(src.lines[i + 1]),
            finding(i + 2, 1, 1, bytes_of("Add empty line after guard clause.")),
        )
    }

    fn line_findings(&self, src: &SourceFile, i: usize) -> (r: Vec<Finding>) {
        let mut out: Vec<Finding> = Vec::new();
        let n = src.line_count();
        let hit = i + 1 < n && is_match_exec(r#"^\s*(return|raise|break|next)\s+(if|unless)\s+"#, src.line_at(i)) && !is_blank_exec(src.line_at(i + 1));
        push_if(&mut out, hit, Finding::text(i + 2, 1, 1, "Add empty line after guard clause."));
        out
    }
}

/// Checks for blank line after guard clauses
pub struct EmptyLineAfterGuardClause;

impl Cop for EmptyLineAfterGuardClause {
    open spec fn spec_name(&self) -> Seq<char> {
        "Layout/EmptyLineAfterGuardClause"@
    }

    open spec fn spec_category(&self) -> Category {
        Category::Layout
    }

    open spec fn spec_severity(&self) -> Severity {
        Severity::Convention
    }

    open spec fn spec_check(&self, src: SourceView) -> Seq<FindingView> {
        all_lines(self, src)
    }

    fn name(&self) -> (r: &str) {
        "Layout/EmptyLineAfterGuardClause"
    }

    fn category(&self) -> (r: Category) {
        Category::Layout
    }

    fn severity(&self) -> (r: Severity) {
        Severity::Convention
    }

    open spec fn spec_description(&self) -> Seq<char> {
        "Checks for blank line after guard clauses"@
    }

    fn description(&self) -> (r: &str) {
        "Checks for blank line after guard clauses"
    }

    fn check(&self, source: &SourceFile) -> (r: Vec<Offense>) {
        report(self.name(), self.severity(), run_lines(self, source))
    }
}

impl LineRule for EmptyLinesAroundClassBody {
    /// A class line followed by a blank line.
    open spec fn spec_line(&self, src: SourceView, i: int) -> Seq<FindingView> {
        one_if(starts_with(trim_start(src.lines[i]), bytes_of("class ")) && next_blank(src, i), finding(i + 2, 1, 1, bytes_of("Empty line at beginning of class body.")))
    }

    fn line_findings(&self, src: &SourceFile, i: usize) -> (r: Vec<Finding>) {
        let l = src.line_at(i);
        let mut out: Vec<Finding> = Vec::new();
        let hit = (starts_with_str(trim_start_exec(l), "class ")) && next_blank_exec(src, i);
        push_if(&mut out, hit, Finding::text(i + 2, 1, 1, "Empty line at beginning of class body."));
        out
    }
}

/// Checks for empty lines at start/end of class body
pub struct EmptyLinesAroundClassBody;

impl Cop for EmptyLinesAroundClassBody {
    open spec fn spec_name(&self) -> Seq<char> {
        "Layout/EmptyLinesAroundClassBody"@
    }

    open spec fn spec_category(&self) -> Category {
        Category::Layout
    }

    open spec fn spec_severity(&self) -> Severity {
        Severity::Convention
    }

    open spec fn spec_check(&self, src: SourceView) -> Seq<FindingView> {
        all_lines(self, src)
    }

    fn name(&self) -> (r: &str) {
        "Layout/EmptyLinesAroundClassBody"
    }

    fn category(&self) -> (r: Category) {
        Category::Layout
    }

    fn severity(&self) -> (r: Severity) {
        Severity::Convention
    }

    open spec fn spec_description(&self) -> Seq<char> {
        "Checks for empty lines at start/end of class body"@
    }

    fn description(&self) -> (r: &str) {
        "Checks for empty lines at start/end of class body"
    }

    fn check(&self, source: &SourceFile) -> (r: Vec<Offense>) {
        report(self.name(), self.severity(), run_lines(self, source))
    }
}

impl LineRule for EmptyLinesAroundModuleBody {
    /// A module line followed by a blank line.
    open spec fn spec_line(&self, src: SourceView, i: int) -> Seq<FindingView> {
        one_if(starts_with(trim_start(src.lines[i]), bytes_of("module ")) && next_blank(src, i), finding(i + 2, 1, 1, bytes_of("Empty line at beginning of module body.")))
    }

    fn line_findings(&self, src: &SourceFile, i: usize) -> (r: Vec<Finding>) {
        let l = src.line_at(i);
        let mut out: Vec<Finding> = Vec::new();
        let hit = (starts_with_str(trim_start_exec(l), "module ")) && next_blank_exec(src, i);
        push_if(&mut out, hit, Finding::text(i + 2, 1, 1, "Empty line at beginning of module body."));
        out
    }
}

/// Checks for empty lines at start/end of module body
pub struct EmptyLinesAroundModuleBody;

impl Cop for EmptyLinesAroundModuleBody {
    open spec fn spec_name(&self) -> Seq<char> {
        "Layout/EmptyLinesAroundModuleBody"@
    }

    open spec fn spec_category(&self) -> Category {
        Category::Layout
    }

    open spec fn spec_severity(&self) -> Severity {
        Severity::Convention
    }

    open spec fn spec_check(&self, src: SourceView) -> Seq<FindingView> {
        all_lines(self, src)
    }

    fn name(&self) -> (r: &str) {
        "Layout/EmptyLinesAroundModuleBody"
    }

    fn category(&self) -> (r: Category) {
        Category::Layout
    }

    fn severity(&self) -> (r: Severity) {
        Severity::Convention
    }

    open spec fn spec_description(&self) -> Seq<char> {
        "Checks for empty lines at start/end of module body"@
    }

    fn description(&self) -> (r: &str) {
        "Checks for empty lines at start/end of module body"
    }

    fn check(&self, source: &SourceFile) -> (r: Vec<Offense>) {
        report(self.name(), self.severity(), run_lines(self, source))
    }
}

impl LineRule for EmptyLinesAroundMethodBody {
    /// A def line followed by a blank line.
    open spec fn spec_line(&self, src: SourceView, i: int) -> Seq<FindingView> {
        one_if(starts_with(trim_start(src.lines[i]), bytes_of("def ")) && next_blank(src, i), finding(i + 2, 1, 1, bytes_of("Empty line at beginning of method body.")))
    }

    fn line_findings(&self, src: &SourceFile, i: usize) -> (r: Vec<Finding>) {
        let l = src.line_at(i);
        let mut out: Vec<Finding> = Vec::new();
        let hit = (starts_with_str(trim_start_exec(l), "def ")) && next_blank_exec(src, i);
        push_if(&mut out, hit, Finding::text(i + 2, 1, 1, "Empty line at beginning of method body."));
        out
    }
}

/// Checks for empty lines at start/end of method body
pub struct EmptyLinesAroundMethodBody;

impl Cop for EmptyLinesAroundMethodBody {
    open spec fn spec_name(&self) -> Seq<char> {
        "Layout/EmptyLinesAroundMethodBody"@
    }

    open spec fn spec_category(&self) -> Category {
        Category::Layout
    }

    open spec fn spec_severity(&self) -> Severity {
        Severity::Convention
    }

    open spec fn spec_check(&self, src: SourceView) -> Seq<FindingView> {
        all_lines(self, src)
    }

    fn name(&self) -> (r: &str) {
        "Layout/EmptyLinesAroundMethodBody"
    }

    fn category(&self) -> (r: Category) {
        Category::Layout
    }

    fn severity(&self) -> (r: Severity) {
        Severity::Convention
    }

    open spec fn spec_description(&self) -> Seq<char> {
        "Checks for empty lines at start/end of method body"@
    }

    fn description(&self) -> (r: &str) {
        "Checks for empty lines at start/end of method body"
    }

    fn check(&self, source: &SourceFile) -> (r: Vec<Offense>) {
        report(self.name(), self.severity(), run_lines(self, source))
    }
}

impl LineRule for EmptyLinesAroundBlockBody {
    /// A line opening a do block followed by a blank line.
    open spec fn spec_line(&self, src: SourceView, i: int) -> Seq<FindingView> {
        one_if((contains(src.lines[i], bytes_of(" do")) || contains(src.lines[i], bytes_of(" do|"))) && next_blank(src, i), finding(i + 2, 1, 1, bytes_of("Empty line at beginning of block body.")))
    }

    fn line_findings(&self, src: &SourceFile, i: usize) -> (r: Vec<Finding>) {
        let l = src.line_at(i);
        let mut out: Vec<Finding> = Vec::new();
        let hit = (contains_str(l, " do") || contains_str(l, " do|")) && next_blank_exec(src, i);
        push_if(&mut out, hit, Finding::text(i + 2, 1, 1, "Empty line at beginning of block body."));
        out
    }
}

/// Checks for empty lines at start/end of block body
pub struct EmptyLinesAroundBlockBody;

impl Cop for EmptyLinesAroundBlockBody {
    open spec fn spec_name(&self) -> Seq<char> {
        "Layout/EmptyLinesAroundBlockBody"@
    }

    open spec fn spec_category(&self) -> Category {
        Category::Layout
    }

    open spec fn spec_severity(&self) -> Severity {
        Severity::Convention
    }

    open spec fn spec_check(&self, src: SourceView) -> Seq<FindingView> {
        all_lines(self, src)
    }

    fn name(&self) -> (r: &str) {
        "Layout/EmptyLinesAroundBlockBody"
    }

    fn category(&self) -> (r: Category) {
        Category::Layout
    }

    fn severity(&self) -> (r: Severity) {
        Severity::Convention
    }

    open spec fn spec_description(&self) -> Seq<char> {
        "Checks for empty lines at start/end of block body"@
    }

    fn description(&self) -> (r: &str) {
        "Checks for empty lines at start/end of block body"
    }

    fn check(&self, source: &SourceFile) -> (r: Vec<Offense>) {
        report(self.name(), self.severity(), run_lines(self, source))
    }
}

impl LineRule for EmptyLinesAroundAccessModifier {
    /// An access modifier right after a non-blank line.
    open spec fn spec_line(&self, src: SourceView, i: int) -> Seq<FindingView> {
        let t = trim(src.lines[i]);
        one_if(
            (t == bytes_of("private") || t == bytes_of("protected") || t == bytes_of("public")) && i >= 1 && !is_blank(
                src.lines[i - 1],
            ),
            finding(i + 1, 1, t.len() as int, bytes_of("Add empty line before access modifier.")),
        )
    }

    fn line_findings(&self, src: &SourceFile, i: usize) -> (r: Vec<Finding>) {
        let t = trim_exec(src.line_at(i));
        let mut out: Vec<Finding> = Vec::new();
        let hit = (eq_str(t, "private") || eq_str(t, "protected") || eq_str(t, "public")) && i >= 1 && !is_blank_exec(
            src.line_at(i - 1),
        );
        push_if(&mut out, hit, Finding::text(i + 1, 1, t.len(), "Add empty line before access modifier."));
        out
    }
}

/// Checks for blank lines around access modifiers
pub struct EmptyLinesAroundAccessModifier;

impl Cop for EmptyLinesAroundAccessModifier {
    open spec fn spec_name(&self) -> Seq<char> {
        "Layout/EmptyLinesAroundAccessModifier"@
    }

    open spec fn spec_category(&self) -> Category {
        Category::Layout
    }

    open spec fn spec_severity(&self) -> Severity {
        Severity::Convention
    }

    open spec fn spec_check(&self, src: SourceView) -> Seq<FindingView> {
        all_lines(self, src)
    }

    fn name(&self) -> (r: &str) {
        "Layout/EmptyLinesAroundAccessModifier"
    }

    fn category(&self) -> (r: Category) {
        Category::Layout
    }

    fn severity(&self) -> (r: Severity) {
        Severity::Convention
    }

    open spec fn spec_description(&self) -> Seq<char> {
        "Checks for blank lines around access modifiers"@
    }

    fn description(&self) -> (r: &str) {
        "Checks for blank lines around access modifiers"
    }

    fn check(&self, source: &SourceFile) -> (r: Vec<Offense>) {
        report(self.name(), self.severity(), run_lines(self, source))
    }
}

/// Checks for chaining after single-line blocks
pub struct SingleLineBlockChain;

impl Cop for SingleLineBlockChain {
    open spec fn spec_name(&self) -> Seq<char> {
        "Layout/SingleLineBlockChain"@
    }

    open spec fn spec_category(&self) -> Category {
        Category::Layout
    }

    open spec fn spec_severity(&self) -> Severity {
        Severity::Convention
    }

    open spec fn spec_check(&self, src: SourceView) -> Seq<FindingView> {
        seq![]
    }

    fn name(&self) -> (r: &str) {
        "Layout/SingleLineBlockChain"
    }

    fn category(&self) -> (r: Category) {
        Category::Layout
    }

    fn severity(&self) -> (r: Severity) {
        Severity::Convention
    }

    open spec fn spec_description(&self) -> Seq<char> {
        "Checks for chaining after single-line blocks"@
    }

    fn description(&self) -> (r: &str) {
        "Checks for chaining after single-line blocks"
    }

    fn check(&self, source: &SourceFile) -> (r: Vec<Offense>) {
        report(self.name(), self.severity(), Vec::new())
    }
}

/// Checks that end of block is on own line
pub struct BlockEndNewline;

impl Cop for BlockEndNewline {
    open spec fn spec_name(&self) -> Seq<char> {
        "Layout/BlockEndNewline"@
    }

    open spec fn spec_category(&self) -> Category {
        Category::Layout
    }

    open spec fn spec_severity(&self) -> Severity {
        Severity::Convention
    }

    open spec fn spec_check(&self, src: SourceView) -> Seq<FindingView> {
        seq![]
    }

    fn name(&self) -> (r: &str) {
        "Layout/BlockEndNewline"
    }

    fn category(&self) -> (r: Category) {
        Category::Layout
    }

    fn severity(&self) -> (r: Severity) {
        Severity::Convention
    }

    open spec fn spec_description(&self) -> Seq<char> {
        "Checks that end of block is on own line"@
    }

    fn description(&self) -> (r: &str) {
        "Checks that end of block is on own line"
    }

    fn check(&self, source: &SourceFile) -> (r: Vec<Offense>) {
        report(self.name(), self.severity(), Vec::new())
    }
}

impl LineRule for CaseIndentation {
    /// A `when` with no indentation.
    open spec fn spec_line(&self, src: SourceView, i: int) -> Seq<FindingView> {
        let l = src.lines[i];
        one_if(
            starts_with(trim_start(l), bytes_of("when ")) && lead_ws(l) == 0,
            finding(i + 1, 1, 4, bytes_of("Indent when as deep as case.")),
        )
    }

    fn line_findings(&self, src: &SourceFile, i: usize) -> (r: Vec<Finding>) {
        let l = src.line_at(i);
        let mut out: Vec<Finding> = Vec::new();
        let hit = starts_with_str(trim_start_exec(l), "when ") && lead_ws_exec(l) == 0;
        push_if(&mut out, hit, Finding::text(i + 1, 1, 4, "Indent when as deep as case."));
        out
    }
}

/// Checks indentation of when in case statements
pub struct CaseIndentation;

impl Cop for CaseIndentation {
    open spec fn spec_name(&self) -> Seq<char> {
        "Layout/CaseIndentation"@
    }

    open spec fn spec_category(&self) -> Category {
        Category::Layout
    }

    open spec fn spec_severity(&self) -> Severity {
        Severity::Convention
    }

    open spec fn spec_check(&self, src: SourceView) -> Seq<FindingView> {
        all_lines(self, src)
    }

    fn name(&self) -> (r: &str) {
        "Layout/CaseIndentation"
    }

    fn category(&self) -> (r: Category) {
        Category::Layout
    }

    fn severity(&self) -> (r: Severity) {
        Severity::Convention
    }

    open spec fn spec_description(&self) -> Seq<char> {
        "Checks indentation of when in case statements"@
    }

    fn description(&self) -> (r: &str) {
        "Checks indentation of when in case statements"
    }

    fn check(&self, source: &SourceFile) -> (r: Vec<Offense>) {
        report(self.name(), self.severity(), run_lines(self, source))
    }
}

/// Checks alignment of end with opening keyword
pub struct EndAlignment;

impl Cop for EndAlignment {
    open spec fn spec_name(&self) -> Seq<char> {
        "Layout/EndAlignment"@
    }

    open spec fn spec_category(&self) -> Category {
        Category::Layout
    }

    open spec fn spec_severity(&self) -> Severity {
        Severity::Convention
    }

    open spec fn spec_check(&self, src: SourceView) -> Seq<FindingView> {
        seq![]
    }

    fn name(&self) -> (r: &str) {
        "Layout/EndAlignment"
    }

    fn category(&self) -> (r: Category) {
        Category::Layout
    }

    fn severity(&self) -> (r: Severity) {
        Severity::Convention
    }

    open spec fn spec_description(&self) -> Seq<char> {
        "Checks alignment of end with opening keyword"@
    }

    fn description(&self) -> (r: &str) {
        "Checks alignment of end with opening keyword"
    }

    fn check(&self, source: &SourceFile) -> (r: Vec<Offense>) {
        report(self.name(), self.severity(), Vec::new())
    }
}

/// Checks alignment of method end with def
pub struct DefEndAlignment;

impl Cop for DefEndAlignment {
    open spec fn spec_name(&self) -> Seq<char> {
        "Layout/DefEndAlignment"@
    }

    open spec fn spec_category(&self) -> Category {
        Category::Layout
    }

    open spec fn spec_severity(&self) -> Severity {
        Severity::Convention
    }

    open spec fn spec_check(&self, src: SourceView) -> Seq<FindingView> {
        seq![]
    }

    fn name(&self) -> (r: &str) {
        "Layout/DefEndAlignment"
    }

    fn category(&self) -> (r: Category) {
        Category::Layout
    }

    fn severity(&self) -> (r: Severity) {
        Severity::Convention
    }

    open spec fn spec_description(&self) -> Seq<char> {
        "Checks alignment of method end with def"@
    }

    fn description(&self) -> (r: &str) {
        "Checks alignment of method end with def"
    }

    fn check(&self, source: &SourceFile) -> (r: Vec<Offense>) {
        report(self.name(), self.severity(), Vec::new())
    }
}

/// Checks alignment of else with if
pub struct ElseAlignment;

impl Cop for ElseAlignment {
    open spec fn spec_name(&self) -> Seq<char> {
        "Layout/ElseAlignment"@
    }

    open spec fn spec_category(&self) -> Category {
        Category::Layout
    }

    open spec fn spec_severity(&self) -> Severity {
        Severity::Convention
    }

    open spec fn spec_check(&self, src: SourceView) -> Seq<FindingView> {
        seq![]
    }

    fn name(&self) -> (r: &str) {
        "Layout/ElseAlignment"
    }

    fn category(&self) -> (r: Category) {
        Category::Layout
    }

    fn severity(&self) -> (r: Severity) {
        Severity::Convention
    }

    open spec fn spec_description(&self) -> Seq<char> {
        "Checks alignment of else with if"@
    }

    fn description(&self) -> (r: &str) {
        "Checks alignment of else with if"
    }

    fn check(&self, source: &SourceFile) -> (r: Vec<Offense>) {
        report(self.name(), self.severity(), Vec::new())
    }
}

/// Checks alignment of rescue/ensure with begin
pub struct RescueEnsureAlignment;

impl Cop for RescueEnsureAlignment {
    open spec fn spec_name(&self) -> Seq<char> {
        "Layout/RescueEnsureAlignment"@
    }

    open spec fn spec_category(&self) -> Category {
        Category::Layout
    }

    open spec fn spec_severity(&self) -> Severity {
        Severity::Convention
    }

    open spec fn spec_check(&self, src: SourceView) -> Seq<FindingView> {
        seq![]
    }

    fn name(&self) -> (r: &str) {
        "Layout/RescueEnsureAlignment"
    }

    fn category(&self) -> (r: Category) {
        Category::Layout
    }

    fn severity(&self) -> (r: Severity) {
        Severity::Convention
    }

    open spec fn spec_description(&self) -> Seq<char> {
        "Checks alignment of rescue/ensure with begin"@
    }

    fn description(&self) -> (r: &str) {
        "Checks alignment of rescue/ensure with begin"
    }

    fn check(&self, source: &SourceFile) -> (r: Vec<Offense>) {
        report(self.name(), self.severity(), Vec::new())
    }
}

/// Checks indentation of access modifiers
pub struct AccessModifierIndentation;

impl Cop for AccessModifierIndentation {
    open spec fn spec_name(&self) -> Seq<char> {
        "Layout/AccessModifierIndentation"@
    }

    open spec fn spec_category(&self) -> Category {
        Category::Layout
    }

    open spec fn spec_severity(&self) -> Severity {
        Severity::Convention
    }

    open spec fn spec_check(&self, src: SourceView) -> Seq<FindingView> {
        seq![]
    }

    fn name(&self) -> (r: &str) {
        "Layout/AccessModifierIndentation"
    }

    fn category(&self) -> (r: Category) {
        Category::Layout
    }

    fn severity(&self) -> (r: Severity) {
        Severity::Convention
    }

    open spec fn spec_description(&self) -> Seq<char> {
        "Checks indentation of access modifiers"@
    }

    fn description(&self) -> (r: &str) {
        "Checks indentation of access modifiers"
    }

    fn check(&self, source: &SourceFile) -> (r: Vec<Offense>) {
        report(self.name(), self.severity(), Vec::new())
    }
}

/// Checks indentation of closing parenthesis
pub struct ClosingParenthesisIndentation;

impl Cop for ClosingParenthesisIndentation {
    open spec fn spec_name(&self) -> Seq<char> {
        "Layout/ClosingParenthesisIndentation"@
    }

    open spec fn spec_category(&self) -> Category {
        Category::Layout
    }

    open spec fn spec_severity(&self) -> Severity {
        Severity::Convention
    }

    open spec fn spec_check(&self, src: SourceView) -> Seq<FindingView> {
        seq![]
    }

    fn name(&self) -> (r: &str) {
        "Layout/ClosingParenthesisIndentation"
    }

    fn category(&self) -> (r: Category) {
        Category::Layout
    }

    fn severity(&self) -> (r: Severity) {
        Severity::Convention
    }

    open spec fn spec_description(&self) -> Seq<char> {
        "Checks indentation of closing parenthesis"@
    }

    fn description(&self) -> (r: &str) {
        "Checks indentation of closing parenthesis"
    }

    fn check(&self, source: &SourceFile) -> (r: Vec<Offense>) {
        report(self.name(), self.severity(), Vec::new())
    }
}

/// Checks indentation of multiline method calls
pub struct MultilineMethodCallIndentation;

impl Cop for MultilineMethodCallIndentation {
    open spec fn spec_name(&self) -> Seq<char> {
        "Layout/MultilineMethodCallIndentation"@
    }

    open spec fn spec_category(&self) -> Category {
        Category::Layout
    }

    open spec fn spec_severity(&self) -> Severity {
        Severity::Convention
    }

    open spec fn spec_check(&self, src: SourceView) -> Seq<FindingView> {
        seq![]
    }

    fn name(&self) -> (r: &str) {
        "Layout/MultilineMethodCallIndentation"
    }

    fn category(&self) -> (r: Category) {
        Category::Layout
    }

    fn severity(&self) -> (r: Severity) {
        Severity::Convention
    }

    open spec fn spec_description(&self) -> Seq<char> {
        "Checks indentation of multiline method calls"@
    }

    fn description(&self) -> (r: &str) {
        "Checks indentation of multiline method calls"
    }

    fn check(&self, source: &SourceFile) -> (r: Vec<Offense>) {
        report(self.name(), self.severity(), Vec::new())
    }
}

/// Checks indentation of multiline operations
pub struct MultilineOperationIndentation;

impl Cop for MultilineOperationIndentation {
    open spec fn spec_name(&self) -> Seq<char> {
        "Layout/MultilineOperationIndentation"@
    }

    open spec fn spec_category(&self) -> Category {
        Category::Layout
    }

    open spec fn spec_severity(&self) -> Severity {
        Severity::Convention
    }

    open spec fn spec_check(&self, src: SourceView) -> Seq<FindingView> {
        seq![]
    }

    fn name(&self) -> (r: &str) {
        "Layout/MultilineOperationIndentation"
    }

    fn category(&self) -> (r: Category) {
        Category::Layout
    }

    fn severity(&self) -> (r: Severity) {
        Severity::Convention
    }

    open spec fn spec_description(&self) -> Seq<char> {
        "Checks indentation of multiline operations"@
    }

    fn description(&self) -> (r: &str) {
        "Checks indentation of multiline operations"
    }

    fn check(&self, source: &SourceFile) -> (r: Vec<Offense>) {
        report(self.name(), self.severity(), Vec::new())
    }
}

/// Checks alignment of method arguments
pub struct ArgumentAlignment;

impl Cop for ArgumentAlignment {
    open spec fn spec_name(&self) -> Seq<char> {
        "Layout/ArgumentAlignment"@
    }

    open spec fn spec_category(&self) -> Category {
        Category::Layout
    }

    open spec fn spec_severity(&self) -> Severity {
        Severity::Convention
    }

    open spec fn spec_check(&self, src: SourceView) -> Seq<FindingView> {
        seq![]
    }

    fn name(&self) -> (r: &str) {
        "Layout/ArgumentAlignment"
    }

    fn category(&self) -> (r: Category) {
        Category::Layout
    }

    fn severity(&self) -> (r: Severity) {
        Severity::Convention
    }

    open spec fn spec_description(&self) -> Seq<char> {
        "Checks alignment of method arguments"@
    }

    fn description(&self) -> (r: &str) {
        "Checks alignment of method arguments"
    }

    fn check(&self, source: &SourceFile) -> (r: Vec<Offense>) {
        report(self.name(), self.severity(), Vec::new())
    }
}

/// Checks alignment of array elements
pub struct ArrayAlignment;

impl Cop for ArrayAlignment {
    open spec fn spec_name(&self) -> Seq<char> {
        "Layout/ArrayAlignment"@
    }

    open spec fn spec_category(&self) -> Category {
        Category::Layout
    }

    open spec fn spec_severity(&self) -> Severity {
        Severity::Convention
    }

    open spec fn spec_check(&self, src: SourceView) -> Seq<FindingView> {
        seq![]
    }

    fn name(&self) -> (r: &str) {
        "Layout/ArrayAlignment"
    }

    fn category(&self) -> (r: Category) {
        Category::Layout
    }

    fn severity(&self) -> (r: Severity) {
        Severity::Convention
    }

    open spec fn spec_description(&self) -> Seq<char> {
        "Checks alignment of array elements"@
    }

    fn description(&self) -> (r: &str) {
        "Checks alignment of array elements"
    }

    fn check(&self, source: &SourceFile) -> (r: Vec<Offense>) {
        report(self.name(), self.severity(), Vec::new())
    }
}

/// Checks alignment of hash pairs
pub struct HashAlignment;

impl Cop for HashAlignment {
    open spec fn spec_name(&self) -> Seq<char> {
        "Layout/HashAlignment"@
    }

    open spec fn spec_category(&self) -> Category {
        Category::Layout
    }

    open spec fn spec_severity(&self) -> Severity {
        Severity::Convention
    }

    open spec fn spec_check(&self, src: SourceView) -> Seq<FindingView> {
        seq![]
    }

    fn name(&self) -> (r: &str) {
        "Layout/HashAlignment"
    }

    fn category(&self) -> (r: Category) {
        Category::Layout
    }

    fn severity(&self) -> (r: Severity) {
        Severity::Convention
    }

    open spec fn spec_description(&self) -> Seq<char> {
        "Checks alignment of hash pairs"@
    }

    fn description(&self) -> (r: &str) {
        "Checks alignment of hash pairs"
    }

    fn check(&self, source: &SourceFile) -> (r: Vec<Offense>) {
        report(self.name(), self.severity(), Vec::new())
    }
}

/// Checks alignment of method parameters
pub struct ParameterAlignment;

impl Cop for ParameterAlignment {
    open spec fn spec_name(&self) -> Seq<char> {
        "Layout/ParameterAlignment"@
    }

    open spec fn spec_category(&self) -> Category {
        Category::Layout
    }

    open spec fn spec_severity(&self) -> Severity {
        Severity::Convention
    }

    open spec fn spec_check(&self, src: SourceView) -> Seq<FindingView> {
        seq![]
    }

    fn name(&self) -> (r: &str) {
        "Layout/ParameterAlignment"
    }

    fn category(&self) -> (r: Category) {
        Category::Layout
    }

    fn severity(&self) -> (r: Severity) {
        Severity::Convention
    }

    open spec fn spec_description(&self) -> Seq<char> {
        "Checks alignment of method parameters"@
    }

    fn description(&self) -> (r: &str) {
        "Checks alignment of method parameters"
    }

    fn check(&self, source: &SourceFile) -> (r: Vec<Offense>) {
        report(self.name(), self.severity(), Vec::new())
    }
}

/// Checks indentation of assignment RHS
pub struct AssignmentIndentation;

impl Cop for AssignmentIndentation {
    open spec fn spec_name(&self) -> Seq<char> {
        "Layout/AssignmentIndentation"@
    }

    open spec fn spec_category(&self) -> Category {
        Category::Layout
    }

    open spec fn spec_severity(&self) -> Severity {
        Severity::Convention
    }

    open spec fn spec_check(&self, src: SourceView) -> Seq<FindingView> {
        seq![]
    }

    fn name(&self) -> (r: &str) {
        "Layout/AssignmentIndentation"
    }

    fn category(&self) -> (r: Category) {
        Category::Layout
    }

    fn severity(&self) -> (r: Severity) {
        Severity::Convention
    }

    open spec fn spec_description(&self) -> Seq<char> {
        "Checks indentation of assignment RHS"@
    }

    fn description(&self) -> (r: &str) {
        "Checks indentation of assignment RHS"
    }

    fn check(&self, source: &SourceFile) -> (r: Vec<Offense>) {
        report(self.name(), self.severity(), Vec::new())
    }
}

/// Checks indentation of first argument
pub struct FirstArgumentIndentation;

impl Cop for FirstArgumentIndentation {
    open spec fn spec_name(&self) -> Seq<char> {
        "Layout/FirstArgumentIndentation"@
    }

    open spec fn spec_category(&self) -> Category {
        Category::Layout
    }

    open spec fn spec_severity(&self) -> Severity {
        Severity::Convention
    }

    open spec fn spec_check(&self, src: SourceView) -> Seq<FindingView> {
        seq![]
    }

    fn name(&self) -> (r: &str) {
        "Layout/FirstArgumentIndentation"
    }

    fn category(&self) -> (r: Category) {
        Category::Layout
    }

    fn severity(&self) -> (r: Severity) {
        Severity::Convention
    }

    open spec fn spec_description(&self) -> Seq<char> {
        "Checks indentation of first argument"@
    }

    fn description(&self) -> (r: &str) {
        "Checks indentation of first argument"
    }

    fn check(&self, source: &SourceFile) -> (r: Vec<Offense>) {
        report(self.name(), self.severity(), Vec::new())
    }
}

/// Checks indentation of first array element
pub struct FirstArrayElementIndentation;

impl Cop for FirstArrayElementIndentation {
    open spec fn spec_name(&self) -> Seq<char> {
        "Layout/FirstArrayElementIndentation"@
    }

    open spec fn spec_category(&self) -> Category {
        Category::Layout
    }

    open spec fn spec_severity(&self) -> Severity {
        Severity::Convention
    }

    open spec fn spec_check(&self, src: SourceView) -> Seq<FindingView> {
        seq![]
    }

    fn name(&self) -> (r: &str) {
        "Layout/FirstArrayElementIndentation"
    }

    fn category(&self) -> (r: Category) {
        Category::Layout
    }

    fn severity(&self) -> (r: Severity) {
        Severity::Convention
    }

    open spec fn spec_description(&self) -> Seq<char> {
        "Checks indentation of first array element"@
    }

    fn description(&self) -> (r: &str) {
        "Checks indentation of first array element"
    }

    fn check(&self, source: &SourceFile) -> (r: Vec<Offense>) {
        report(self.name(), self.severity(), Vec::new())
    }
}

/// Checks indentation of first hash element
pub struct FirstHashElementIndentation;

impl Cop for FirstHashElementIndentation {
    open spec fn spec_name(&self) -> Seq<char> {
        "Layout/FirstHashElementIndentation"@
    }

    open spec fn spec_category(&self) -> Category {
        Category::Layout
    }

    open spec fn spec_severity(&self) -> Severity {
        Severity::Convention
    }

    open spec fn spec_check(&self, src: SourceView) -> Seq<FindingView> {
        seq![]
    }

    fn name(&self) -> (r: &str) {
        "Layout/FirstHashElementIndentation"
    }

    fn category(&self) -> (r: Category) {
        Category::Layout
    }

    fn severity(&self) -> (r: Severity) {
        Severity::Convention
    }

    open spec fn spec_description(&self) -> Seq<char> {
        "Checks indentation of first hash element"@
    }

    fn description(&self) -> (r: &str) {
        "Checks indentation of first hash element"
    }

    fn check(&self, source: &SourceFile) -> (r: Vec<Offense>) {
        report(self.name(), self.severity(), Vec::new())
    }
}

/// Checks indentation of heredoc content
pub struct HeredocIndentation;

impl Cop for HeredocIndentation {
    open spec fn spec_name(&self) -> Seq<char> {
        "Layout/HeredocIndentation"@
    }

    open spec fn spec_category(&self) -> Category {
        Category::Layout
    }

    open spec fn spec_severity(&self) -> Severity {
        Severity::Convention
    }

    open spec fn spec_check(&self, src: SourceView) -> Seq<FindingView> {
        seq![]
    }

    fn name(&self) -> (r: &str) {
        "Layout/HeredocIndentation"
    }

    fn category(&self) -> (r: Category) {
        Category::Layout
    }

    fn severity(&self) -> (r: Severity) {
        Severity::Convention
    }

    open spec fn spec_description(&self) -> Seq<char> {
        "Checks indentation of heredoc content"@
    }

    fn description(&self) -> (r: &str) {
        "Checks indentation of heredoc content"
    }

    fn check(&self, source: &SourceFile) -> (r: Vec<Offense>) {
        report(self.name(), self.severity(), Vec::new())
    }
}

/// Checks spacing around line continuation
pub struct LineContinuationSpacing;

impl Cop for LineContinuationSpacing {
    open spec fn spec_name(&self) -> Seq<char> {
        "Layout/LineContinuationSpacing"@
    }

    open spec fn spec_category(&self) -> Category {
        Category::Layout
    }

    open spec fn spec_severity(&self) -> Severity {
        Severity::Convention
    }

    open spec fn spec_check(&self, src: SourceView) -> Seq<FindingView> {
        seq![]
    }

    fn name(&self) -> (r: &str) {
        "Layout/LineContinuationSpacing"
    }

    fn category(&self) -> (r: Category) {
        Category::Layout
    }

    fn severity(&self) -> (r: Severity) {
        Severity::Convention
    }

    open spec fn spec_description(&self) -> Seq<char> {
        "Checks spacing around line continuation"@
    }

    fn description(&self) -> (r: &str) {
        "Checks spacing around line continuation"
    }

    fn check(&self, source: &SourceFile) -> (r: Vec<Offense>) {
        report(self.name(), self.severity(), Vec::new())
    }
}

/// Checks leading space after line continuation
pub struct LineContinuationLeadingSpace;

impl Cop for LineContinuationLeadingSpace {
    open spec fn spec_name(&self) -> Seq<char> {
        "Layout/LineContinuationLeadingSpace"@
    }

    open spec fn spec_category(&self) -> Category {
        Category::Layout
    }

    open spec fn spec_severity(&self) -> Severity {
        Severity::Convention
    }

    open spec fn spec_check(&self, src: SourceView) -> Seq<FindingView> {
        seq![]
    }

    fn name(&self) -> (r: &str) {
        "Layout/LineContinuationLeadingSpace"
    }

    fn category(&self) -> (r: Category) {
        Category::Layout
    }

    fn severity(&self) -> (r: Severity) {
        Severity::Convention
    }

    open spec fn spec_description(&self) -> Seq<char> {
        "Checks leading space after line continuation"@
    }

    fn description(&self) -> (r: &str) {
        "Checks leading space after line continuation"
    }

    fn check(&self, source: &SourceFile) -> (r: Vec<Offense>) {
        report(self.name(), self.severity(), Vec::new())
    }
}

/// Checks bracket placement for multiline arrays
pub struct MultilineArrayBraceLayout;

impl Cop for MultilineArrayBraceLayout {
    open spec fn spec_name(&self) -> Seq<char> {
        "Layout/MultilineArrayBraceLayout"@
    }

    open spec fn spec_category(&self) -> Category {
        Category::Layout
    }

    open spec fn spec_severity(&self) -> Severity {
        Severity::Convention
    }

    open spec fn spec_check(&self, src: SourceView) -> Seq<FindingView> {
        seq![]
    }

    fn name(&self) -> (r: &str) {
        "Layout/MultilineArrayBraceLayout"
    }

    fn category(&self) -> (r: Category) {
        Category::Layout
    }

    fn severity(&self) -> (r: Severity) {
        Severity::Convention
    }

    open spec fn spec_description(&self) -> Seq<char> {
        "Checks bracket placement for multiline arrays"@
    }

    fn description(&self) -> (r: &str) {
        "Checks bracket placement for multiline arrays"
    }

    fn check(&self, source: &SourceFile) -> (r: Vec<Offense>) {
        report(self.name(), self.severity(), Vec::new())
    }
}

/// Checks brace placement for multiline hashes
pub struct MultilineHashBraceLayout;

impl Cop for MultilineHashBraceLayout {
    open spec fn spec_name(&self) -> Seq<char> {
        "Layout/MultilineHashBraceLayout"@
    }

    open spec fn spec_category(&self) -> Category {
        Category::Layout
    }

    open spec fn spec_severity(&self) -> Severity {
        Severity::Convention
    }

    open spec fn spec_check(&self, src: SourceView) -> Seq<FindingView> {
        seq![]
    }

    fn name(&self) -> (r: &str) {
        "Layout/MultilineHashBraceLayout"
    }

    fn category(&self) -> (r: Category) {
        Category::Layout
    }

    fn severity(&self) -> (r: Severity) {
        Severity::Convention
    }

    open spec fn spec_description(&self) -> Seq<char> {
        "Checks brace placement for multiline hashes"@
    }

    fn description(&self) -> (r: &str) {
        "Checks brace placement for multiline hashes"
    }

    fn check(&self, source: &SourceFile) -> (r: Vec<Offense>) {
        report(self.name(), self.severity(), Vec::new())
    }
}

/// Checks layout of multiline blocks
pub struct MultilineBlockLayout;

impl Cop for MultilineBlockLayout {
    open spec fn spec_name(&self) -> Seq<char> {
        "Layout/MultilineBlockLayout"@
    }

    open spec fn spec_category(&self) -> Category {
        Category::Layout
    }

    open spec fn spec_severity(&self) -> Severity {
        Severity::Convention
    }

    open spec fn spec_check(&self, src: SourceView) -> Seq<FindingView> {
        seq![]
    }

    fn name(&self) -> (r: &str) {
        "Layout/MultilineBlockLayout"
    }

    fn category(&self) -> (r: Category) {
        Category::Layout
    }

    fn severity(&self) -> (r: Severity) {
        Severity::Convention
    }

    open spec fn spec_description(&self) -> Seq<char> {
        "Checks layout of multiline blocks"@
    }

    fn description(&self) -> (r: &str) {
        "Checks layout of multiline blocks"
    }

    fn check(&self, source: &SourceFile) -> (r: Vec<Offense>) {
        report(self.name(), self.severity(), Vec::new())
    }
}

/// Checks brace layout for method calls
pub struct MultilineMethodCallBraceLayout;

impl Cop for MultilineMethodCallBraceLayout {
    open spec fn spec_name(&self) -> Seq<char> {
        "Layout/MultilineMethodCallBraceLayout"@
    }

    open spec fn spec_category(&self) -> Category {
        Category::Layout
    }

    open spec fn spec_severity(&self) -> Severity {
        Severity::Convention
    }

    open spec fn spec_check(&self, src: SourceView) -> Seq<FindingView> {
        seq![]
    }

    fn name(&self) -> (r: &str) {
        "Layout/MultilineMethodCallBraceLayout"
    }

    fn category(&self) -> (r: Category) {
        Category::Layout
    }

    fn severity(&self) -> (r: Severity) {
        Severity::Convention
    }

    open spec fn spec_description(&self) -> Seq<char> {
        "Checks brace layout for method calls"@
    }

    fn description(&self) -> (r: &str) {
        "Checks brace layout for method calls"
    }

    fn check(&self, source: &SourceFile) -> (r: Vec<Offense>) {
        report(self.name(), self.severity(), Vec::new())
    }
}

/// Checks that each array element is on own line
pub struct MultilineArrayLineBreaks;

impl Cop for MultilineArrayLineBreaks {
    open spec fn spec_name(&self) -> Seq<char> {
        "Layout/MultilineArrayLineBreaks"@
    }

    open spec fn spec_category(&self) -> Category {
        Category::Layout
    }

    open spec fn spec_severity(&self) -> Severity {
        Severity::Convention
    }

    open spec fn spec_check(&self, src: SourceView) -> Seq<FindingView> {
        seq![]
    }

    fn name(&self) -> (r: &str) {
        "Layout/MultilineArrayLineBreaks"
    }

    fn category(&self) -> (r: Category) {
        Category::Layout
    }

    fn severity(&self) -> (r: Severity) {
        Severity::Convention
    }

    open spec fn spec_description(&self) -> Seq<char> {
        "Checks that each array element is on own line"@
    }

    fn description(&self) -> (r: &str) {
        "Checks that each array element is on own line"
    }

    fn check(&self, source: &SourceFile) -> (r: Vec<Offense>) {
        report(self.name(), self.severity(), Vec::new())
    }
}

/// Checks that each hash key is on own line
pub struct MultilineHashKeyLineBreaks;

impl Cop for MultilineHashKeyLineBreaks {
    open spec fn spec_name(&self) -> Seq<char> {
        "Layout/MultilineHashKeyLineBreaks"@
    }

    open spec fn spec_category(&self) -> Category {
        Category::Layout
    }

    open spec fn spec_severity(&self) -> Severity {
        Severity::Convention
    }

    open spec fn spec_check(&self, src: SourceView) -> Seq<FindingView> {
        seq![]
    }

    fn name(&self) -> (r: &str) {
        "Layout/MultilineHashKeyLineBreaks"
    }

    fn category(&self) -> (r: Category) {
        Category::Layout
    }

    fn severity(&self) -> (r: Severity) {
        Severity::Convention
    }

    open spec fn spec_description(&self) -> Seq<char> {
        "Checks that each hash key is on own line"@
    }

    fn description(&self) -> (r: &str) {
        "Checks that each hash key is on own line"
    }

    fn check(&self, source: &SourceFile) -> (r: Vec<Offense>) {
        report(self.name(), self.severity(), Vec::new())
    }
}

/// Checks that each argument is on own line
pub struct MultilineMethodArgumentLineBreaks;

impl Cop for MultilineMethodArgumentLineBreaks {
    open spec fn spec_name(&self) -> Seq<char> {
        "Layout/MultilineMethodArgumentLineBreaks"@
    }

    open spec fn spec_category(&self) -> Category {
        Category::Layout
    }

    open spec fn spec_severity(&self) -> Severity {
        Severity::Convention
    }

    open spec fn spec_check(&self, src: SourceView) -> Seq<FindingView> {
        seq![]
    }

    fn name(&self) -> (r: &str) {
        "Layout/MultilineMethodArgumentLineBreaks"
    }

    fn category(&self) -> (r: Category) {
        Category::Layout
    }

    fn severity(&self) -> (r: Severity) {
        Severity::Convention
    }

    open spec fn spec_description(&self) -> Seq<char> {
        "Checks that each argument is on own line"@
    }

    fn description(&self) -> (r: &str) {
        "Checks that each argument is on own line"
    }

    fn check(&self, source: &SourceFile) -> (r: Vec<Offense>) {
        report(self.name(), self.severity(), Vec::new())
    }
}

/// Checks that each parameter is on own line
pub struct MultilineMethodParameterLineBreaks;

impl Cop for MultilineMethodParameterLineBreaks {
    open spec fn spec_name(&self) -> Seq<char> {
        "Layout/MultilineMethodParameterLineBreaks"@
    }

    open spec fn spec_category(&self) -> Category {
        Category::Layout
    }

    open spec fn spec_severity(&self) -> Severity {
        Severity::Convention
    }

    open spec fn spec_check(&self, src: SourceView) -> Seq<FindingView> {
        seq![]
    }

    fn name(&self) -> (r: &str) {
        "Layout/MultilineMethodParameterLineBreaks"
    }

    fn category(&self) -> (r: Category) {
        Category::Layout
    }

    fn severity(&self) -> (r: Severity) {
        Severity::Convention
    }

    open spec fn spec_description(&self) -> Seq<char> {
        "Checks that each parameter is on own line"@
    }

    fn description(&self) -> (r: &str) {
        "Checks that each parameter is on own line"
    }

    fn check(&self, source: &SourceFile) -> (r: Vec<Offense>) {
        report(self.name(), self.severity(), Vec::new())
    }
}

/// Checks line break after opening parenthesis
pub struct FirstMethodArgumentLineBreak;

impl Cop for FirstMethodArgumentLineBreak {
    open spec fn spec_name(&self) -> Seq<char> {
        "Layout/FirstMethodArgumentLineBreak"@
    }

    open spec fn spec_category(&self) -> Category {
        Category::Layout
    }

    open spec fn spec_severity(&self) -> Severity {
        Severity::Convention
    }

    open spec fn spec_check(&self, src: SourceView) -> Seq<FindingView> {
        seq![]
    }

    fn name(&self) -> (r: &str) {
        "Layout/FirstMethodArgumentLineBreak"
    }

    fn category(&self) -> (r: Category) {
        Category::Layout
    }

    fn severity(&self) -> (r: Severity) {
        Severity::Convention
    }

    open spec fn spec_description(&self) -> Seq<char> {
        "Checks line break after opening parenthesis"@
    }

    fn description(&self) -> (r: &str) {
        "Checks line break after opening parenthesis"
    }

    fn check(&self, source: &SourceFile) -> (r: Vec<Offense>) {
        report(self.name(), self.severity(), Vec::new())
    }
}

/// Checks line break for first parameter
pub struct FirstMethodParameterLineBreak;

impl Cop for FirstMethodParameterLineBreak {
    open spec fn spec_name(&self) -> Seq<char> {
        "Layout/FirstMethodParameterLineBreak"@
    }

    open spec fn spec_category(&self) -> Category {
        Category::Layout
    }

    open spec fn spec_severity(&self) -> Severity {
        Severity::Convention
    }

    open spec fn spec_check(&self, src: SourceView) -> Seq<FindingView> {
        seq![]
    }

    fn name(&self) -> (r: &str) {
        "Layout/FirstMethodParameterLineBreak"
    }

    fn category(&self) -> (r: Category) {
        Category::Layout
    }

    fn severity(&self) -> (r: Severity) {
        Severity::Convention
    }

    open spec fn spec_description(&self) -> Seq<char> {
        "Checks line break for first parameter"@
    }

    fn description(&self) -> (r: &str) {
        "Checks line break for first parameter"
    }

    fn check(&self, source: &SourceFile) -> (r: Vec<Offense>) {
        report(self.name(), self.severity(), Vec::new())
    }
}

/// Checks line break for first array element
pub struct FirstArrayElementLineBreak;

impl Cop for FirstArrayElementLineBreak {
    open spec fn spec_name(&self) -> Seq<char> {
        "Layout/FirstArrayElementLineBreak"@
    }

    open spec fn spec_category(&self) -> Category {
        Category::Layout
    }

    open spec fn spec_severity(&self) -> Severity {
        Severity::Convention
    }

    open spec fn spec_check(&self, src: SourceView) -> Seq<FindingView> {
        seq![]
    }

    fn name(&self) -> (r: &str) {
        "Layout/FirstArrayElementLineBreak"
    }

    fn category(&self) -> (r: Category) {
        Category::Layout
    }

    fn severity(&self) -> (r: Severity) {
        Severity::Convention
    }

    open spec fn spec_description(&self) -> Seq<char> {
        "Checks line break for first array element"@
    }

    fn description(&self) -> (r: &str) {
        "Checks line break for first array element"
    }

    fn check(&self, source: &SourceFile) -> (r: Vec<Offense>) {
        report(self.name(), self.severity(), Vec::new())
    }
}

/// Checks line break for first hash element
pub struct FirstHashElementLineBreak;

impl Cop for FirstHashElementLineBreak {
    open spec fn spec_name(&self) -> Seq<char> {
        "Layout/FirstHashElementLineBreak"@
    }

    open spec fn spec_category(&self) -> Category {
        Category::Layout
    }

    open spec fn spec_severity(&self) -> Severity {
        Severity::Convention
    }

    open spec fn spec_check(&self, src: SourceView) -> Seq<FindingView> {
        seq![]
    }

    fn name(&self) -> (r: &str) {
        "Layout/FirstHashElementLineBreak"
    }

    fn category(&self) -> (r: Category) {
        Category::Layout
    }

    fn severity(&self) -> (r: Severity) {
        Severity::Convention
    }

    open spec fn spec_description(&self) -> Seq<char> {
        "Checks line break for first hash element"@
    }

    fn description(&self) -> (r: &str) {
        "Checks line break for first hash element"
    }

    fn check(&self, source: &SourceFile) -> (r: Vec<Offense>) {
        report(self.name(), self.severity(), Vec::new())
    }
}

/// Checks layout of multiline assignments
pub struct MultilineAssignmentLayout;

impl Cop for MultilineAssignmentLayout {
    open spec fn spec_name(&self) -> Seq<char> {
        "Layout/MultilineAssignmentLayout"@
    }

    open spec fn spec_category(&self) -> Category {
        Category::Layout
    }

    open spec fn spec_severity(&self) -> Severity {
        Severity::Convention
    }

    open spec fn spec_check(&self, src: SourceView) -> Seq<FindingView> {
        seq![]
    }

    fn name(&self) -> (r: &str) {
        "Layout/MultilineAssignmentLayout"
    }

    fn category(&self) -> (r: Category) {
        Category::Layout
    }

    fn severity(&self) -> (r: Severity) {
        Severity::Convention
    }

    open spec fn spec_description(&self) -> Seq<char> {
        "Checks layout of multiline assignments"@
    }

    fn description(&self) -> (r: &str) {
        "Checks layout of multiline assignments"
    }

    fn check(&self, source: &SourceFile) -> (r: Vec<Offense>) {
        report(self.name(), self.severity(), Vec::new())
    }
}

/// Checks brace layout in method definitions
pub struct MultilineMethodDefinitionBraceLayout;

impl Cop for MultilineMethodDefinitionBraceLayout {
    open spec fn spec_name(&self) -> Seq<char> {
        "Layout/MultilineMethodDefinitionBraceLayout"@
    }

    open spec fn spec_category(&self) -> Category {
        Category::Layout
    }

    open spec fn spec_severity(&self) -> Severity {
        Severity::Convention
    }

    open spec fn spec_check(&self, src: SourceView) -> Seq<FindingView> {
        seq![]
    }

    fn name(&self) -> (r: &str) {
        "Layout/MultilineMethodDefinitionBraceLayout"
    }

    fn category(&self) -> (r: Category) {
        Category::Layout
    }

    fn severity(&self) -> (r: Severity) {
        Severity::Convention
    }

    open spec fn spec_description(&self) -> Seq<char> {
        "Checks brace layout in method definitions"@
    }

    fn description(&self) -> (r: &str) {
        "Checks brace layout in method definitions"
    }

    fn check(&self, source: &SourceFile) -> (r: Vec<Offense>) {
        report(self.name(), self.severity(), Vec::new())
    }
}

/// Checks for unnecessary line breaks
pub struct RedundantLineBreak;

impl Cop for RedundantLineBreak {
    open spec fn spec_name(&self) -> Seq<char> {
        "Layout/RedundantLineBreak"@
    }

    open spec fn spec_category(&self) -> Category {
        Category::Layout
    }

    open spec fn spec_severity(&self) -> Severity {
        Severity::Convention
    }

    open spec fn spec_check(&self, src: SourceView) -> Seq<FindingView> {
        seq![]
    }

    fn name(&self) -> (r: &str) {
        "Layout/RedundantLineBreak"
    }

    fn category(&self) -> (r: Category) {
        Category::Layout
    }

    fn severity(&self) -> (r: Severity) {
        Severity::Convention
    }

    open spec fn spec_description(&self) -> Seq<char> {
        "Checks for unnecessary line breaks"@
    }

    fn description(&self) -> (r: &str) {
        "Checks for unnecessary line breaks"
    }

    fn check(&self, source: &SourceFile) -> (r: Vec<Offense>) {
        report(self.name(), self.severity(), Vec::new())
    }
}

/// Checks class structure ordering
pub struct ClassStructure;

impl Cop for ClassStructure {
    open spec fn spec_name(&self) -> Seq<char> {
        "Layout/ClassStructure"@
    }

    open spec fn spec_category(&self) -> Category {
        Category::Layout
    }

    open spec fn spec_severity(&self) -> Severity {
        Severity::Convention
    }

    open spec fn spec_check(&self, src: SourceView) -> Seq<FindingView> {
        seq![]
    }

    fn name(&self) -> (r: &str) {
        "Layout/ClassStructure"
    }

    fn category(&self) -> (r: Category) {
        Category::Layout
    }

    fn severity(&self) -> (r: Severity) {
        Severity::Convention
    }

    open spec fn spec_description(&self) -> Seq<char> {
        "Checks class structure ordering"@
    }

    fn description(&self) -> (r: &str) {
        "Checks class structure ordering"
    }

    fn check(&self, source: &SourceFile) -> (r: Vec<Offense>) {
        report(self.name(), self.severity(), Vec::new())
    }
}

/// Checks indentation of string concatenation
pub struct LineEndStringConcatenationIndentation;

impl Cop for LineEndStringConcatenationIndentation {
    open spec fn spec_name(&self) -> Seq<char> {
        "Layout/LineEndStringConcatenationIndentation"@
    }

    open spec fn spec_category(&self) -> Category {
        Category::Layout
    }

    open spec fn spec_severity(&self) -> Severity {
        Severity::Convention
    }

    open spec fn spec_check(&self, src: SourceView) -> Seq<FindingView> {
        seq![]
    }

    fn name(&self) -> (r: &str) {
        "Layout/LineEndStringConcatenationIndentation"
    }

    fn category(&self) -> (r: Category) {
        Category::Layout
    }

    fn severity(&self) -> (r: Severity) {
        Severity::Convention
    }

    open spec fn spec_description(&self) -> Seq<char> {
        "Checks indentation of string concatenation"@
    }

    fn description(&self) -> (r: &str) {
        "Checks indentation of string concatenation"
    }

    fn check(&self, source: &SourceFile) -> (r: Vec<Offense>) {
        report(self.name(), self.severity(), Vec::new())
    }
}

/// Checks indentation of heredoc closing delimiter
pub struct ClosingHeredocIndentation;

impl Cop for ClosingHeredocIndentation {
    open spec fn spec_name(&self) -> Seq<char> {
        "Layout/ClosingHeredocIndentation"@
    }

    open spec fn spec_category(&self) -> Category {
        Category::Layout
    }

    open spec fn spec_severity(&self) -> Severity {
        Severity::Convention
    }

    open spec fn spec_check(&self, src: SourceView) -> Seq<FindingView> {
        seq![]
    }

    fn name(&self) -> (r: &str) {
        "Layout/ClosingHeredocIndentation"
    }

    fn category(&self) -> (r: Category) {
        Category::Layout
    }

    fn severity(&self) -> (r: Severity) {
        Severity::Convention
    }

    open spec fn spec_description(&self) -> Seq<char> {
        "Checks indentation of heredoc closing delimiter"@
    }

    fn description(&self) -> (r: &str) {
        "Checks indentation of heredoc closing delimiter"
    }

    fn check(&self, source: &SourceFile) -> (r: Vec<Offense>) {
        report(self.name(), self.severity(), Vec::new())
    }
}

/// Checks alignment of begin/end
pub struct BeginEndAlignment;

impl Cop for BeginEndAlignment {
    open spec fn spec_name(&self) -> Seq<char> {
        "Layout/BeginEndAlignment"@
    }

    open spec fn spec_category(&self) -> Category {
        Category::Layout
    }

    open spec fn spec_severity(&self) -> Severity {
        Severity::Convention
    }

    open spec fn spec_check(&self, src: SourceView) -> Seq<FindingView> {
        seq![]
    }

    fn name(&self) -> (r: &str) {
        "Layout/BeginEndAlignment"
    }

    fn category(&self) -> (r: Category) {
        Category::Layout
    }

    fn severity(&self) -> (r: Severity) {
        Severity::Convention
    }

    open spec fn spec_description(&self) -> Seq<char> {
        "Checks alignment of begin/end"@
    }

    fn description(&self) -> (r: &str) {
        "Checks alignment of begin/end"
    }

    fn check(&self, source: &SourceFile) -> (r: Vec<Offense>) {
        report(self.name(), self.severity(), Vec::new())
    }
}

/// Checks block alignment with variable
pub struct BlockAlignment;

impl Cop for BlockAlignment {
    open spec fn spec_name(&self) -> Seq<char> {
        "Layout/BlockAlignment"@
    }

    open spec fn spec_category(&self) -> Category {
        Category::Layout
    }

    open spec fn spec_severity(&self) -> Severity {
        Severity::Convention
    }

    open spec fn spec_check(&self, src: SourceView) -> Seq<FindingView> {
        seq![]
    }

    fn name(&self) -> (r: &str) {
        "Layout/BlockAlignment"
    }

    fn category(&self) -> (r: Category) {
        Category::Layout
    }

    fn severity(&self) -> (r: Severity) {
        Severity::Convention
    }

    open spec fn spec_description(&self) -> Seq<char> {
        "Checks block alignment with variable"@
    }

    fn description(&self) -> (r: &str) {
        "Checks block alignment with variable"
    }

    fn check(&self, source: &SourceFile) -> (r: Vec<Offense>) {
        report(self.name(), self.severity(), Vec::new())
    }
}

/// Checks for blank line after multiline condition
pub struct EmptyLineAfterMultilineCondition;

impl Cop for EmptyLineAfterMultilineCondition {
    open spec fn spec_name(&self) -> Seq<char> {
        "Layout/EmptyLineAfterMultilineCondition"@
    }

    open spec fn spec_category(&self) -> Category {
        Category::Layout
    }

    open spec fn spec_severity(&self) -> Severity {
        Severity::Convention
    }

    open spec fn spec_check(&self, src: SourceView) -> Seq<FindingView> {
        seq![]
    }

    fn name(&self) -> (r: &str) {
        "Layout/EmptyLineAfterMultilineCondition"
    }

    fn category(&self) -> (r: Category) {
        Category::Layout
    }

    fn severity(&self) -> (r: Severity) {
        Severity::Convention
    }

    open spec fn spec_description(&self) -> Seq<char> {
        "Checks for blank line after multiline condition"@
    }

    fn description(&self) -> (r: &str) {
        "Checks for blank line after multiline condition"
    }

    fn check(&self, source: &SourceFile) -> (r: Vec<Offense>) {
        report(self.name(), self.severity(), Vec::new())
    }
}

/// Checks for blank lines after include/extend
pub struct EmptyLinesAfterModuleInclusion;

impl Cop for EmptyLinesAfterModuleInclusion {
    open spec fn spec_name(&self) -> Seq<char> {
        "Layout/EmptyLinesAfterModuleInclusion"@
    }

    open spec fn spec_category(&self) -> Category {
        Category::Layout
    }

    open spec fn spec_severity(&self) -> Severity {
        Severity::Convention
    }

    open spec fn spec_check(&self, src: SourceView) -> Seq<FindingView> {
        seq![]
    }

    fn name(&self) -> (r: &str) {
        "Layout/EmptyLinesAfterModuleInclusion"
    }

    fn category(&self) -> (r: Category) {
        Category::Layout
    }

    fn severity(&self) -> (r: Severity) {
        Severity::Convention
    }

    open spec fn spec_description(&self) -> Seq<char> {
        "Checks for blank lines after include/extend"@
    }

    fn description(&self) -> (r: &str) {
        "Checks for blank lines after include/extend"
    }

    fn check(&self, source: &SourceFile) -> (r: Vec<Offense>) {
        report(self.name(), self.severity(), Vec::new())
    }
}

/// Checks for blank lines around attr_accessor
pub struct EmptyLinesAroundAttributeAccessor;

impl Cop for EmptyLinesAroundAttributeAccessor {
    open spec fn spec_name(&self) -> Seq<char> {
        "Layout/EmptyLinesAroundAttributeAccessor"@
    }

    open spec fn spec_category(&self) -> Category {
        Category::Layout
    }

    open spec fn spec_severity(&self) -> Severity {
        Severity::Convention
    }

    open spec fn spec_check(&self, src: SourceView) -> Seq<FindingView> {
        seq![]
    }

    fn name(&self) -> (r: &str) {
        "Layout/EmptyLinesAroundAttributeAccessor"
    }

    fn category(&self) -> (r: Category) {
        Category::Layout
    }

    fn severity(&self) -> (r: Severity) {
        Severity::Convention
    }

    open spec fn spec_description(&self) -> Seq<char> {
        "Checks for blank lines around attr_accessor"@
    }

    fn description(&self) -> (r: &str) {
        "Checks for blank lines around attr_accessor"
    }

    fn check(&self, source: &SourceFile) -> (r: Vec<Offense>) {
        report(self.name(), self.severity(), Vec::new())
    }
}

/// Checks for blank lines in begin body
pub struct EmptyLinesAroundBeginBody;

impl Cop for EmptyLinesAroundBeginBody {
    open spec fn spec_name(&self) -> Seq<char> {
        "Layout/EmptyLinesAroundBeginBody"@
    }

    open spec fn spec_category(&self) -> Category {
        Category::Layout
    }

    open spec fn spec_severity(&self) -> Severity {
        Severity::Convention
    }

    open spec fn spec_check(&self, src: SourceView) -> Seq<FindingView> {
        seq![]
    }

    fn name(&self) -> (r: &str) {
        "Layout/EmptyLinesAroundBeginBody"
    }

    fn category(&self) -> (r: Category) {
        Category::Layout
    }

    fn severity(&self) -> (r: Severity) {
        Severity::Convention
    }

    open spec fn spec_description(&self) -> Seq<char> {
        "Checks for blank lines in begin body"@
    }

    fn description(&self) -> (r: &str) {
        "Checks for blank lines in begin body"
    }

    fn check(&self, source: &SourceFile) -> (r: Vec<Offense>) {
        report(self.name(), self.severity(), Vec::new())
    }
}

/// Checks for blank lines around rescue/ensure
pub struct EmptyLinesAroundExceptionHandlingKeywords;

impl Cop for EmptyLinesAroundExceptionHandlingKeywords {
    open spec fn spec_name(&self) -> Seq<char> {
        "Layout/EmptyLinesAroundExceptionHandlingKeywords"@
    }

    open spec fn spec_category(&self) -> Category {
        Category::Layout
    }

    open spec fn spec_severity(&self) -> Severity {
        Severity::Convention
    }

    open spec fn spec_check(&self, src: SourceView) -> Seq<FindingView> {
        seq![]
    }

    fn name(&self) -> (r: &str) {
        "Layout/EmptyLinesAroundExceptionHandlingKeywords"
    }

    fn category(&self) -> (r: Category) {
        Category::Layout
    }

    fn severity(&self) -> (r: Severity) {
        Severity::Convention
    }

    open spec fn spec_description(&self) -> Seq<char> {
        "Checks for blank lines around rescue/ensure"@
    }

    fn description(&self) -> (r: &str) {
        "Checks for blank lines around rescue/ensure"
    }

    fn check(&self, source: &SourceFile) -> (r: Vec<Offense>) {
        report(self.name(), self.severity(), Vec::new())
    }
}

/// Checks for blank lines in argument lists
pub struct EmptyLinesAroundArguments;

impl Cop for EmptyLinesAroundArguments {
    open spec fn spec_name(&self) -> Seq<char> {
        "Layout/EmptyLinesAroundArguments"@
    }

    open spec fn spec_category(&self) -> Category {
        Category::Layout
    }

    open spec fn spec_severity(&self) -> Severity {
        Severity::Convention
    }

    open spec fn spec_check(&self, src: SourceView) -> Seq<FindingView> {
        seq![]
    }

    fn name(&self) -> (r: &str) {
        "Layout/EmptyLinesAroundArguments"
    }

    fn category(&self) -> (r: Category) {
        Category::Layout
    }

    fn severity(&self) -> (r: Severity) {
        Severity::Convention
    }

    open spec fn spec_description(&self) -> Seq<char> {
        "Checks for blank lines in argument lists"@
    }

    fn description(&self) -> (r: &str) {
        "Checks for blank lines in argument lists"
    }

    fn check(&self, source: &SourceFile) -> (r: Vec<Offense>) {
        report(self.name(), self.severity(), Vec::new())
    }
}

/// Checks for space around . and ::
pub struct SpaceAroundMethodCallOperator;

impl Cop for SpaceAroundMethodCallOperator {
    open spec fn spec_name(&self) -> Seq<char> {
        "Layout/SpaceAroundMethodCallOperator"@
    }

    open spec fn spec_category(&self) -> Category {
        Category::Layout
    }

    open spec fn spec_severity(&self) -> Severity {
        Severity::Convention
    }

    open spec fn spec_check(&self, src: SourceView) -> Seq<FindingView> {
        seq![]
    }

    fn name(&self) -> (r: &str) {
        "Layout/SpaceAroundMethodCallOperator"
    }

    fn category(&self) -> (r: Category) {
        Category::Layout
    }

    fn severity(&self) -> (r: Severity) {
        Severity::Convention
    }

    open spec fn spec_description(&self) -> Seq<char> {
        "Checks for space around . and ::"@
    }

    fn description(&self) -> (r: &str) {
        "Checks for space around . and ::"
    }

    fn check(&self, source: &SourceFile) -> (r: Vec<Offense>) {
        report(self.name(), self.severity(), Vec::new())
    }
}

/// Checks for spaces in %w[] / %i[]
pub struct SpaceInsideArrayPercentLiteral;

impl Cop for SpaceInsideArrayPercentLiteral {
    open spec fn spec_name(&self) -> Seq<char> {
        "Layout/SpaceInsideArrayPercentLiteral"@
    }

    open spec fn spec_category(&self) -> Category {
        Category::Layout
    }

    open spec fn spec_severity(&self) -> Severity {
        Severity::Convention
    }

    open spec fn spec_check(&self, src: SourceView) -> Seq<FindingView> {
        seq![]
    }

    fn name(&self) -> (r: &str) {
        "Layout/SpaceInsideArrayPercentLiteral"
    }

    fn category(&self) -> (r: Category) {
        Category::Layout
    }

    fn severity(&self) -> (r: Severity) {
        Severity::Convention
    }

    open spec fn spec_description(&self) -> Seq<char> {
        "Checks for spaces in %w[] / %i[]"@
    }

    fn description(&self) -> (r: &str) {
        "Checks for spaces in %w[] / %i[]"
    }

    fn check(&self, source: &SourceFile) -> (r: Vec<Offense>) {
        report(self.name(), self.severity(), Vec::new())
    }
}

/// Checks for spaces in %() literals
pub struct SpaceInsidePercentLiteralDelimiters;

impl Cop for SpaceInsidePercentLiteralDelimiters {
    open spec fn spec_name(&self) -> Seq<char> {
        "Layout/SpaceInsidePercentLiteralDelimiters"@
    }

    open spec fn spec_category(&self) -> Category {
        Category::Layout
    }

    open spec fn spec_severity(&self) -> Severity {
        Severity::Convention
    }

    open spec fn spec_check(&self, src: SourceView) -> Seq<FindingView> {
        seq![]
    }

    fn name(&self) -> (r: &str) {
        "Layout/SpaceInsidePercentLiteralDelimiters"
    }

    fn category(&self) -> (r: Category) {
        Category::Layout
    }

    fn severity(&self) -> (r: Severity) {
        Severity::Convention
    }

    open spec fn spec_description(&self) -> Seq<char> {
        "Checks for spaces in %() literals"@
    }

    fn description(&self) -> (r: &str) {
        "Checks for spaces in %() literals"
    }

    fn check(&self, source: &SourceFile) -> (r: Vec<Offense>) {
        report(self.name(), self.severity(), Vec::new())
    }
}

/// Checks closing paren after heredoc argument
pub struct HeredocArgumentClosingParenthesis;

impl Cop for HeredocArgumentClosingParenthesis {
    open spec fn spec_name(&self) -> Seq<char> {
        "Layout/HeredocArgumentClosingParenthesis"@
    }

    open spec fn spec_category(&self) -> Category {
        Category::Layout
    }

    open spec fn spec_severity(&self) -> Severity {
        Severity::Convention
    }

    open spec fn spec_check(&self, src: SourceView) -> Seq<FindingView> {
        seq![]
    }

    fn name(&self) -> (r: &str) {
        "Layout/HeredocArgumentClosingParenthesis"
    }

    fn category(&self) -> (r: Category) {
        Category::Layout
    }

    fn severity(&self) -> (r: Severity) {
        Severity::Convention
    }

    open spec fn spec_description(&self) -> Seq<char> {
        "Checks closing paren after heredoc argument"@
    }

    fn description(&self) -> (r: &str) {
        "Checks closing paren after heredoc argument"
    }

    fn check(&self, source: &SourceFile) -> (r: Vec<Offense>) {
        report(self.name(), self.severity(), Vec::new())
    }
}

/// Checks indentation of first parameter
pub struct FirstParameterIndentation;

impl Cop for FirstParameterIndentation {
    open spec fn spec_name(&self) -> Seq<char> {
        "Layout/FirstParameterIndentation"@
    }

    open spec fn spec_category(&self) -> Category {
        Category::Layout
    }

    open spec fn spec_severity(&self) -> Severity {
        Severity::Convention
    }

    open spec fn spec_check(&self, src: SourceView) -> Seq<FindingView> {
        seq![]
    }

    fn name(&self) -> (r: &str) {
        "Layout/FirstParameterIndentation"
    }

    fn category(&self) -> (r: Category) {
        Category::Layout
    }

    fn severity(&self) -> (r: Severity) {
        Severity::Convention
    }

    open spec fn spec_description(&self) -> Seq<char> {
        "Checks indentation of first parameter"@
    }

    fn description(&self) -> (r: &str) {
        "Checks indentation of first parameter"
    }

    fn check(&self, source: &SourceFile) -> (r: Vec<Offense>) {
        report(self.name(), self.severity(), Vec::new())
    }
}

/// Internal error cop
pub struct ErrorA;

impl Cop for ErrorA {
    open spec fn spec_name(&self) -> Seq<char> {
        "Layout/ErrorA"@
    }

    open spec fn spec_category(&self) -> Category {
        Category::Layout
    }

    open spec fn spec_severity(&self) -> Severity {
        Severity::Convention
    }

    open spec fn spec_check(&self, src: SourceView) -> Seq<FindingView> {
        seq![]
    }

    fn name(&self) -> (r: &str) {
        "Layout/ErrorA"
    }

    fn category(&self) -> (r: Category) {
        Category::Layout
    }

    fn severity(&self) -> (r: Severity) {
        Severity::Convention
    }

    open spec fn spec_description(&self) -> Seq<char> {
        "Internal error cop"@
    }

    fn description(&self) -> (r: &str) {
        "Internal error cop"
    }

    fn check(&self, source: &SourceFile) -> (r: Vec<Offense>) {
        report(self.name(), self.severity(), Vec::new())
    }
}

} // verus!
