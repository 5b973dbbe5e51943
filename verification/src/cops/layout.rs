//! Layout cops: whitespace, indentation and formatting.

use vstd::prelude::*;

use crate::cop::{Category, Cop, Severity};
use crate::offense::{Finding, FindingView, Message, Offense, finding, finding_views, report};
use crate::pattern::{captures_all, group, groups_view, regex_captures, whole, whole_exec};
use crate::rule::{LineRule, MatchRule, all_lines, all_matches, gather, lemma_gather_contains, one_if, push_if, run_lines, run_matches};
use crate::source::{SourceFile, SourceView, fits};
use crate::text::{
    bytes_of, char_count, count_byte, decimal, ends_with, find_byte, has_byte, is_blank, lead_count, lead_ws,
    starts_with, trail_count, trail_ws, trim, trim_end, ws_len_at, ws_len_before,
    lemma_blank_trim, lemma_trail_ws_bounds, lemma_trail_ws_whole,
};
use crate::text::{
    char_count_exec, ends_with_str, eq_str, find_byte_exec, has_byte_exec, is_blank_exec, lead_count_exec, lead_ws_exec,
    starts_with_str, trail_count_exec, trail_ws_exec, trim_end_exec, trim_exec, ws_len_at_exec,
    ws_len_before_exec,
};

verus! {

// ============================================================================
// TrailingWhitespace
// ============================================================================

/// Detects trailing whitespace at end of lines.
pub struct TrailingWhitespace;

impl LineRule for TrailingWhitespace {
    /// A line that is not blank and ends in whitespace, reported over the
    /// whole run of trailing whitespace characters.
    open spec fn spec_line(&self, src: SourceView, i: int) -> Seq<FindingView> {
        let l = src.lines[i];
        let k = trail_ws(l) as int;
        one_if(
            !is_blank(l) && k > 0,
            finding(i + 1, l.len() - k + 1, k, bytes_of("Trailing whitespace detected.")),
        )
    }

    fn line_findings(&self, src: &SourceFile, i: usize) -> (r: Vec<Finding>) {
        let l = src.line_at(i);
        let mut out: Vec<Finding> = Vec::new();
        let k = trail_ws_exec(l);
        if !is_blank_exec(l) && k > 0 {
            push_if(&mut out, true, Finding::text(i + 1, l.len() - k + 1, k, "Trailing whitespace detected."));
        }
        out
    }
}

/// Every line that is not blank and ends in a whitespace character is
/// reported, whatever its indentation: on its line, with its message, over a
/// run that ends the line, takes in at least that last character, and starts
/// where no whitespace character ends (the whole trailing run).
pub proof fn law_trailing_whitespace_reported(src: SourceView, i: int)
    requires
        0 <= i < src.lines.len(),
        !is_blank(src.lines[i]),
        ws_len_before(src.lines[i], src.lines[i].len() as int) > 0,
    ensures
        exists|q: int|
            0 <= q < TrailingWhitespace.spec_check(src).len() && {
                let f = #[trigger] TrailingWhitespace.spec_check(src)[q];
                &&& f.line == i + 1
                &&& f.message == bytes_of("Trailing whitespace detected.")
                &&& f.column + f.length == src.lines[i].len() + 1
                &&& f.length >= ws_len_before(src.lines[i], src.lines[i].len() as int)
                &&& f.column >= 1
                &&& ws_len_before(src.lines[i], f.column - 1) == 0
            },
{
    let l = src.lines[i];
    let n = src.lines.len() as int;
    lemma_trail_ws_whole(l);
    lemma_trail_ws_bounds(l.take(l.len() - ws_len_before(l, l.len() as int)));
    let f = |k: int| TrailingWhitespace.spec_line(src, k);
    assert(f(i).len() == 1);
    lemma_gather_contains(n, f, i, 0);
    assert(TrailingWhitespace.spec_check(src) == gather(n, f));
    let q = choose|q: int| 0 <= q < gather(n, f).len() && gather(n, f)[q] == f(i)[0];
    assert(TrailingWhitespace.spec_check(src)[q] == f(i)[0]);
}

impl Cop for TrailingWhitespace {
    open spec fn spec_name(&self) -> Seq<char> {
        "Layout/TrailingWhitespace"@
    }

    open spec fn spec_category(&self) -> Category {
        Category::Layout
    }

    open spec fn spec_severity(&self) -> Severity {
        Severity::Convention
    }

    open spec fn spec_check(&self, src: SourceView) -> Seq<FindingView> {
        all_lines(self, src)
    }

    fn name(&self) -> (r: &str) {
        "Layout/TrailingWhitespace"
    }

    fn category(&self) -> (r: Category) {
        Category::Layout
    }

    fn severity(&self) -> (r: Severity) {
        Severity::Convention
    }

    open spec fn spec_description(&self) -> Seq<char> {
        "Checks for trailing whitespace at the end of lines"@
    }

    fn description(&self) -> (r: &str) {
        "Checks for trailing whitespace at the end of lines"
    }

    fn check(&self, source: &SourceFile) -> (r: Vec<Offense>) {
        report(self.name(), self.severity(), run_lines(self, source))
    }
}

// ============================================================================
// TrailingEmptyLines
// ============================================================================

/// Detects trailing blank lines at end of file.
pub struct TrailingEmptyLines;

/// The 1-based number of the last non-empty line among the first `n`, or 0.
pub open spec fn last_nonempty(lines: Seq<Seq<u8>>, n: int) -> int
    decreases n,
{
    if n <= 0 {
        0
    } else if lines[n - 1].len() > 0 {
        n
    } else {
        last_nonempty(lines, n - 1)
    }
}

pub open spec fn trailing_empty_lines(src: SourceView) -> Seq<FindingView> {
    let c = src.content;
    let n = src.lines.len() as int;
    if c.len() == 0 {
        seq![]
    } else if c.last() != 10u8 {
        one_if(n >= 1, finding(n, (src.lines[n - 1].len() + 1) as int, 0, bytes_of("File should end with a newline.")))
    } else {
        let nl = trail_count(c, 10u8) as int;
        let last = last_nonempty(src.lines, n);
        one_if(
            nl > 1 && last < n,
            finding(last + 1, 1, 0, decimal((nl - 1) as nat) + bytes_of(" trailing blank lines detected.")),
        )
    }
}

fn last_nonempty_exec(src: &SourceFile) -> (r: usize)
    ensures
        r as int == last_nonempty(src@.lines, src@.lines.len() as int),
        r <= src@.lines.len(),
{
    let n = src.line_count();
    let mut k = n;
    while k > 0 && src.line_at(k - 1).len() == 0
        invariant
            k <= n,
            n == src@.lines.len(),
            last_nonempty(src@.lines, n as int) == last_nonempty(src@.lines, k as int),
        decreases k,
    {
        k = k - 1;
    }
    k
}

impl Cop for TrailingEmptyLines {
    open spec fn spec_name(&self) -> Seq<char> {
        "Layout/TrailingEmptyLines"@
    }

    open spec fn spec_category(&self) -> Category {
        Category::Layout
    }

    open spec fn spec_severity(&self) -> Severity {
        Severity::Convention
    }

    open spec fn spec_check(&self, src: SourceView) -> Seq<FindingView> {
        trailing_empty_lines(src)
    }

    fn name(&self) -> (r: &str) {
        "Layout/TrailingEmptyLines"
    }

    fn category(&self) -> (r: Category) {
        Category::Layout
    }

    fn severity(&self) -> (r: Severity) {
        Severity::Convention
    }

    open spec fn spec_description(&self) -> Seq<char> {
        "Checks for trailing blank lines at the end of the file"@
    }

    fn description(&self) -> (r: &str) {
        "Checks for trailing blank lines at the end of the file"
    }

    fn check(&self, source: &SourceFile) -> (r: Vec<Offense>) {
        let mut out: Vec<Finding> = Vec::new();
        let c = source.content();
        let n = source.line_count();
        if c.len() == 0 {
        } else if c[c.len() - 1] != 10u8 {
            if n >= 1 {
                let l = source.line_at(n - 1);
                push_if(&mut out, true, Finding::text(n, l.len() + 1, 0, "File should end with a newline."));
            }
        } else {
            let nl = trail_count_exec(c, 10u8);
            let last = last_nonempty_exec(source);
            if nl > 1 && last < n {
                let mut m = Message::from_str("");
                m.push_decimal((nl - 1) as u128);
                m.push_str(" trailing blank lines detected.");
                proof {
                    assert(bytes_of("") =~= Seq::<u8>::empty()) by {
                        reveal_strlit("");
                    }
                }
                push_if(&mut out, true, Finding::new(last + 1, 1, 0, m));
            }
        }
        report(self.name(), self.severity(), out)
    }
}

// ============================================================================
// LeadingEmptyLines
// ============================================================================

/// Detects empty lines at the start of a file.
pub struct LeadingEmptyLines;

/// The 0-based index of the first non-empty line at or after `k`, or the line count.
pub open spec fn first_nonempty_from(lines: Seq<Seq<u8>>, k: int) -> int
    decreases lines.len() - k,
{
    if k < 0 || k >= lines.len() {
        lines.len() as int
    } else if lines[k].len() > 0 {
        k
    } else {
        first_nonempty_from(lines, k + 1)
    }
}

pub open spec fn leading_empty_lines(src: SourceView) -> Seq<FindingView> {
    let k = first_nonempty_from(src.lines, 0);
    if src.content.len() == 0 {
        seq![]
    } else {
        one_if(k > 0, finding(1, 1, 0, decimal(k as nat) + bytes_of(" leading empty lines detected.")))
    }
}

impl Cop for LeadingEmptyLines {
    open spec fn spec_name(&self) -> Seq<char> {
        "Layout/LeadingEmptyLines"@
    }

    open spec fn spec_category(&self) -> Category {
        Category::Layout
    }

    open spec fn spec_severity(&self) -> Severity {
        Severity::Convention
    }

    open spec fn spec_check(&self, src: SourceView) -> Seq<FindingView> {
        leading_empty_lines(src)
    }

    fn name(&self) -> (r: &str) {
        "Layout/LeadingEmptyLines"
    }

    fn category(&self) -> (r: Category) {
        Category::Layout
    }

    fn severity(&self) -> (r: Severity) {
        Severity::Convention
    }

    open spec fn spec_description(&self) -> Seq<char> {
        "Checks for empty lines at the start of a file"@
    }

    fn description(&self) -> (r: &str) {
        "Checks for empty lines at the start of a file"
    }

    fn check(&self, source: &SourceFile) -> (r: Vec<Offense>) {
        let mut out: Vec<Finding> = Vec::new();
        if source.is_empty() {
            return report(self.name(), self.severity(), out);
        }
        let n = source.line_count();
        let mut k: usize = 0;
        while k < n && source.line_at(k).len() == 0
            invariant
                k <= n,
                n == source@.lines.len(),
                first_nonempty_from(source@.lines, 0) == first_nonempty_from(source@.lines, k as int),
            decreases n - k,
        {
            k = k + 1;
        }
        if k > 0 {
            let mut m = Message::from_str("");
            m.push_decimal(k as u128);
            m.push_str(" leading empty lines detected.");
            proof {
                assert(bytes_of("") =~= Seq::<u8>::empty()) by {
                    reveal_strlit("");
                }
            }
            push_if(&mut out, true, Finding::new(1, 1, 0, m));
        }
        report(self.name(), self.severity(), out)
    }
}

// ============================================================================
// EndOfLine
// ============================================================================

/// Detects CRLF line endings (should be LF only).
pub struct EndOfLine;

/// A CRLF at byte `p` of the content, reported on its line.
pub open spec fn crlf_at(c: Seq<u8>, p: int) -> Seq<FindingView> {
    one_if(
        p + 1 < c.len() && c[p] == 13u8 && c[p + 1] == 10u8,
        finding((1 + count_byte(c.take(p), 10u8)) as int, 1, 0, bytes_of("Use LF (\\n) instead of CRLF (\\r\\n).")),
    )
}

impl Cop for EndOfLine {
    open spec fn spec_name(&self) -> Seq<char> {
        "Layout/EndOfLine"@
    }

    open spec fn spec_category(&self) -> Category {
        Category::Layout
    }

    open spec fn spec_severity(&self) -> Severity {
        Severity::Convention
    }

    open spec fn spec_check(&self, src: SourceView) -> Seq<FindingView> {
        gather(src.content.len() as int, |p: int| crlf_at(src.content, p))
    }

    fn name(&self) -> (r: &str) {
        "Layout/EndOfLine"
    }

    fn category(&self) -> (r: Category) {
        Category::Layout
    }

    fn severity(&self) -> (r: Severity) {
        Severity::Convention
    }

    open spec fn spec_description(&self) -> Seq<char> {
        "Checks for CRLF line endings (should be LF only)"@
    }

    fn description(&self) -> (r: &str) {
        "Checks for CRLF line endings (should be LF only)"
    }

    fn check(&self, source: &SourceFile) -> (r: Vec<Offense>) {
        let c = source.content();
        let mut out: Vec<Finding> = Vec::new();
        let mut nl: usize = 0;
        let mut p: usize = 0;
        while p < c.len()
            invariant
                p <= c@.len(),
                c@.len() <= isize::MAX,
                c@ == source@.content,
                nl == count_byte(c@.take(p as int), 10u8),
                nl <= p,
                finding_views(out@) == gather(p as int, |q: int| crlf_at(source@.content, q)),
            decreases c.len() - p,
        {
            let hit = p + 1 < c.len() && c[p] == 13u8 && c[p + 1] == 10u8;
            push_if(&mut out, hit, Finding::text(1 + nl, 1, 0, "Use LF (\\n) instead of CRLF (\\r\\n)."));
            assert(c@.take(p + 1).drop_last() =~= c@.take(p as int));
            if c[p] == 10u8 {
                nl = nl + 1;
            }
            p = p + 1;
        }
        report(self.name(), self.severity(), out)
    }
}

// ============================================================================
// IndentationStyle
// ============================================================================

/// Detects tabs used for indentation (should be spaces).
pub struct IndentationStyle;

impl LineRule for IndentationStyle {
    /// The first tab of a line whose leading whitespace holds a tab.
    open spec fn spec_line(&self, src: SourceView, i: int) -> Seq<FindingView> {
        let l = src.lines[i];
        match find_byte(l, 9u8) {
            Some(pos) => one_if(
                has_byte(l.take(lead_ws(l) as int), 9u8),
                finding(i + 1, pos + 1, 1, bytes_of("Use spaces for indentation, not tabs.")),
            ),
            None => seq![],
        }
    }

    fn line_findings(&self, src: &SourceFile, i: usize) -> (r: Vec<Finding>) {
        let l = src.line_at(i);
        let mut out: Vec<Finding> = Vec::new();
        match find_byte_exec(l, 9u8) {
            Some(pos) => {
                proof {
                    crate::text::lemma_find_byte_from_spec(l@, 9u8, 0);
                    crate::text::lemma_lead_ws_bounds(l@);
                }
                let lw = lead_ws_exec(l);
                let c = has_byte_exec(&l[0..lw], 9u8);
                push_if(&mut out, c, Finding::text(i + 1, pos + 1, 1, "Use spaces for indentation, not tabs."));
            },
            None => {},
        }
        out
    }
}

impl Cop for IndentationStyle {
    open spec fn spec_name(&self) -> Seq<char> {
        "Layout/IndentationStyle"@
    }

    open spec fn spec_category(&self) -> Category {
        Category::Layout
    }

    open spec fn spec_severity(&self) -> Severity {
        Severity::Convention
    }

    open spec fn spec_check(&self, src: SourceView) -> Seq<FindingView> {
        all_lines(self, src)
    }

    fn name(&self) -> (r: &str) {
        "Layout/IndentationStyle"
    }

    fn category(&self) -> (r: Category) {
        Category::Layout
    }

    fn severity(&self) -> (r: Severity) {
        Severity::Convention
    }

    open spec fn spec_description(&self) -> Seq<char> {
        "Checks for tabs used for indentation (should be spaces)"@
    }

    fn description(&self) -> (r: &str) {
        "Checks for tabs used for indentation (should be spaces)"
    }

    fn check(&self, source: &SourceFile) -> (r: Vec<Offense>) {
        report(self.name(), self.severity(), run_lines(self, source))
    }
}

// ============================================================================
// IndentationWidth
// ============================================================================

/// Detects wrong indentation width (default 2 spaces).
pub struct IndentationWidth;

/// A trimmed line that opens a block: it starts with one of the block keywords.
pub open spec fn opens_block(t: Seq<u8>) -> bool {
    starts_with(t, bytes_of("def ")) || starts_with(t, bytes_of("class ")) || starts_with(t, bytes_of("module "))
        || starts_with(t, bytes_of("if ")) || starts_with(t, bytes_of("unless ")) || starts_with(t, bytes_of("while "))
        || starts_with(t, bytes_of("until ")) || starts_with(t, bytes_of("for ")) || starts_with(t, bytes_of("case "))
        || starts_with(t, bytes_of("begin ")) || starts_with(t, bytes_of("do "))
}

/// A trimmed line that is an `end`.
pub open spec fn is_end_line(t: Seq<u8>) -> bool {
    t == bytes_of("end") || starts_with(t, bytes_of("end "))
}

/// The change of indentation level after a line: -1 after `end`, +1 after a
/// line that opens a block or ends in ` do`, 0 otherwise.
pub open spec fn indent_change(line: Seq<u8>) -> int {
    let t = trim(line);
    if is_end_line(t) {
        -1
    } else if opens_block(t) {
        1
    } else if ends_with(t, bytes_of(" do")) {
        1
    } else {
        0
    }
}

/// A trimmed line that continues an open block on a new branch: `when`,
/// `else`, `elsif`, `rescue` or `ensure`. It sits one level out, and the lines
/// after it one level in again.
pub open spec fn reopens(t: Seq<u8>) -> bool {
    starts_with(t, bytes_of("when ")) || starts_with(t, bytes_of("else")) || starts_with(t, bytes_of("elsif "))
        || starts_with(t, bytes_of("rescue")) || starts_with(t, bytes_of("ensure"))
}

/// A trimmed line that is indented one level less than the lines before it:
/// one that closes a block (`end...`) or one that `reopens` it.
pub open spec fn dedents(t: Seq<u8>) -> bool {
    starts_with(t, bytes_of("end")) || reopens(t)
}

pub open spec fn indentation_message(expected: int, actual: int) -> Seq<u8> {
    bytes_of("Incorrect indentation: expected ") + decimal(expected as nat) + bytes_of(" spaces, found ")
        + decimal(actual as nat) + bytes_of(".")
}

/// The expected indentation after the first `n` lines, and the findings on them.
///
/// The expected indentation is two spaces per open block. A closing or
/// reopening line is expected one level out; a line that opens a block
/// (`indent_change` 1), or reopens the block it dedented from, opens one more
/// level for the lines after it. A closing line closes its block once, on
/// itself.
pub open spec fn indentation_fold(lines: Seq<Seq<u8>>, n: int) -> (int, Seq<FindingView>)
    decreases n,
{
    if n <= 0 {
        (0, seq![])
    } else {
        let prev = indentation_fold(lines, n - 1);
        let line = lines[n - 1];
        if is_blank(line) {
            prev
        } else {
            let e = prev.0;
            let out = dedents(trim(line)) && e > 0;
            let e1 = if out {
                e - 2
            } else {
                e
            };
            let actual = lead_count(line, 32u8) as int;
            let fs = prev.1 + one_if(
                actual != e1,
                finding(n, 1, if actual > 1 { actual } else { 1 }, indentation_message(e1, actual)),
            );
            let ch = indent_change(line);
            let e2 = if ch > 0 || (out && reopens(trim(line))) {
                e1 + 2
            } else {
                e1
            };
            (e2, fs)
        }
    }
}

/// The indentation expected for line `n` (1-based): two spaces per block
/// open after the lines before it, one level less on a line that closes or
/// reopens a block.
pub open spec fn expected_indent(lines: Seq<Seq<u8>>, n: int) -> int {
    let e = indentation_fold(lines, n - 1).0;
    if dedents(trim(lines[n - 1])) && e > 0 {
        e - 2
    } else {
        e
    }
}

/// Line `n` is not blank and its leading spaces differ from the indentation
/// expected for it.
pub open spec fn misindented(lines: Seq<Seq<u8>>, n: int) -> bool {
    &&& 1 <= n <= lines.len()
    &&& !is_blank(lines[n - 1])
    &&& lead_count(lines[n - 1], 32u8) != expected_indent(lines, n)
}

proof fn lemma_indentation_reports(lines: Seq<Seq<u8>>, n: int)
    requires
        0 <= n <= lines.len(),
    ensures
        forall|j: int|
            0 <= j < indentation_fold(lines, n).1.len() ==> {
                let f = #[trigger] indentation_fold(lines, n).1[j];
                misindented(lines, f.line) && f.line <= n
            },
        forall|m: int| 1 <= m <= n && #[trigger] misindented(lines, m) ==> exists|j: int|
            0 <= j < indentation_fold(lines, n).1.len() && (#[trigger] indentation_fold(lines, n).1[j]).line == m,
    decreases n,
{
    if n > 0 {
        lemma_indentation_reports(lines, n - 1);
        let prev = indentation_fold(lines, n - 1);
        let cur = indentation_fold(lines, n);
        assert(prev.1.is_prefix_of(cur.1));
        assert forall|j: int| 0 <= j < cur.1.len() implies {
            let f = #[trigger] cur.1[j];
            misindented(lines, f.line) && f.line <= n
        } by {
            if j < prev.1.len() {
                assert(cur.1[j] == prev.1[j]);
            }
        }
        assert forall|m: int| 1 <= m <= n && #[trigger] misindented(lines, m) implies exists|j: int|
            0 <= j < cur.1.len() && (#[trigger] cur.1[j]).line == m by {
            if m < n {
                let j = choose|j: int| 0 <= j < prev.1.len() && (#[trigger] prev.1[j]).line == m;
                assert(cur.1[j] == prev.1[j]);
            } else {
                assert(cur.1[cur.1.len() - 1].line == n);
            }
        }
    }
}

/// IndentationWidth reports exactly the misindented lines: a line is reported
/// if and only if it is not blank and its leading spaces differ from the
/// indentation expected for it.
pub proof fn law_misindented_lines_reported(src: SourceView)
    requires
        src.content.len() > 0,
    ensures
        forall|j: int|
            0 <= j < IndentationWidth.spec_check(src).len() ==> misindented(
                src.lines,
                (#[trigger] IndentationWidth.spec_check(src)[j]).line,
            ),
        forall|n: int| #[trigger] misindented(src.lines, n) ==> exists|j: int|
            0 <= j < IndentationWidth.spec_check(src).len() && (#[trigger] IndentationWidth.spec_check(src)[j]).line == n,
{
    let n = src.lines.len() as int;
    lemma_indentation_reports(src.lines, n);
    let fs = IndentationWidth.spec_check(src);
    assert(fs == indentation_fold(src.lines, n).1);
    assert forall|m: int| #[trigger] misindented(src.lines, m) implies exists|j: int|
        0 <= j < fs.len() && (#[trigger] fs[j]).line == m by {
        let j = choose|j: int| 0 <= j < fs.len() && (#[trigger] indentation_fold(src.lines, n).1[j]).line == m;
        assert(fs[j].line == m);
    }
}

proof fn lemma_block_keyword_bytes()
    ensures
        bytes_of("end").len() == 3,
        bytes_of("end")[0] == 101u8,
        bytes_of("end ").len() == 4,
        bytes_of("end ")[0] == 101u8,
        bytes_of("def ").len() >= 1,
        bytes_of("def ")[0] == 100u8,
        bytes_of("class ").len() >= 1,
        bytes_of("class ")[0] == 99u8,
        bytes_of("module ").len() >= 1,
        bytes_of("module ")[0] == 109u8,
        bytes_of("if ").len() >= 1,
        bytes_of("if ")[0] == 105u8,
        bytes_of("unless ").len() >= 1,
        bytes_of("unless ")[0] == 117u8,
        bytes_of("while ").len() >= 1,
        bytes_of("while ")[0] == 119u8,
        bytes_of("until ").len() >= 1,
        bytes_of("until ")[0] == 117u8,
        bytes_of("for ").len() >= 1,
        bytes_of("for ")[0] == 102u8,
        bytes_of("case ").len() >= 1,
        bytes_of("case ")[0] == 99u8,
        bytes_of("begin ").len() >= 1,
        bytes_of("begin ")[0] == 98u8,
        bytes_of("do ").len() >= 1,
        bytes_of("do ")[0] == 100u8,
{
    broadcast use vstd::string::is_ascii_spec_bytes;
    reveal_strlit("end");
    assert(vstd::string::is_ascii("end"));
    reveal_strlit("end ");
    assert(vstd::string::is_ascii("end "));
    reveal_strlit("def ");
    assert(vstd::string::is_ascii("def "));
    reveal_strlit("class ");
    assert(vstd::string::is_ascii("class "));
    reveal_strlit("module ");
    assert(vstd::string::is_ascii("module "));
    reveal_strlit("if ");
    assert(vstd::string::is_ascii("if "));
    reveal_strlit("unless ");
    assert(vstd::string::is_ascii("unless "));
    reveal_strlit("while ");
    assert(vstd::string::is_ascii("while "));
    reveal_strlit("until ");
    assert(vstd::string::is_ascii("until "));
    reveal_strlit("for ");
    assert(vstd::string::is_ascii("for "));
    reveal_strlit("case ");
    assert(vstd::string::is_ascii("case "));
    reveal_strlit("begin ");
    assert(vstd::string::is_ascii("begin "));
    reveal_strlit("do ");
    assert(vstd::string::is_ascii("do "));
}

/// A line that opens a block (it starts with `def`, `class`, `module`, `if`,
/// `unless`, `while`, `until`, `for`, `case`, `begin` or `do`, then a space)
/// raises the expected indentation of the lines after it by two spaces over
/// its own.
pub proof fn law_block_opens_a_level(lines: Seq<Seq<u8>>, n: int)
    requires
        1 <= n <= lines.len(),
        !is_blank(lines[n - 1]),
        ({
            let t = trim(lines[n - 1]);
            starts_with(t, bytes_of("def ")) || starts_with(t, bytes_of("class ")) || starts_with(t, bytes_of("module ")) || starts_with(t, bytes_of("if ")) || starts_with(t, bytes_of("unless ")) || starts_with(t, bytes_of("while ")) || starts_with(t, bytes_of("until ")) || starts_with(t, bytes_of("for ")) || starts_with(t, bytes_of("case ")) || starts_with(t, bytes_of("begin ")) || starts_with(t, bytes_of("do "))
        }),
    ensures
        indentation_fold(lines, n).0 == expected_indent(lines, n) + 2,
{
    lemma_block_keyword_bytes();
    let t = trim(lines[n - 1]);
    assert(t.len() >= 1 && t[0] != 101u8) by {
        assert(t[0] == t.take(1)[0]);
    }
    assert(!is_end_line(t)) by {
        if t == bytes_of("end") {
            assert(t[0] == 101u8);
        }
        if starts_with(t, bytes_of("end ")) {
            assert(t[0] == t.take(4)[0]);
        }
    }
    assert(opens_block(t));
    assert(indent_change(lines[n - 1]) == 1);
}

proof fn lemma_indentation_fold(lines: Seq<Seq<u8>>, n: int)
    requires
        0 <= n,
    ensures
        indentation_fold(lines, n).0 % 2 == 0,
        0 <= indentation_fold(lines, n).0 <= 2 * n,
    decreases n,
{
    if n > 0 {
        lemma_indentation_fold(lines, n - 1);
    }
}

fn opens_block_exec(t: &[u8]) -> (r: bool)
    ensures
        r == opens_block(t@),
{
    starts_with_str(t, "def ") || starts_with_str(t, "class ") || starts_with_str(t, "module ")
        || starts_with_str(t, "if ") || starts_with_str(t, "unless ") || starts_with_str(t, "while ")
        || starts_with_str(t, "until ") || starts_with_str(t, "for ") || starts_with_str(t, "case ")
        || starts_with_str(t, "begin ") || starts_with_str(t, "do ")
}

fn is_end_line_exec(t: &[u8]) -> (r: bool)
    ensures
        r == is_end_line(t@),
{
    eq_str(t, "end") || starts_with_str(t, "end ")
}

impl IndentationWidth {
    /// The expected change of indentation level after a line.
    pub fn expected_indent_change(line: &[u8]) -> (r: i32)
        ensures
            r as int == indent_change(line@),
    {
        let t = trim_exec(line);
        if is_end_line_exec(t) {
            return -1;
        }
        if opens_block_exec(t) {
            return 1;
        }
        if ends_with_str(t, " do") {
            return 1;
        }
        0
    }

    /// The number of leading spaces of a line.
    pub fn get_indentation_level(line: &[u8]) -> (r: usize)
        ensures
            r == lead_count(line@, 32u8),
    {
        lead_count_exec(line, 32u8)
    }
}

impl Cop for IndentationWidth {
    open spec fn spec_name(&self) -> Seq<char> {
        "Layout/IndentationWidth"@
    }

    open spec fn spec_category(&self) -> Category {
        Category::Layout
    }

    open spec fn spec_severity(&self) -> Severity {
        Severity::Convention
    }

    open spec fn spec_check(&self, src: SourceView) -> Seq<FindingView> {
        if src.content.len() == 0 {
            seq![]
        } else {
            indentation_fold(src.lines, src.lines.len() as int).1
        }
    }

    fn name(&self) -> (r: &str) {
        "Layout/IndentationWidth"
    }

    fn category(&self) -> (r: Category) {
        Category::Layout
    }

    fn severity(&self) -> (r: Severity) {
        Severity::Convention
    }

    open spec fn spec_description(&self) -> Seq<char> {
        "Checks for incorrect indentation width (default 2 spaces)"@
    }

    fn description(&self) -> (r: &str) {
        "Checks for incorrect indentation width (default 2 spaces)"
    }

    fn check(&self, source: &SourceFile) -> (r: Vec<Offense>) {
        let mut out: Vec<Finding> = Vec::new();
        if source.is_empty() {
            return report(self.name(), self.severity(), out);
        }
        let n = source.line_count();
        let mut expected: usize = 0;
        let mut i: usize = 0;
        while i < n
            invariant
                i <= n,
                n == source@.lines.len(),
                fits(source@),
                (expected as int, finding_views(out@)) == indentation_fold(source@.lines, i as int),
            decreases n - i,
        {
            proof {
                lemma_indentation_fold(source@.lines, i as int);
            }
            let line = source.line_at(i);
            if !is_blank_exec(line) {
                let t = trim_exec(line);
                let r = starts_with_str(t, "when ") || starts_with_str(t, "else") || starts_with_str(t, "elsif ")
                    || starts_with_str(t, "rescue") || starts_with_str(t, "ensure");
                let dedented = (starts_with_str(t, "end") || r) && expected > 0;
                if dedented {
                    expected = expected - 2;
                }
                let actual = Self::get_indentation_level(line);
                if actual != expected {
                    let mut m = Message::from_str("Incorrect indentation: expected ");
                    m.push_decimal(expected as u128);
                    m.push_str(" spaces, found ");
                    m.push_decimal(actual as u128);
                    m.push_str(".");
                    let len = if actual > 1 { actual } else { 1 };
                    push_if(&mut out, true, Finding::new(i + 1, 1, len, m));
                } else {
                    proof {
                        assert(finding_views(out@) =~= finding_views(out@) + Seq::<FindingView>::empty());
                    }
                }
                let ch = Self::expected_indent_change(line);
                if ch > 0 || (dedented && r) {
                    expected = expected + 2;
                }
            }
            i = i + 1;
        }
        report(self.name(), self.severity(), out)
    }
}

// ============================================================================
// SpaceAfterComma
// ============================================================================

/// Detects missing space after commas.
pub struct SpaceAfterComma;

/// A comma at byte `p` of line `i`, outside strings and comments, followed on
/// the line by something other than a space, tab or newline; reported at the
/// character column just after the comma.
pub open spec fn comma_without_space(src: SourceView, i: int, p: int) -> Seq<FindingView> {
    let l = src.lines[i];
    one_if(
        l[p] == 44u8 && !src.in_string_or_comment(i + 1, p + 1) && p + 1 < l.len() && l[p + 1] != 32u8
            && l[p + 1] != 9u8 && l[p + 1] != 10u8,
        finding(i + 1, (char_count(l.take(p)) + 2) as int, 1, bytes_of("Space missing after comma.")),
    )
}

impl LineRule for SpaceAfterComma {
    open spec fn spec_line(&self, src: SourceView, i: int) -> Seq<FindingView> {
        gather(src.lines[i].len() as int, |p: int| comma_without_space(src, i, p))
    }

    fn line_findings(&self, src: &SourceFile, i: usize) -> (r: Vec<Finding>) {
        let l = src.line_at(i);
        let mut out: Vec<Finding> = Vec::new();
        let mut p: usize = 0;
        while p < l.len()
            invariant
                p <= l@.len(),
                i < src@.lines.len(),
                l@ == src@.lines[i as int],
                fits(src@),
                finding_views(out@) == gather(p as int, |q: int| comma_without_space(src@, i as int, q)),
            decreases l.len() - p,
        {
            let hit = l[p] == 44u8 && !src.in_string_or_comment(i + 1, p + 1) && p + 1 < l.len() && l[p + 1]
                != 32u8 && l[p + 1] != 9u8 && l[p + 1] != 10u8;
            let col = char_count_exec(&l[0..p]) + 2;
            push_if(&mut out, hit, Finding::text(i + 1, col, 1, "Space missing after comma."));
            p = p + 1;
        }
        out
    }
}

impl Cop for SpaceAfterComma {
    open spec fn spec_name(&self) -> Seq<char> {
        "Layout/SpaceAfterComma"@
    }

    open spec fn spec_category(&self) -> Category {
        Category::Layout
    }

    open spec fn spec_severity(&self) -> Severity {
        Severity::Convention
    }

    open spec fn spec_check(&self, src: SourceView) -> Seq<FindingView> {
        all_lines(self, src)
    }

    fn name(&self) -> (r: &str) {
        "Layout/SpaceAfterComma"
    }

    fn category(&self) -> (r: Category) {
        Category::Layout
    }

    fn severity(&self) -> (r: Severity) {
        Severity::Convention
    }

    open spec fn spec_description(&self) -> Seq<char> {
        "Checks for missing space after commas"@
    }

    fn description(&self) -> (r: &str) {
        "Checks for missing space after commas"
    }

    fn check(&self, source: &SourceFile) -> (r: Vec<Offense>) {
        report(self.name(), self.severity(), run_lines(self, source))
    }
}

// ============================================================================
// SpaceAroundOperators
// ============================================================================

/// Detects missing spaces around operators.
pub struct SpaceAroundOperators;

/// A byte after which a `+` or `-` is a sign rather than a binary operator.
pub open spec fn before_unary(c: u8) -> bool {
    c == 61u8 || c == 40u8 || c == 91u8 || c == 123u8 || c == 44u8 || c == 33u8 || c == 60u8 || c == 62u8
        || c == 38u8 || c == 124u8 || c == 43u8 || c == 45u8 || c == 42u8 || c == 47u8
}

/// The operator `op` at byte `pos` is a `+` or `-` sign: it starts the line,
/// or the text before it (less trailing whitespace) is empty or ends in an
/// operator or opening punctuation.
pub open spec fn likely_unary(line: Seq<u8>, pos: int, op: Seq<u8>) -> bool {
    if op != bytes_of("+") && op != bytes_of("-") {
        false
    } else if pos == 0 {
        true
    } else {
        let b = trim_end(line.take(pos));
        b.len() == 0 || before_unary(b.last())
    }
}

pub open spec fn operator_message(before: bool, after: bool, op: Seq<u8>) -> Seq<u8> {
    if !before && !after {
        bytes_of("Space missing around operator `") + op + bytes_of("`.")
    } else if !before {
        bytes_of("Space missing before operator `") + op + bytes_of("`.")
    } else {
        bytes_of("Space missing after operator `") + op + bytes_of("`.")
    }
}

/// An operator match on line `i` that lacks whitespace on one side.
pub open spec fn operator_finding(src: SourceView, i: int, m: Seq<Option<(int, int)>>) -> Seq<FindingView> {
    let l = src.lines[i];
    let s = whole(m).0;
    let n = whole(m).1 - s;
    let op = l.subrange(s, s + n);
    if src.in_string_or_comment(i + 1, s + 1) || likely_unary(l, s, op) {
        seq![]
    } else {
        let before = if s > 0 {
            ws_len_before(l, s) > 0
        } else {
            true
        };
        let after = if s + n < l.len() {
            ws_len_at(l, s + n) > 0
        } else {
            true
        };
        one_if(!before || !after, finding(i + 1, s + 1, n, operator_message(before, after, op)))
    }
}

fn before_unary_exec(c: u8) -> (r: bool)
    ensures
        r == before_unary(c),
{
    c == 61u8 || c == 40u8 || c == 91u8 || c == 123u8 || c == 44u8 || c == 33u8 || c == 60u8 || c == 62u8
        || c == 38u8 || c == 124u8 || c == 43u8 || c == 45u8 || c == 42u8 || c == 47u8
}

impl SpaceAroundOperators {
    /// Whether the operator `op` at byte `pos` of `line` is likely a sign.
    pub fn is_likely_unary(line: &[u8], pos: usize, op: &[u8]) -> (r: bool)
        requires
            op@ == bytes_of("+") || op@ == bytes_of("-") ==> pos <= line@.len(),
        ensures
            r == likely_unary(line@, pos as int, op@),
    {
        if !crate::text::bytes_eq(op, "+".as_bytes()) && !crate::text::bytes_eq(op, "-".as_bytes()) {
            return false;
        }
        if pos == 0 {
            return true;
        }
        let b = trim_end_exec(&line[0..pos]);
        b.len() == 0 || before_unary_exec(b[b.len() - 1])
    }
}

impl MatchRule for SpaceAroundOperators {
    open spec fn spec_match(&self, src: SourceView, i: int, m: Seq<Option<(int, int)>>) -> Seq<FindingView> {
        operator_finding(src, i, m)
    }

    fn match_findings(&self, src: &SourceFile, i: usize, m: &Vec<Option<(usize, usize)>>) -> (r: Vec<Finding>) {
        let l = src.line_at(i);
        let (s, e) = whole_exec(m, l.len());
        let n = e - s;
        let op = &l[s..e];
        let mut out: Vec<Finding> = Vec::new();
        if src.in_string_or_comment(i + 1, s + 1) || Self::is_likely_unary(l, s, op) {
            return out;
        }
        let before = if s > 0 { ws_len_before_exec(l, s) > 0 } else { true };
        let after = if s + n < l.len() { ws_len_at_exec(l, s + n) > 0 } else { true };
        if !before || !after {
            let mut msg = if !before && !after {
                Message::from_str("Space missing around operator `")
            } else if !before {
                Message::from_str("Space missing before operator `")
            } else {
                Message::from_str("Space missing after operator `")
            };
            msg.push_bytes(op);
            msg.push_str("`.");
            push_if(&mut out, true, Finding::new(i + 1, s + 1, n, msg));
        }
        out
    }
}

impl LineRule for SpaceAroundOperators {
    open spec fn spec_line(&self, src: SourceView, i: int) -> Seq<FindingView> {
        all_matches(self, src, i, regex_captures(r"(=>|==|!=|<=|>=|\+=|-=|&&|\|\||[=+\-*/])"@, src.lines[i]))
    }

    fn line_findings(&self, src: &SourceFile, i: usize) -> (r: Vec<Finding>) {
        let ms = captures_all(r"(=>|==|!=|<=|>=|\+=|-=|&&|\|\||[=+\-*/])", src.line_at(i));
        run_matches(self, src, i, &ms)
    }
}

impl Cop for SpaceAroundOperators {
    open spec fn spec_name(&self) -> Seq<char> {
        "Layout/SpaceAroundOperators"@
    }

    open spec fn spec_category(&self) -> Category {
        Category::Layout
    }

    open spec fn spec_severity(&self) -> Severity {
        Severity::Convention
    }

    open spec fn spec_check(&self, src: SourceView) -> Seq<FindingView> {
        all_lines(self, src)
    }

    fn name(&self) -> (r: &str) {
        "Layout/SpaceAroundOperators"
    }

    fn category(&self) -> (r: Category) {
        Category::Layout
    }

    fn severity(&self) -> (r: Severity) {
        Severity::Convention
    }

    open spec fn spec_description(&self) -> Seq<char> {
        "Checks for missing spaces around operators"@
    }

    fn description(&self) -> (r: &str) {
        "Checks for missing spaces around operators"
    }

    fn check(&self, source: &SourceFile) -> (r: Vec<Offense>) {
        report(self.name(), self.severity(), run_lines(self, source))
    }
}

// ============================================================================
// EmptyLineBetweenDefs
// ============================================================================

/// Detects missing empty line between method definitions.
pub struct EmptyLineBetweenDefs;

/// A trimmed line that opens a nested construct inside a method.
pub open spec fn opens_nested(t: Seq<u8>) -> bool {
    starts_with(t, bytes_of("def ")) || starts_with(t, bytes_of("class ")) || starts_with(t, bytes_of("module "))
        || starts_with(t, bytes_of("if ")) || starts_with(t, bytes_of("unless ")) || starts_with(t, bytes_of("while "))
        || starts_with(t, bytes_of("until ")) || starts_with(t, bytes_of("for ")) || starts_with(t, bytes_of("case "))
        || starts_with(t, bytes_of("begin ")) || ends_with(t, bytes_of(" do"))
}

fn opens_nested_exec(t: &[u8]) -> (r: bool)
    ensures
        r == opens_nested(t@),
{
    starts_with_str(t, "def ") || starts_with_str(t, "class ") || starts_with_str(t, "module ")
        || starts_with_str(t, "if ") || starts_with_str(t, "unless ") || starts_with_str(t, "while ")
        || starts_with_str(t, "until ") || starts_with_str(t, "for ") || starts_with_str(t, "case ")
        || starts_with_str(t, "begin ") || ends_with_str(t, " do")
}

/// Some line numbered in `[a, b)` is blank.
pub open spec fn blank_between(lines: Seq<Seq<u8>>, a: int, b: int) -> bool {
    exists|ln: int| a <= ln < b && 1 <= ln <= lines.len() && is_blank(#[trigger] lines[ln - 1])
}

/// After the first `n` lines: the line where the last method ended, the
/// nesting depth inside the current method, whether a method is open, and the
/// findings so far.
pub open spec fn defs_fold(lines: Seq<Seq<u8>>, n: int) -> (Option<int>, int, bool, Seq<FindingView>)
    decreases n,
{
    if n <= 0 {
        (None, 0, false, seq![])
    } else {
        let prev = defs_fold(lines, n - 1);
        let t = trim(lines[n - 1]);
        if starts_with(t, bytes_of("def ")) {
            let f = match prev.0 {
                Some(last) => one_if(
                    !blank_between(lines, last + 1, n),
                    finding(n, 1, 0, bytes_of("Use empty lines between method definitions.")),
                ),
                None => seq![],
            };
            (prev.0, 1, true, prev.3 + f)
        } else if prev.2 {
            if opens_nested(t) {
                (prev.0, prev.1 + 1, true, prev.3)
            } else if is_end_line(t) {
                if prev.1 - 1 == 0 {
                    (Some(n), 0, false, prev.3)
                } else {
                    (prev.0, prev.1 - 1, true, prev.3)
                }
            } else {
                prev
            }
        } else {
            prev
        }
    }
}

proof fn lemma_defs_fold(lines: Seq<Seq<u8>>, n: int)
    requires
        0 <= n,
    ensures
        0 <= defs_fold(lines, n).1 <= n,
        defs_fold(lines, n).2 ==> defs_fold(lines, n).1 >= 1,
        match defs_fold(lines, n).0 {
            Some(last) => 1 <= last <= n,
            None => true,
        },
    decreases n,
{
    if n > 0 {
        lemma_defs_fold(lines, n - 1);
    }
}

/// A trimmed line that starts a method definition.
pub open spec fn def_line(l: Seq<u8>) -> bool {
    starts_with(trim(l), bytes_of("def "))
}

/// Some line among the first `m` starts a method definition.
pub open spec fn def_before(lines: Seq<Seq<u8>>, m: int) -> bool {
    exists|k: int| 0 <= k < m && k < lines.len() && def_line(#[trigger] lines[k])
}

proof fn lemma_defs_fold_reports(lines: Seq<Seq<u8>>, n: int)
    requires
        0 <= n <= lines.len(),
    ensures
        defs_fold(lines, n).2 ==> def_before(lines, n),
        defs_fold(lines, n).0 matches Some(last) ==> 1 <= last <= n && def_before(lines, last - 1),
        forall|j: int|
            0 <= j < defs_fold(lines, n).3.len() ==> {
                let f = #[trigger] defs_fold(lines, n).3[j];
                &&& 2 <= f.line <= n
                &&& def_line(lines[f.line - 1])
                &&& def_before(lines, f.line - 1)
                &&& !is_blank(lines[f.line - 2])
                &&& f == finding(f.line, 1, 0, bytes_of("Use empty lines between method definitions."))
            },
    decreases n,
{
    if n > 0 {
        lemma_defs_fold_reports(lines, n - 1);
        let prev = defs_fold(lines, n - 1);
        let t = trim(lines[n - 1]);
        if starts_with(t, bytes_of("def ")) {
            lemma_defs_closed_on_end(lines, n - 1);
            assert forall|j: int| 0 <= j < defs_fold(lines, n).3.len() implies {
                let f = #[trigger] defs_fold(lines, n).3[j];
                &&& 2 <= f.line <= n
                &&& def_line(lines[f.line - 1])
                &&& def_before(lines, f.line - 1)
                &&& !is_blank(lines[f.line - 2])
                &&& f == finding(f.line, 1, 0, bytes_of("Use empty lines between method definitions."))
            } by {
                if j >= prev.3.len() {
                    let last = prev.0->0;
                    assert(prev.0 is Some);
                    assert(!blank_between(lines, last + 1, n));
                    assert(defs_fold(lines, n).3[j] == finding(n, 1, 0, bytes_of("Use empty lines between method definitions.")));
                    if last + 1 <= n - 1 {
                        assert(!is_blank(lines[n - 2]));
                    } else {
                        lemma_blank_trim(lines[n - 2]);
                        assert(is_end_line(trim(lines[last - 1])));
                        lemma_end_not_empty();
                    }
                    let k = choose|k: int| 0 <= k < last - 1 && k < lines.len() && def_line(#[trigger] lines[k]);
                    assert(def_line(lines[k]));
                    assert(def_line(lines[n - 1]));
                    assert(def_before(lines, n - 1));
                    assert(!is_blank(lines[n - 2]));
                } else {
                    assert(defs_fold(lines, n).3[j] == prev.3[j]);
                    let f = prev.3[j];
                    let k = choose|k: int| 0 <= k < f.line - 1 && k < lines.len() && def_line(#[trigger] lines[k]);
                    assert(def_line(lines[k]));
                    assert(def_before(lines, f.line - 1));
                    assert(def_line(lines[f.line - 1]));
                }
            }
            assert(def_line(lines[n - 1]));
        } else if prev.2 {
            let k = choose|k: int| 0 <= k < n - 1 && k < lines.len() && def_line(#[trigger] lines[k]);
            assert(def_line(lines[k]));
            assert forall|j: int| 0 <= j < defs_fold(lines, n).3.len() implies {
                let f = #[trigger] defs_fold(lines, n).3[j];
                &&& 2 <= f.line <= n
                &&& def_line(lines[f.line - 1])
                &&& def_before(lines, f.line - 1)
                &&& !is_blank(lines[f.line - 2])
                &&& f == finding(f.line, 1, 0, bytes_of("Use empty lines between method definitions."))
            } by {
                assert(defs_fold(lines, n).3[j] == prev.3[j]);
            }
        } else {
            if let Some(last) = prev.0 {
                let k = choose|k: int| 0 <= k < last - 1 && k < lines.len() && def_line(#[trigger] lines[k]);
                assert(def_line(lines[k]));
            }
        }
    }
}

proof fn lemma_end_not_empty()
    ensures
        bytes_of("end").len() == 3,
        bytes_of("end ").len() == 4,
{
    reveal_strlit("end");
    reveal_strlit("end ");
    broadcast use vstd::string::is_ascii_spec_bytes;
    assert(vstd::string::is_ascii("end"));
    assert(vstd::string::is_ascii("end "));
}

/// Where the last method closed, that line is an `end` line.
proof fn lemma_defs_closed_on_end(lines: Seq<Seq<u8>>, n: int)
    requires
        0 <= n <= lines.len(),
    ensures
        defs_fold(lines, n).0 matches Some(last) ==> 1 <= last <= n && is_end_line(trim(lines[last - 1])),
    decreases n,
{
    if n > 0 {
        lemma_defs_closed_on_end(lines, n - 1);
    }
}

/// EmptyLineBetweenDefs reports only method definitions: each finding is on
/// a line that starts with `def `, after another method definition, and not
/// just after a blank line; it is reported at column 1, length 0, with its
/// fixed message. In particular the first method definition of a file, and a
/// definition right after a blank line, are never reported.
pub proof fn law_defs_reported_only_when_crowded(src: SourceView)
    ensures
        forall|j: int|
            0 <= j < EmptyLineBetweenDefs.spec_check(src).len() ==> {
                let f = #[trigger] EmptyLineBetweenDefs.spec_check(src)[j];
                &&& 2 <= f.line <= src.lines.len()
                &&& def_line(src.lines[f.line - 1])
                &&& def_before(src.lines, f.line - 1)
                &&& !is_blank(src.lines[f.line - 2])
                &&& f == finding(f.line, 1, 0, bytes_of("Use empty lines between method definitions."))
            },
{
    lemma_defs_fold_reports(src.lines, src.lines.len() as int);
}

fn blank_between_exec(src: &SourceFile, a: usize, b: usize) -> (r: bool)
    requires
        1 <= a,
        b <= src@.lines.len(),
    ensures
        r == blank_between(src@.lines, a as int, b as int),
{
    let mut ln = a;
    while ln < b
        invariant
            a <= ln,
            b <= src@.lines.len(),
            1 <= a,
            forall|k: int| a <= k < ln ==> !is_blank(#[trigger] src@.lines[k - 1]),
        decreases b - ln,
    {
        if is_blank_exec(src.line_at(ln - 1)) {
            return true;
        }
        ln = ln + 1;
    }
    false
}

impl Cop for EmptyLineBetweenDefs {
    open spec fn spec_name(&self) -> Seq<char> {
        "Layout/EmptyLineBetweenDefs"@
    }

    open spec fn spec_category(&self) -> Category {
        Category::Layout
    }

    open spec fn spec_severity(&self) -> Severity {
        Severity::Convention
    }

    open spec fn spec_check(&self, src: SourceView) -> Seq<FindingView> {
        if src.content.len() == 0 {
            seq![]
        } else {
            defs_fold(src.lines, src.lines.len() as int).3
        }
    }

    fn name(&self) -> (r: &str) {
        "Layout/EmptyLineBetweenDefs"
    }

    fn category(&self) -> (r: Category) {
        Category::Layout
    }

    fn severity(&self) -> (r: Severity) {
        Severity::Convention
    }

    open spec fn spec_description(&self) -> Seq<char> {
        "Checks for missing empty line between method definitions"@
    }

    fn description(&self) -> (r: &str) {
        "Checks for missing empty line between method definitions"
    }

    fn check(&self, source: &SourceFile) -> (r: Vec<Offense>) {
        let mut out: Vec<Finding> = Vec::new();
        if source.is_empty() {
            return report(self.name(), self.severity(), out);
        }
        let n = source.line_count();
        let mut last_end: Option<usize> = None;
        let mut depth: usize = 0;
        let mut in_method = false;
        let mut i: usize = 0;
        while i < n
            invariant
                i <= n,
                n == source@.lines.len(),
                fits(source@),
                (match last_end {
                    Some(x) => Some(x as int),
                    None => None,
                }, depth as int, in_method, finding_views(out@)) == defs_fold(source@.lines, i as int),
            decreases n - i,
        {
            proof {
                lemma_defs_fold(source@.lines, i as int);
            }
            let t = trim_exec(source.line_at(i));
            let line_number = i + 1;
            if starts_with_str(t, "def ") {
                match last_end {
                    Some(last) => {
                        let has_blank = blank_between_exec(source, last + 1, line_number);
                        push_if(
                            &mut out,
                            !has_blank,
                            Finding::text(line_number, 1, 0, "Use empty lines between method definitions."),
                        );
                    },
                    None => {
                        proof {
                            assert(finding_views(out@) =~= finding_views(out@) + Seq::<FindingView>::empty());
                        }
                    },
                }
                in_method = true;
                depth = 1;
            } else if in_method {
                if opens_nested_exec(t) {
                    depth = depth + 1;
                } else if is_end_line_exec(t) {
                    depth = depth - 1;
                    if depth == 0 {
                        last_end = Some(line_number);
                        in_method = false;
                    }
                }
            }
            i = i + 1;
        }
        report(self.name(), self.severity(), out)
    }
}

// ============================================================================
// SpaceInsideParens
// ============================================================================

/// Detects spaces immediately inside parentheses.
pub struct SpaceInsideParens;

/// A space just inside a parenthesis at byte `p` of line `i`, reported at
/// the character column of that space.
pub open spec fn paren_space(src: SourceView, i: int, p: int) -> Seq<FindingView> {
    let l = src.lines[i];
    if src.in_string_or_comment(i + 1, p + 1) {
        seq![]
    } else if l[p] == 40u8 {
        one_if(
            p + 1 < l.len() && l[p + 1] == 32u8 && p + 2 < l.len() && l[p + 2] != 41u8,
            finding(i + 1, (char_count(l.take(p)) + 2) as int, 1, bytes_of("Space inside opening parenthesis.")),
        )
    } else if l[p] == 41u8 {
        one_if(
            p > 0 && l[p - 1] == 32u8 && (p < 2 || l[p - 2] != 40u8),
            finding(i + 1, char_count(l.take(p)) as int, 1, bytes_of("Space inside closing parenthesis.")),
        )
    } else {
        seq![]
    }
}

impl LineRule for SpaceInsideParens {
    open spec fn spec_line(&self, src: SourceView, i: int) -> Seq<FindingView> {
        gather(src.lines[i].len() as int, |p: int| paren_space(src, i, p))
    }

    fn line_findings(&self, src: &SourceFile, i: usize) -> (r: Vec<Finding>) {
        let l = src.line_at(i);
        let mut out: Vec<Finding> = Vec::new();
        let mut p: usize = 0;
        while p < l.len()
            invariant
                p <= l@.len(),
                i < src@.lines.len(),
                l@ == src@.lines[i as int],
                fits(src@),
                finding_views(out@) == gather(p as int, |q: int| paren_space(src@, i as int, q)),
            decreases l.len() - p,
        {
            if src.in_string_or_comment(i + 1, p + 1) {
                push_if(&mut out, false, Finding::text(i + 1, p + 2, 1, ""));
            } else if l[p] == 40u8 {
                let hit = p + 1 < l.len() && l[p + 1] == 32u8 && p + 2 < l.len() && l[p + 2] != 41u8;
                let col = char_count_exec(&l[0..p]) + 2;
                push_if(&mut out, hit, Finding::text(i + 1, col, 1, "Space inside opening parenthesis."));
            } else if l[p] == 41u8 {
                let hit = p > 0 && l[p - 1] == 32u8 && (p < 2 || l[p - 2] != 40u8);
                let col = char_count_exec(&l[0..p]);
                push_if(&mut out, hit, Finding::text(i + 1, col, 1, "Space inside closing parenthesis."));
            } else {
                push_if(&mut out, false, Finding::text(i + 1, p + 2, 1, ""));
            }
            p = p + 1;
        }
        out
    }
}

impl Cop for SpaceInsideParens {
    open spec fn spec_name(&self) -> Seq<char> {
        "Layout/SpaceInsideParens"@
    }

    open spec fn spec_category(&self) -> Category {
        Category::Layout
    }

    open spec fn spec_severity(&self) -> Severity {
        Severity::Convention
    }

    open spec fn spec_check(&self, src: SourceView) -> Seq<FindingView> {
        all_lines(self, src)
    }

    fn name(&self) -> (r: &str) {
        "Layout/SpaceInsideParens"
    }

    fn category(&self) -> (r: Category) {
        Category::Layout
    }

    fn severity(&self) -> (r: Severity) {
        Severity::Convention
    }

    open spec fn spec_description(&self) -> Seq<char> {
        "Checks for spaces immediately inside parentheses"@
    }

    fn description(&self) -> (r: &str) {
        "Checks for spaces immediately inside parentheses"
    }

    fn check(&self, source: &SourceFile) -> (r: Vec<Offense>) {
        report(self.name(), self.severity(), run_lines(self, source))
    }
}

} // verus!
