//! Additional lint cops for detecting code quality issues.

use vstd::prelude::*;

use crate::cop::{Category, Cop, Severity, cop_at};
use crate::offense::{Finding, FindingView, Message, Offense, finding, finding_views, report};
use crate::pattern::{captures_all, is_match, is_match_exec, regex_captures, whole, whole_exec};
use crate::rule::{LineRule, MatchRule, all_lines, all_matches, append_findings, gather, one_if, push_if, run_lines, run_matches};
use crate::scan::{
    MatchCond, cond_matches, group_bytes, group_bytes_exec, line_matches_outside, line_matches_outside_exec,
    matches_outside, scan_cond_matches, scan_matches_outside, whole_finding, whole_finding_exec,
};
use crate::source::{SourceFile, SourceView, fits};
use crate::text::{bytes_of, char_count, contains, has_byte, trim};
use crate::text::{bytes_eq, char_count_exec, contains_str, has_byte_exec, trim_exec, eq_str};

verus! {

impl MatchRule for AmbiguousAssignment {
    /// An `=` directly followed by an operator and a space, outside strings and comments.
    open spec fn spec_match(&self, src: SourceView, i: int, m: Seq<Option<(int, int)>>) -> Seq<FindingView> {
        let l = src.lines[i];
        whole_finding(i, m, !src.in_string_or_comment(i + 1, whole(m).0 + 1), bytes_of("Suspicious assignment '=") + group_bytes(l, m, 2) + bytes_of("'. Did you mean '+='?"))
    }

    fn match_findings(&self, src: &SourceFile, i: usize, m: &Vec<Option<(usize, usize)>>) -> (r: Vec<Finding>) {
        let l = src.line_at(i);
        let (s, _e) = whole_exec(m, l.len());
        let hit = !src.in_string_or_comment(i + 1, s + 1);
        let mut msg = Message::from_str("Suspicious assignment '=");
        msg.push_bytes(group_bytes_exec(l, m, 2));
        msg.push_str("'. Did you mean '+='?");
        whole_finding_exec(i, m, l.len(), hit, msg)
    }
}

impl LineRule for AmbiguousAssignment {
    open spec fn spec_line(&self, src: SourceView, i: int) -> Seq<FindingView> {
        all_matches(self, src, i, regex_captures(r"\b([a-z_][a-z0-9_]*)\s*=([+\-*/])\s"@, src.lines[i]))
    }

    fn line_findings(&self, src: &SourceFile, i: usize) -> (r: Vec<Finding>) {
        let ms = captures_all(r"\b([a-z_][a-z0-9_]*)\s*=([+\-*/])\s", src.line_at(i));
        run_matches(self, src, i, &ms)
    }
}

/// Detects `x =+ 1` and the like, where `x += 1` was probably meant.
pub struct AmbiguousAssignment;

impl Cop for AmbiguousAssignment {
    open spec fn spec_name(&self) -> Seq<char> {
        "Lint/AmbiguousAssignment"@
    }

    open spec fn spec_category(&self) -> Category {
        Category::Lint
    }

    open spec fn spec_severity(&self) -> Severity {
        Severity::Warning
    }

    open spec fn spec_check(&self, src: SourceView) -> Seq<FindingView> {
        all_lines(self, src)
    }

    fn name(&self) -> (r: &str) {
        "Lint/AmbiguousAssignment"
    }

    fn category(&self) -> (r: Category) {
        Category::Lint
    }

    fn severity(&self) -> (r: Severity) {
        Severity::Warning
    }

    open spec fn spec_description(&self) -> Seq<char> {
        "Checks for ambiguous operators that need clarification"@
    }

    fn description(&self) -> (r: &str) {
        "Checks for ambiguous operators that need clarification"
    }

    fn check(&self, source: &SourceFile) -> (r: Vec<Offense>) {
        report(self.name(), self.severity(), run_lines(self, source))
    }
}

/// Detects operators in argument position that read two ways.
pub struct AmbiguousOperator;

impl Cop for AmbiguousOperator {
    open spec fn spec_name(&self) -> Seq<char> {
        "Lint/AmbiguousOperator"@
    }

    open spec fn spec_category(&self) -> Category {
        Category::Lint
    }

    open spec fn spec_severity(&self) -> Severity {
        Severity::Warning
    }

    open spec fn spec_check(&self, src: SourceView) -> Seq<FindingView> {
        matches_outside(src, r"(\w+)\s+([+\-*/])\s*[\w\d]"@, None, bytes_of("Ambiguous operator. Use parentheses for clarity."))
    }

    fn name(&self) -> (r: &str) {
        "Lint/AmbiguousOperator"
    }

    fn category(&self) -> (r: Category) {
        Category::Lint
    }

    fn severity(&self) -> (r: Severity) {
        Severity::Warning
    }

    open spec fn spec_description(&self) -> Seq<char> {
        "Checks for ambiguous operators in argument position"@
    }

    fn description(&self) -> (r: &str) {
        "Checks for ambiguous operators in argument position"
    }

    fn check(&self, source: &SourceFile) -> (r: Vec<Offense>) {
        let fs = scan_matches_outside(source, r"(\w+)\s+([+\-*/])\s*[\w\d]", None, "Ambiguous operator. Use parentheses for clarity.");
        report(self.name(), self.severity(), fs)
    }
}

/// Detects regexp literals in argument position without parentheses.
pub struct AmbiguousRegexpLiteral;

impl Cop for AmbiguousRegexpLiteral {
    open spec fn spec_name(&self) -> Seq<char> {
        "Lint/AmbiguousRegexpLiteral"@
    }

    open spec fn spec_category(&self) -> Category {
        Category::Lint
    }

    open spec fn spec_severity(&self) -> Severity {
        Severity::Warning
    }

    open spec fn spec_check(&self, src: SourceView) -> Seq<FindingView> {
        matches_outside(src, r"(\w+)\s+/[^/]+/"@, None, bytes_of("Ambiguous regexp literal. Use parentheses."))
    }

    fn name(&self) -> (r: &str) {
        "Lint/AmbiguousRegexpLiteral"
    }

    fn category(&self) -> (r: Category) {
        Category::Lint
    }

    fn severity(&self) -> (r: Severity) {
        Severity::Warning
    }

    open spec fn spec_description(&self) -> Seq<char> {
        "Checks for ambiguous regexp literals in method calls"@
    }

    fn description(&self) -> (r: &str) {
        "Checks for ambiguous regexp literals in method calls"
    }

    fn check(&self, source: &SourceFile) -> (r: Vec<Offense>) {
        let fs = scan_matches_outside(source, r"(\w+)\s+/[^/]+/", None, "Ambiguous regexp literal. Use parentheses.");
        report(self.name(), self.severity(), fs)
    }
}

/// Detects ranges that end in a negative literal without parentheses.
pub struct AmbiguousRange;

impl Cop for AmbiguousRange {
    open spec fn spec_name(&self) -> Seq<char> {
        "Lint/AmbiguousRange"@
    }

    open spec fn spec_category(&self) -> Category {
        Category::Lint
    }

    open spec fn spec_severity(&self) -> Severity {
        Severity::Warning
    }

    open spec fn spec_check(&self, src: SourceView) -> Seq<FindingView> {
        matches_outside(src, r"(\d+)\.\.\.?-\d+"@, None, bytes_of("Ambiguous range literal. Use parentheses."))
    }

    fn name(&self) -> (r: &str) {
        "Lint/AmbiguousRange"
    }

    fn category(&self) -> (r: Category) {
        Category::Lint
    }

    fn severity(&self) -> (r: Severity) {
        Severity::Warning
    }

    open spec fn spec_description(&self) -> Seq<char> {
        "Checks for ambiguous range literals"@
    }

    fn description(&self) -> (r: &str) {
        "Checks for ambiguous range literals"
    }

    fn check(&self, source: &SourceFile) -> (r: Vec<Offense>) {
        let fs = scan_matches_outside(source, r"(\d+)\.\.\.?-\d+", None, "Ambiguous range literal. Use parentheses.");
        report(self.name(), self.severity(), fs)
    }
}

/// The byte at `p` is an `=` that is not part of `!=`, `<=`, `>=`, `==` or `=~`.
pub open spec fn plain_assign_at(l: Seq<u8>, p: int) -> bool {
    &&& l[p] == 61u8
    &&& !(p > 0 && (l[p - 1] == 33u8 || l[p - 1] == 60u8 || l[p - 1] == 62u8 || l[p - 1] == 61u8))
    &&& !(p + 1 < l.len() && (l[p + 1] == 61u8 || l[p + 1] == 126u8))
}

/// The first such `=` at or after byte `k`.
pub open spec fn first_plain_assign(l: Seq<u8>, k: int) -> Option<int>
    decreases l.len() - k,
{
    if k < 0 || k >= l.len() {
        None
    } else if plain_assign_at(l, k) {
        Some(k)
    } else {
        first_plain_assign(l, k + 1)
    }
}

/// On a conditional line that does not start inside a string or comment, the
/// first plain `=`, at its character column.
pub open spec fn assignment_in_condition(src: SourceView, i: int) -> Seq<FindingView> {
    let l = src.lines[i];
    if is_match(r"\b(if|unless|while|until)\s+.*="@, l) && !src.in_string_or_comment(i + 1, 1) {
        match first_plain_assign(l, 0) {
            Some(p) => seq![finding(i + 1, (char_count(l.take(p)) + 1) as int, 1, bytes_of("Assignment in condition - use comparison or wrap in parentheses."))],
            None => seq![],
        }
    } else {
        seq![]
    }
}

fn first_plain_assign_exec(l: &[u8]) -> (r: Option<usize>)
    ensures
        match r {
            Some(p) => first_plain_assign(l@, 0) == Some(p as int) && p < l@.len(),
            None => first_plain_assign(l@, 0) is None,
        },
{
    let mut k: usize = 0;
    while k < l.len()
        invariant
            k <= l@.len(),
            first_plain_assign(l@, 0) == first_plain_assign(l@, k as int),
        decreases l.len() - k,
    {
        let before_ok = !(k > 0 && (l[k - 1] == 33u8 || l[k - 1] == 60u8 || l[k - 1] == 62u8 || l[k - 1] == 61u8));
        let after_ok = !(k + 1 < l.len() && (l[k + 1] == 61u8 || l[k + 1] == 126u8));
        if l[k] == 61u8 && before_ok && after_ok {
            assert(plain_assign_at(l@, k as int));
            return Some(k);
        }
        assert(!plain_assign_at(l@, k as int));
        k = k + 1;
    }
    None
}

impl LineRule for AssignmentInCondition {
    open spec fn spec_line(&self, src: SourceView, i: int) -> Seq<FindingView> {
        assignment_in_condition(src, i)
    }

    fn line_findings(&self, src: &SourceFile, i: usize) -> (r: Vec<Finding>) {
        let l = src.line_at(i);
        let mut out: Vec<Finding> = Vec::new();
        if is_match_exec(r"\b(if|unless|while|until)\s+.*=", l) && !src.in_string_or_comment(i + 1, 1) {
            match first_plain_assign_exec(l) {
                Some(p) => {
                    let col = char_count_exec(&l[0..p]) + 1;
                    push_if(&mut out, true, Finding::text(i + 1, col, 1, "Assignment in condition - use comparison or wrap in parentheses."));
                },
                None => {},
            }
        }
        out
    }
}

/// Detects assignments in `if`, `unless`, `while` and `until` conditions.
pub struct AssignmentInCondition;

impl Cop for AssignmentInCondition {
    open spec fn spec_name(&self) -> Seq<char> {
        "Lint/AssignmentInCondition"@
    }

    open spec fn spec_category(&self) -> Category {
        Category::Lint
    }

    open spec fn spec_severity(&self) -> Severity {
        Severity::Warning
    }

    open spec fn spec_check(&self, src: SourceView) -> Seq<FindingView> {
        all_lines(self, src)
    }

    fn name(&self) -> (r: &str) {
        "Lint/AssignmentInCondition"
    }

    fn category(&self) -> (r: Category) {
        Category::Lint
    }

    fn severity(&self) -> (r: Severity) {
        Severity::Warning
    }

    open spec fn spec_description(&self) -> Seq<char> {
        "Checks for assignments in conditions"@
    }

    fn description(&self) -> (r: &str) {
        "Checks for assignments in conditions"
    }

    fn check(&self, source: &SourceFile) -> (r: Vec<Offense>) {
        report(self.name(), self.severity(), run_lines(self, source))
    }
}

/// Detects `BigDecimal.new`; `BigDecimal()` replaces it.
pub struct BigDecimalNew;

impl Cop for BigDecimalNew {
    open spec fn spec_name(&self) -> Seq<char> {
        "Lint/BigDecimalNew"@
    }

    open spec fn spec_category(&self) -> Category {
        Category::Lint
    }

    open spec fn spec_severity(&self) -> Severity {
        Severity::Warning
    }

    open spec fn spec_check(&self, src: SourceView) -> Seq<FindingView> {
        matches_outside(src, r"\bBigDecimal\.new\b"@, None, bytes_of("Use `BigDecimal()` instead of `BigDecimal.new`."))
    }

    fn name(&self) -> (r: &str) {
        "Lint/BigDecimalNew"
    }

    fn category(&self) -> (r: Category) {
        Category::Lint
    }

    fn severity(&self) -> (r: Severity) {
        Severity::Warning
    }

    open spec fn spec_description(&self) -> Seq<char> {
        "Checks for BigDecimal.new usage - use BigDecimal() instead"@
    }

    fn description(&self) -> (r: &str) {
        "Checks for BigDecimal.new usage - use BigDecimal() instead"
    }

    fn check(&self, source: &SourceFile) -> (r: Vec<Offense>) {
        let fs = scan_matches_outside(source, r"\bBigDecimal\.new\b", None, "Use `BigDecimal()` instead of `BigDecimal.new`.");
        report(self.name(), self.severity(), fs)
    }
}

impl MatchRule for BinaryOperatorWithIdenticalOperands {
    /// A comparison or logical operator between two identical names, outside strings and comments.
    open spec fn spec_match(&self, src: SourceView, i: int, m: Seq<Option<(int, int)>>) -> Seq<FindingView> {
        let l = src.lines[i];
        whole_finding(i, m, group_bytes(l, m, 1) == group_bytes(l, m, 3) && !src.in_string_or_comment(i + 1, whole(m).0 + 1), bytes_of("Binary operator with identical operands: `") + group_bytes(l, m, 0) + bytes_of("`"))
    }

    fn match_findings(&self, src: &SourceFile, i: usize, m: &Vec<Option<(usize, usize)>>) -> (r: Vec<Finding>) {
        let l = src.line_at(i);
        let (s, _e) = whole_exec(m, l.len());
        let hit = bytes_eq(group_bytes_exec(l, m, 1), group_bytes_exec(l, m, 3)) && !src.in_string_or_comment(i + 1, s + 1);
        let mut msg = Message::from_str("Binary operator with identical operands: `");
        msg.push_bytes(group_bytes_exec(l, m, 0));
        msg.push_str("`");
        whole_finding_exec(i, m, l.len(), hit, msg)
    }
}

impl LineRule for BinaryOperatorWithIdenticalOperands {
    open spec fn spec_line(&self, src: SourceView, i: int) -> Seq<FindingView> {
        all_matches(self, src, i, regex_captures(r"\b([a-z_][a-z0-9_]*)\s*(==|!=|<|>|<=|>=|\|\||&&)\s*([a-z_][a-z0-9_]*)\b"@, src.lines[i]))
    }

    fn line_findings(&self, src: &SourceFile, i: usize) -> (r: Vec<Finding>) {
        let ms = captures_all(r"\b([a-z_][a-z0-9_]*)\s*(==|!=|<|>|<=|>=|\|\||&&)\s*([a-z_][a-z0-9_]*)\b", src.line_at(i));
        run_matches(self, src, i, &ms)
    }
}

/// Detects binary operators with identical operands.
pub struct BinaryOperatorWithIdenticalOperands;

impl Cop for BinaryOperatorWithIdenticalOperands {
    open spec fn spec_name(&self) -> Seq<char> {
        "Lint/BinaryOperatorWithIdenticalOperands"@
    }

    open spec fn spec_category(&self) -> Category {
        Category::Lint
    }

    open spec fn spec_severity(&self) -> Severity {
        Severity::Warning
    }

    open spec fn spec_check(&self, src: SourceView) -> Seq<FindingView> {
        all_lines(self, src)
    }

    fn name(&self) -> (r: &str) {
        "Lint/BinaryOperatorWithIdenticalOperands"
    }

    fn category(&self) -> (r: Category) {
        Category::Lint
    }

    fn severity(&self) -> (r: Severity) {
        Severity::Warning
    }

    open spec fn spec_description(&self) -> Seq<char> {
        "Checks for binary operators with identical operands"@
    }

    fn description(&self) -> (r: &str) {
        "Checks for binary operators with identical operands"
    }

    fn check(&self, source: &SourceFile) -> (r: Vec<Offense>) {
        report(self.name(), self.severity(), run_lines(self, source))
    }
}

impl MatchRule for BooleanSymbol {
    /// A `:true` or `:false` symbol, outside strings and comments.
    open spec fn spec_match(&self, src: SourceView, i: int, m: Seq<Option<(int, int)>>) -> Seq<FindingView> {
        let l = src.lines[i];
        whole_finding(i, m, !src.in_string_or_comment(i + 1, whole(m).0 + 1), bytes_of("Avoid using `") + group_bytes(l, m, 0) + bytes_of("` - use boolean instead."))
    }

    fn match_findings(&self, src: &SourceFile, i: usize, m: &Vec<Option<(usize, usize)>>) -> (r: Vec<Finding>) {
        let l = src.line_at(i);
        let (s, _e) = whole_exec(m, l.len());
        let hit = !src.in_string_or_comment(i + 1, s + 1);
        let mut msg = Message::from_str("Avoid using `");
        msg.push_bytes(group_bytes_exec(l, m, 0));
        msg.push_str("` - use boolean instead.");
        whole_finding_exec(i, m, l.len(), hit, msg)
    }
}

impl LineRule for BooleanSymbol {
    open spec fn spec_line(&self, src: SourceView, i: int) -> Seq<FindingView> {
        all_matches(self, src, i, regex_captures(r":(true|false)\b"@, src.lines[i]))
    }

    fn line_findings(&self, src: &SourceFile, i: usize) -> (r: Vec<Finding>) {
        let ms = captures_all(r":(true|false)\b", src.line_at(i));
        run_matches(self, src, i, &ms)
    }
}

/// Detects the symbols `:true` and `:false`.
pub struct BooleanSymbol;

impl Cop for BooleanSymbol {
    open spec fn spec_name(&self) -> Seq<char> {
        "Lint/BooleanSymbol"@
    }

    open spec fn spec_category(&self) -> Category {
        Category::Lint
    }

    open spec fn spec_severity(&self) -> Severity {
        Severity::Warning
    }

    open spec fn spec_check(&self, src: SourceView) -> Seq<FindingView> {
        all_lines(self, src)
    }

    fn name(&self) -> (r: &str) {
        "Lint/BooleanSymbol"
    }

    fn category(&self) -> (r: Category) {
        Category::Lint
    }

    fn severity(&self) -> (r: Severity) {
        Severity::Warning
    }

    open spec fn spec_description(&self) -> Seq<char> {
        "Checks for :true and :false symbols"@
    }

    fn description(&self) -> (r: &str) {
        "Checks for :true and :false symbols"
    }

    fn check(&self, source: &SourceFile) -> (r: Vec<Offense>) {
        report(self.name(), self.severity(), run_lines(self, source))
    }
}

/// Whether line `n` (1-based) counts as inside a block: a line with ` do` or
/// ` {` opens one, and a line with `end` or `}` closes it, after the first.
pub open spec fn in_block_after(src: SourceView, n: int) -> bool
    decreases n,
{
    if n <= 0 {
        false
    } else {
        let l = src.lines[n - 1];
        if contains(l, bytes_of("end")) || contains(l, bytes_of("}")) {
            false
        } else if contains(l, bytes_of(" do")) || contains(l, bytes_of(" {")) {
            true
        } else {
            in_block_after(src, n - 1)
        }
    }
}

/// Constant assignments on line `i` inside a block, outside strings and comments.
pub open spec fn constant_in_block_line(src: SourceView, i: int) -> Seq<FindingView> {
    if in_block_after(src, i + 1) {
        line_matches_outside(src, i, r"\b[A-Z][A-Z0-9_]*\s*="@, None, bytes_of("Do not define constants in blocks."))
    } else {
        seq![]
    }
}

/// Detects constants assigned inside blocks.
pub struct ConstantDefinitionInBlock;

impl Cop for ConstantDefinitionInBlock {
    open spec fn spec_name(&self) -> Seq<char> {
        "Lint/ConstantDefinitionInBlock"@
    }

    open spec fn spec_category(&self) -> Category {
        Category::Lint
    }

    open spec fn spec_severity(&self) -> Severity {
        Severity::Warning
    }

    open spec fn spec_check(&self, src: SourceView) -> Seq<FindingView> {
        gather(src.lines.len() as int, |i: int| constant_in_block_line(src, i))
    }

    fn name(&self) -> (r: &str) {
        "Lint/ConstantDefinitionInBlock"
    }

    fn category(&self) -> (r: Category) {
        Category::Lint
    }

    fn severity(&self) -> (r: Severity) {
        Severity::Warning
    }

    open spec fn spec_description(&self) -> Seq<char> {
        "Checks for constants defined in blocks"@
    }

    fn description(&self) -> (r: &str) {
        "Checks for constants defined in blocks"
    }

    fn check(&self, source: &SourceFile) -> (r: Vec<Offense>) {
        let mut out: Vec<Finding> = Vec::new();
        let n = source.line_count();
        let mut in_block = false;
        let mut i: usize = 0;
        while i < n
            invariant
                i <= n,
                n == source@.lines.len(),
                in_block == in_block_after(source@, i as int),
                finding_views(out@) == gather(i as int, |k: int| constant_in_block_line(source@, k)),
            decreases n - i,
        {
            let l = source.line_at(i);
            if contains_str(l, " do") || contains_str(l, " {") {
                in_block = true;
            }
            if contains_str(l, "end") || contains_str(l, "}") {
                in_block = false;
            }
            if in_block {
                let fs = line_matches_outside_exec(source, i, r"\b[A-Z][A-Z0-9_]*\s*=", None, "Do not define constants in blocks.");
                append_findings(&mut out, fs);
            } else {
                push_if(&mut out, false, Finding::text(0, 0, 0, ""));
            }
            i = i + 1;
        }
        report(self.name(), self.severity(), out)
    }
}

/// Checks for constant reassignment
pub struct ConstantReassignment;

impl Cop for ConstantReassignment {
    open spec fn spec_name(&self) -> Seq<char> {
        "Lint/ConstantReassignment"@
    }

    open spec fn spec_category(&self) -> Category {
        Category::Lint
    }

    open spec fn spec_severity(&self) -> Severity {
        Severity::Warning
    }

    open spec fn spec_check(&self, src: SourceView) -> Seq<FindingView> {
        seq![]
    }

    fn name(&self) -> (r: &str) {
        "Lint/ConstantReassignment"
    }

    fn category(&self) -> (r: Category) {
        Category::Lint
    }

    fn severity(&self) -> (r: Severity) {
        Severity::Warning
    }

    open spec fn spec_description(&self) -> Seq<char> {
        "Checks for constant reassignment"@
    }

    fn description(&self) -> (r: &str) {
        "Checks for constant reassignment"
    }

    fn check(&self, source: &SourceFile) -> (r: Vec<Offense>) {
        report(self.name(), self.severity(), Vec::new())
    }
}

/// The replacement for a deprecated `File.exists?` or `Dir.exists?`.
pub open spec fn exist_replacement(method: Seq<u8>) -> Seq<u8> {
    if contains(method, bytes_of("File")) {
        bytes_of("File.exist?")
    } else {
        bytes_of("Dir.exist?")
    }
}

impl MatchRule for DeprecatedClassMethods {
    /// A deprecated existence check, outside strings and comments, with its replacement.
    open spec fn spec_match(&self, src: SourceView, i: int, m: Seq<Option<(int, int)>>) -> Seq<FindingView> {
        let l = src.lines[i];
        let method = group_bytes(l, m, 1);
        whole_finding(
            i,
            m,
            !src.in_string_or_comment(i + 1, whole(m).0 + 1),
            bytes_of("`") + method + bytes_of("` is deprecated. Use `") + exist_replacement(method) + bytes_of("` instead."),
        )
    }

    fn match_findings(&self, src: &SourceFile, i: usize, m: &Vec<Option<(usize, usize)>>) -> (r: Vec<Finding>) {
        let l = src.line_at(i);
        let (s, _e) = whole_exec(m, l.len());
        let hit = !src.in_string_or_comment(i + 1, s + 1);
        let method = group_bytes_exec(l, m, 1);
        let mut msg = Message::from_str("`");
        msg.push_bytes(method);
        msg.push_str("` is deprecated. Use `");
        if contains_str(method, "File") {
            msg.push_str("File.exist?");
        } else {
            msg.push_str("Dir.exist?");
        }
        msg.push_str("` instead.");
        whole_finding_exec(i, m, l.len(), hit, msg)
    }
}

impl LineRule for DeprecatedClassMethods {
    open spec fn spec_line(&self, src: SourceView, i: int) -> Seq<FindingView> {
        all_matches(self, src, i, regex_captures(r"(File\.exists\?|Dir\.exists\?)"@, src.lines[i]))
    }

    fn line_findings(&self, src: &SourceFile, i: usize) -> (r: Vec<Finding>) {
        let ms = captures_all(r"(File\.exists\?|Dir\.exists\?)", src.line_at(i));
        run_matches(self, src, i, &ms)
    }
}

/// Detects `File.exists?` and `Dir.exists?`.
pub struct DeprecatedClassMethods;

impl Cop for DeprecatedClassMethods {
    open spec fn spec_name(&self) -> Seq<char> {
        "Lint/DeprecatedClassMethods"@
    }

    open spec fn spec_category(&self) -> Category {
        Category::Lint
    }

    open spec fn spec_severity(&self) -> Severity {
        Severity::Warning
    }

    open spec fn spec_check(&self, src: SourceView) -> Seq<FindingView> {
        all_lines(self, src)
    }

    fn name(&self) -> (r: &str) {
        "Lint/DeprecatedClassMethods"
    }

    fn category(&self) -> (r: Category) {
        Category::Lint
    }

    fn severity(&self) -> (r: Severity) {
        Severity::Warning
    }

    open spec fn spec_description(&self) -> Seq<char> {
        "Checks for deprecated class methods"@
    }

    fn description(&self) -> (r: &str) {
        "Checks for deprecated class methods"
    }

    fn check(&self, source: &SourceFile) -> (r: Vec<Offense>) {
        report(self.name(), self.severity(), run_lines(self, source))
    }
}

/// Duplicate code in if/else branches
pub struct DuplicateBranch;

impl Cop for DuplicateBranch {
    open spec fn spec_name(&self) -> Seq<char> {
        "Lint/DuplicateBranch"@
    }

    open spec fn spec_category(&self) -> Category {
        Category::Lint
    }

    open spec fn spec_severity(&self) -> Severity {
        Severity::Warning
    }

    open spec fn spec_check(&self, src: SourceView) -> Seq<FindingView> {
        seq![]
    }

    fn name(&self) -> (r: &str) {
        "Lint/DuplicateBranch"
    }

    fn category(&self) -> (r: Category) {
        Category::Lint
    }

    fn severity(&self) -> (r: Severity) {
        Severity::Warning
    }

    open spec fn spec_description(&self) -> Seq<char> {
        "Duplicate code in if/else branches"@
    }

    fn description(&self) -> (r: &str) {
        "Duplicate code in if/else branches"
    }

    fn check(&self, source: &SourceFile) -> (r: Vec<Offense>) {
        report(self.name(), self.severity(), Vec::new())
    }
}

/// Duplicate case condition
pub struct DuplicateCaseCondition;

impl Cop for DuplicateCaseCondition {
    open spec fn spec_name(&self) -> Seq<char> {
        "Lint/DuplicateCaseCondition"@
    }

    open spec fn spec_category(&self) -> Category {
        Category::Lint
    }

    open spec fn spec_severity(&self) -> Severity {
        Severity::Warning
    }

    open spec fn spec_check(&self, src: SourceView) -> Seq<FindingView> {
        seq![]
    }

    fn name(&self) -> (r: &str) {
        "Lint/DuplicateCaseCondition"
    }

    fn category(&self) -> (r: Category) {
        Category::Lint
    }

    fn severity(&self) -> (r: Severity) {
        Severity::Warning
    }

    open spec fn spec_description(&self) -> Seq<char> {
        "Duplicate case condition"@
    }

    fn description(&self) -> (r: &str) {
        "Duplicate case condition"
    }

    fn check(&self, source: &SourceFile) -> (r: Vec<Offense>) {
        report(self.name(), self.severity(), Vec::new())
    }
}

/// Duplicate elsif condition
pub struct DuplicateElsifCondition;

impl Cop for DuplicateElsifCondition {
    open spec fn spec_name(&self) -> Seq<char> {
        "Lint/DuplicateElsifCondition"@
    }

    open spec fn spec_category(&self) -> Category {
        Category::Lint
    }

    open spec fn spec_severity(&self) -> Severity {
        Severity::Warning
    }

    open spec fn spec_check(&self, src: SourceView) -> Seq<FindingView> {
        seq![]
    }

    fn name(&self) -> (r: &str) {
        "Lint/DuplicateElsifCondition"
    }

    fn category(&self) -> (r: Category) {
        Category::Lint
    }

    fn severity(&self) -> (r: Severity) {
        Severity::Warning
    }

    open spec fn spec_description(&self) -> Seq<char> {
        "Duplicate elsif condition"@
    }

    fn description(&self) -> (r: &str) {
        "Duplicate elsif condition"
    }

    fn check(&self, source: &SourceFile) -> (r: Vec<Offense>) {
        report(self.name(), self.severity(), Vec::new())
    }
}

/// Duplicate hash key
pub struct DuplicateHashKey;

impl Cop for DuplicateHashKey {
    open spec fn spec_name(&self) -> Seq<char> {
        "Lint/DuplicateHashKey"@
    }

    open spec fn spec_category(&self) -> Category {
        Category::Lint
    }

    open spec fn spec_severity(&self) -> Severity {
        Severity::Warning
    }

    open spec fn spec_check(&self, src: SourceView) -> Seq<FindingView> {
        seq![]
    }

    fn name(&self) -> (r: &str) {
        "Lint/DuplicateHashKey"
    }

    fn category(&self) -> (r: Category) {
        Category::Lint
    }

    fn severity(&self) -> (r: Severity) {
        Severity::Warning
    }

    open spec fn spec_description(&self) -> Seq<char> {
        "Duplicate hash key"@
    }

    fn description(&self) -> (r: &str) {
        "Duplicate hash key"
    }

    fn check(&self, source: &SourceFile) -> (r: Vec<Offense>) {
        report(self.name(), self.severity(), Vec::new())
    }
}

/// Duplicate magic comment
pub struct DuplicateMagicComment;

impl Cop for DuplicateMagicComment {
    open spec fn spec_name(&self) -> Seq<char> {
        "Lint/DuplicateMagicComment"@
    }

    open spec fn spec_category(&self) -> Category {
        Category::Lint
    }

    open spec fn spec_severity(&self) -> Severity {
        Severity::Warning
    }

    open spec fn spec_check(&self, src: SourceView) -> Seq<FindingView> {
        seq![]
    }

    fn name(&self) -> (r: &str) {
        "Lint/DuplicateMagicComment"
    }

    fn category(&self) -> (r: Category) {
        Category::Lint
    }

    fn severity(&self) -> (r: Severity) {
        Severity::Warning
    }

    open spec fn spec_description(&self) -> Seq<char> {
        "Duplicate magic comment"@
    }

    fn description(&self) -> (r: &str) {
        "Duplicate magic comment"
    }

    fn check(&self, source: &SourceFile) -> (r: Vec<Offense>) {
        report(self.name(), self.severity(), Vec::new())
    }
}

/// Duplicate require
pub struct DuplicateRequire;

impl Cop for DuplicateRequire {
    open spec fn spec_name(&self) -> Seq<char> {
        "Lint/DuplicateRequire"@
    }

    open spec fn spec_category(&self) -> Category {
        Category::Lint
    }

    open spec fn spec_severity(&self) -> Severity {
        Severity::Warning
    }

    open spec fn spec_check(&self, src: SourceView) -> Seq<FindingView> {
        seq![]
    }

    fn name(&self) -> (r: &str) {
        "Lint/DuplicateRequire"
    }

    fn category(&self) -> (r: Category) {
        Category::Lint
    }

    fn severity(&self) -> (r: Severity) {
        Severity::Warning
    }

    open spec fn spec_description(&self) -> Seq<char> {
        "Duplicate require"@
    }

    fn description(&self) -> (r: &str) {
        "Duplicate require"
    }

    fn check(&self, source: &SourceFile) -> (r: Vec<Offense>) {
        report(self.name(), self.severity(), Vec::new())
    }
}

/// Duplicate rescue exception
pub struct DuplicateRescueException;

impl Cop for DuplicateRescueException {
    open spec fn spec_name(&self) -> Seq<char> {
        "Lint/DuplicateRescueException"@
    }

    open spec fn spec_category(&self) -> Category {
        Category::Lint
    }

    open spec fn spec_severity(&self) -> Severity {
        Severity::Warning
    }

    open spec fn spec_check(&self, src: SourceView) -> Seq<FindingView> {
        seq![]
    }

    fn name(&self) -> (r: &str) {
        "Lint/DuplicateRescueException"
    }

    fn category(&self) -> (r: Category) {
        Category::Lint
    }

    fn severity(&self) -> (r: Severity) {
        Severity::Warning
    }

    open spec fn spec_description(&self) -> Seq<char> {
        "Duplicate rescue exception"@
    }

    fn description(&self) -> (r: &str) {
        "Duplicate rescue exception"
    }

    fn check(&self, source: &SourceFile) -> (r: Vec<Offense>) {
        report(self.name(), self.severity(), Vec::new())
    }
}

/// Detects empty `{ }` and `do end` blocks.
pub struct EmptyBlock;

impl Cop for EmptyBlock {
    open spec fn spec_name(&self) -> Seq<char> {
        "Lint/EmptyBlock"@
    }

    open spec fn spec_category(&self) -> Category {
        Category::Lint
    }

    open spec fn spec_severity(&self) -> Severity {
        Severity::Warning
    }

    open spec fn spec_check(&self, src: SourceView) -> Seq<FindingView> {
        matches_outside(src, r"\{\s*\}|\bdo\s*\bend"@, None, bytes_of("Empty block detected."))
    }

    fn name(&self) -> (r: &str) {
        "Lint/EmptyBlock"
    }

    fn category(&self) -> (r: Category) {
        Category::Lint
    }

    fn severity(&self) -> (r: Severity) {
        Severity::Warning
    }

    open spec fn spec_description(&self) -> Seq<char> {
        "Checks for empty blocks"@
    }

    fn description(&self) -> (r: &str) {
        "Checks for empty blocks"
    }

    fn check(&self, source: &SourceFile) -> (r: Vec<Offense>) {
        let fs = scan_matches_outside(source, r"\{\s*\}|\bdo\s*\bend", None, "Empty block detected.");
        report(self.name(), self.severity(), fs)
    }
}

/// Empty class definition
pub struct EmptyClass;

impl Cop for EmptyClass {
    open spec fn spec_name(&self) -> Seq<char> {
        "Lint/EmptyClass"@
    }

    open spec fn spec_category(&self) -> Category {
        Category::Lint
    }

    open spec fn spec_severity(&self) -> Severity {
        Severity::Warning
    }

    open spec fn spec_check(&self, src: SourceView) -> Seq<FindingView> {
        seq![]
    }

    fn name(&self) -> (r: &str) {
        "Lint/EmptyClass"
    }

    fn category(&self) -> (r: Category) {
        Category::Lint
    }

    fn severity(&self) -> (r: Severity) {
        Severity::Warning
    }

    open spec fn spec_description(&self) -> Seq<char> {
        "Empty class definition"@
    }

    fn description(&self) -> (r: &str) {
        "Empty class definition"
    }

    fn check(&self, source: &SourceFile) -> (r: Vec<Offense>) {
        report(self.name(), self.severity(), Vec::new())
    }
}

/// Empty conditional body
pub struct EmptyConditionalBody;

impl Cop for EmptyConditionalBody {
    open spec fn spec_name(&self) -> Seq<char> {
        "Lint/EmptyConditionalBody"@
    }

    open spec fn spec_category(&self) -> Category {
        Category::Lint
    }

    open spec fn spec_severity(&self) -> Severity {
        Severity::Warning
    }

    open spec fn spec_check(&self, src: SourceView) -> Seq<FindingView> {
        seq![]
    }

    fn name(&self) -> (r: &str) {
        "Lint/EmptyConditionalBody"
    }

    fn category(&self) -> (r: Category) {
        Category::Lint
    }

    fn severity(&self) -> (r: Severity) {
        Severity::Warning
    }

    open spec fn spec_description(&self) -> Seq<char> {
        "Empty conditional body"@
    }

    fn description(&self) -> (r: &str) {
        "Empty conditional body"
    }

    fn check(&self, source: &SourceFile) -> (r: Vec<Offense>) {
        report(self.name(), self.severity(), Vec::new())
    }
}

/// Empty ensure block
pub struct EmptyEnsure;

impl Cop for EmptyEnsure {
    open spec fn spec_name(&self) -> Seq<char> {
        "Lint/EmptyEnsure"@
    }

    open spec fn spec_category(&self) -> Category {
        Category::Lint
    }

    open spec fn spec_severity(&self) -> Severity {
        Severity::Warning
    }

    open spec fn spec_check(&self, src: SourceView) -> Seq<FindingView> {
        seq![]
    }

    fn name(&self) -> (r: &str) {
        "Lint/EmptyEnsure"
    }

    fn category(&self) -> (r: Category) {
        Category::Lint
    }

    fn severity(&self) -> (r: Severity) {
        Severity::Warning
    }

    open spec fn spec_description(&self) -> Seq<char> {
        "Empty ensure block"@
    }

    fn description(&self) -> (r: &str) {
        "Empty ensure block"
    }

    fn check(&self, source: &SourceFile) -> (r: Vec<Offense>) {
        report(self.name(), self.severity(), Vec::new())
    }
}

/// Detects files with no content.
pub struct EmptyFile;

impl Cop for EmptyFile {
    open spec fn spec_name(&self) -> Seq<char> {
        "Lint/EmptyFile"@
    }

    open spec fn spec_category(&self) -> Category {
        Category::Lint
    }

    open spec fn spec_severity(&self) -> Severity {
        Severity::Warning
    }

    open spec fn spec_check(&self, src: SourceView) -> Seq<FindingView> {
        one_if(src.content.len() == 0, finding(1, 1, 0, bytes_of("Empty file detected.")))
    }

    fn name(&self) -> (r: &str) {
        "Lint/EmptyFile"
    }

    fn category(&self) -> (r: Category) {
        Category::Lint
    }

    fn severity(&self) -> (r: Severity) {
        Severity::Warning
    }

    open spec fn spec_description(&self) -> Seq<char> {
        "Checks for empty files"@
    }

    fn description(&self) -> (r: &str) {
        "Checks for empty files"
    }

    fn check(&self, source: &SourceFile) -> (r: Vec<Offense>) {
        let mut out: Vec<Finding> = Vec::new();
        push_if(&mut out, source.is_empty(), Finding::text(1, 1, 0, "Empty file detected."));
        report(self.name(), self.severity(), out)
    }
}

impl MatchCond for EmptyInterpolation {
    /// Every match counts, also inside strings.
    open spec fn spec_ok(&self, src: SourceView, i: int, m: Seq<Option<(int, int)>>) -> bool {
        true
    }

    fn ok(&self, src: &SourceFile, i: usize, m: &Vec<Option<(usize, usize)>>) -> (r: bool) {
        true
    }
}

/// Detects empty interpolation `#{}`.
pub struct EmptyInterpolation;

impl Cop for EmptyInterpolation {
    open spec fn spec_name(&self) -> Seq<char> {
        "Lint/EmptyInterpolation"@
    }

    open spec fn spec_category(&self) -> Category {
        Category::Lint
    }

    open spec fn spec_severity(&self) -> Severity {
        Severity::Warning
    }

    open spec fn spec_check(&self, src: SourceView) -> Seq<FindingView> {
        cond_matches(self, src, r"#\{\s*\}"@, None, bytes_of("Empty interpolation `#{}` detected."))
    }

    fn name(&self) -> (r: &str) {
        "Lint/EmptyInterpolation"
    }

    fn category(&self) -> (r: Category) {
        Category::Lint
    }

    fn severity(&self) -> (r: Severity) {
        Severity::Warning
    }

    open spec fn spec_description(&self) -> Seq<char> {
        "Checks for empty interpolation"@
    }

    fn description(&self) -> (r: &str) {
        "Checks for empty interpolation"
    }

    fn check(&self, source: &SourceFile) -> (r: Vec<Offense>) {
        let fs = scan_cond_matches(self, source, r"#\{\s*\}", None, "Empty interpolation `#{}` detected.");
        report(self.name(), self.severity(), fs)
    }
}

/// Empty when clause
pub struct EmptyWhen;

impl Cop for EmptyWhen {
    open spec fn spec_name(&self) -> Seq<char> {
        "Lint/EmptyWhen"@
    }

    open spec fn spec_category(&self) -> Category {
        Category::Lint
    }

    open spec fn spec_severity(&self) -> Severity {
        Severity::Warning
    }

    open spec fn spec_check(&self, src: SourceView) -> Seq<FindingView> {
        seq![]
    }

    fn name(&self) -> (r: &str) {
        "Lint/EmptyWhen"
    }

    fn category(&self) -> (r: Category) {
        Category::Lint
    }

    fn severity(&self) -> (r: Severity) {
        Severity::Warning
    }

    open spec fn spec_description(&self) -> Seq<char> {
        "Empty when clause"@
    }

    fn description(&self) -> (r: &str) {
        "Empty when clause"
    }

    fn check(&self, source: &SourceFile) -> (r: Vec<Offense>) {
        report(self.name(), self.severity(), Vec::new())
    }
}

/// Return in ensure block
pub struct EnsureReturn;

impl Cop for EnsureReturn {
    open spec fn spec_name(&self) -> Seq<char> {
        "Lint/EnsureReturn"@
    }

    open spec fn spec_category(&self) -> Category {
        Category::Lint
    }

    open spec fn spec_severity(&self) -> Severity {
        Severity::Warning
    }

    open spec fn spec_check(&self, src: SourceView) -> Seq<FindingView> {
        seq![]
    }

    fn name(&self) -> (r: &str) {
        "Lint/EnsureReturn"
    }

    fn category(&self) -> (r: Category) {
        Category::Lint
    }

    fn severity(&self) -> (r: Severity) {
        Severity::Warning
    }

    open spec fn spec_description(&self) -> Seq<char> {
        "Return in ensure block"@
    }

    fn description(&self) -> (r: &str) {
        "Return in ensure block"
    }

    fn check(&self, source: &SourceFile) -> (r: Vec<Offense>) {
        report(self.name(), self.severity(), Vec::new())
    }
}

/// Flip-flop operator usage
pub struct FlipFlop;

impl Cop for FlipFlop {
    open spec fn spec_name(&self) -> Seq<char> {
        "Lint/FlipFlop"@
    }

    open spec fn spec_category(&self) -> Category {
        Category::Lint
    }

    open spec fn spec_severity(&self) -> Severity {
        Severity::Warning
    }

    open spec fn spec_check(&self, src: SourceView) -> Seq<FindingView> {
        seq![]
    }

    fn name(&self) -> (r: &str) {
        "Lint/FlipFlop"
    }

    fn category(&self) -> (r: Category) {
        Category::Lint
    }

    fn severity(&self) -> (r: Severity) {
        Severity::Warning
    }

    open spec fn spec_description(&self) -> Seq<char> {
        "Flip-flop operator usage"@
    }

    fn description(&self) -> (r: &str) {
        "Flip-flop operator usage"
    }

    fn check(&self, source: &SourceFile) -> (r: Vec<Offense>) {
        report(self.name(), self.severity(), Vec::new())
    }
}

/// The line shows a sign of floats: `.0`, `Float`, `float`, `.to_f`, or a
/// backslash-dot together with `==`.
pub open spec fn float_line(l: Seq<u8>) -> bool {
    contains(l, bytes_of(".0")) || contains(l, bytes_of("Float")) || contains(l, bytes_of("float")) || contains(
        l,
        bytes_of(".to_f"),
    ) || (contains(l, bytes_of("\\.")) && contains(l, bytes_of("==")))
}

fn float_line_exec(l: &[u8]) -> (r: bool)
    ensures
        r == float_line(l@),
{
    contains_str(l, ".0") || contains_str(l, "Float") || contains_str(l, "float") || contains_str(l, ".to_f") || (
    contains_str(l, "\\.") && contains_str(l, "=="))
}

impl MatchRule for FloatComparison {
    /// An `==` between names or numbers on a float line, where the match has a
    /// `.` or the line has `.to_f`, `Float` or `float`, outside strings and comments.
    open spec fn spec_match(&self, src: SourceView, i: int, m: Seq<Option<(int, int)>>) -> Seq<FindingView> {
        let l = src.lines[i];
        let hit = float_line(l) && (has_byte(group_bytes(l, m, 0), 46u8) || contains(l, bytes_of(".to_f")) || contains(
            l,
            bytes_of("Float"),
        ) || contains(l, bytes_of("float"))) && !src.in_string_or_comment(i + 1, whole(m).0 + 1);
        whole_finding(i, m, hit, bytes_of("Avoid comparing floats with `==`. Use `.round` or tolerance check."))
    }

    fn match_findings(&self, src: &SourceFile, i: usize, m: &Vec<Option<(usize, usize)>>) -> (r: Vec<Finding>) {
        let l = src.line_at(i);
        let (s, _e) = whole_exec(m, l.len());
        let hit = float_line_exec(l) && (has_byte_exec(group_bytes_exec(l, m, 0), 46u8) || contains_str(l, ".to_f")
            || contains_str(l, "Float") || contains_str(l, "float")) && !src.in_string_or_comment(i + 1, s + 1);
        let msg = Message::from_str("Avoid comparing floats with `==`. Use `.round` or tolerance check.");
        whole_finding_exec(i, m, l.len(), hit, msg)
    }
}

impl LineRule for FloatComparison {
    open spec fn spec_line(&self, src: SourceView, i: int) -> Seq<FindingView> {
        all_matches(self, src, i, regex_captures(r"([a-z_][a-z0-9_]*|[\d.]+)\s*==\s*([a-z_][a-z0-9_]*|[\d.]+)"@, src.lines[i]))
    }

    fn line_findings(&self, src: &SourceFile, i: usize) -> (r: Vec<Finding>) {
        let ms = captures_all(r"([a-z_][a-z0-9_]*|[\d.]+)\s*==\s*([a-z_][a-z0-9_]*|[\d.]+)", src.line_at(i));
        run_matches(self, src, i, &ms)
    }
}

/// Detects comparisons of floats with `==`.
pub struct FloatComparison;

impl Cop for FloatComparison {
    open spec fn spec_name(&self) -> Seq<char> {
        "Lint/FloatComparison"@
    }

    open spec fn spec_category(&self) -> Category {
        Category::Lint
    }

    open spec fn spec_severity(&self) -> Severity {
        Severity::Warning
    }

    open spec fn spec_check(&self, src: SourceView) -> Seq<FindingView> {
        all_lines(self, src)
    }

    fn name(&self) -> (r: &str) {
        "Lint/FloatComparison"
    }

    fn category(&self) -> (r: Category) {
        Category::Lint
    }

    fn severity(&self) -> (r: Severity) {
        Severity::Warning
    }

    open spec fn spec_description(&self) -> Seq<char> {
        "Checks for float comparison with =="@
    }

    fn description(&self) -> (r: &str) {
        "Checks for float comparison with =="
    }

    fn check(&self, source: &SourceFile) -> (r: Vec<Offense>) {
        report(self.name(), self.severity(), run_lines(self, source))
    }
}

/// Float literal out of range
pub struct FloatOutOfRange;

impl Cop for FloatOutOfRange {
    open spec fn spec_name(&self) -> Seq<char> {
        "Lint/FloatOutOfRange"@
    }

    open spec fn spec_category(&self) -> Category {
        Category::Lint
    }

    open spec fn spec_severity(&self) -> Severity {
        Severity::Warning
    }

    open spec fn spec_check(&self, src: SourceView) -> Seq<FindingView> {
        seq![]
    }

    fn name(&self) -> (r: &str) {
        "Lint/FloatOutOfRange"
    }

    fn category(&self) -> (r: Category) {
        Category::Lint
    }

    fn severity(&self) -> (r: Severity) {
        Severity::Warning
    }

    open spec fn spec_description(&self) -> Seq<char> {
        "Float literal out of range"@
    }

    fn description(&self) -> (r: &str) {
        "Float literal out of range"
    }

    fn check(&self, source: &SourceFile) -> (r: Vec<Offense>) {
        report(self.name(), self.severity(), Vec::new())
    }
}

/// Format string parameter mismatch
pub struct FormatParameterMismatch;

impl Cop for FormatParameterMismatch {
    open spec fn spec_name(&self) -> Seq<char> {
        "Lint/FormatParameterMismatch"@
    }

    open spec fn spec_category(&self) -> Category {
        Category::Lint
    }

    open spec fn spec_severity(&self) -> Severity {
        Severity::Warning
    }

    open spec fn spec_check(&self, src: SourceView) -> Seq<FindingView> {
        seq![]
    }

    fn name(&self) -> (r: &str) {
        "Lint/FormatParameterMismatch"
    }

    fn category(&self) -> (r: Category) {
        Category::Lint
    }

    fn severity(&self) -> (r: Severity) {
        Severity::Warning
    }

    open spec fn spec_description(&self) -> Seq<char> {
        "Format string parameter mismatch"@
    }

    fn description(&self) -> (r: &str) {
        "Format string parameter mismatch"
    }

    fn check(&self, source: &SourceFile) -> (r: Vec<Offense>) {
        report(self.name(), self.severity(), Vec::new())
    }
}

/// Identity comparison issue
pub struct IdentityComparison;

impl Cop for IdentityComparison {
    open spec fn spec_name(&self) -> Seq<char> {
        "Lint/IdentityComparison"@
    }

    open spec fn spec_category(&self) -> Category {
        Category::Lint
    }

    open spec fn spec_severity(&self) -> Severity {
        Severity::Warning
    }

    open spec fn spec_check(&self, src: SourceView) -> Seq<FindingView> {
        seq![]
    }

    fn name(&self) -> (r: &str) {
        "Lint/IdentityComparison"
    }

    fn category(&self) -> (r: Category) {
        Category::Lint
    }

    fn severity(&self) -> (r: Severity) {
        Severity::Warning
    }

    open spec fn spec_description(&self) -> Seq<char> {
        "Identity comparison issue"@
    }

    fn description(&self) -> (r: &str) {
        "Identity comparison issue"
    }

    fn check(&self, source: &SourceFile) -> (r: Vec<Offense>) {
        report(self.name(), self.severity(), Vec::new())
    }
}

/// Implicit string concatenation
pub struct ImplicitStringConcatenation;

impl Cop for ImplicitStringConcatenation {
    open spec fn spec_name(&self) -> Seq<char> {
        "Lint/ImplicitStringConcatenation"@
    }

    open spec fn spec_category(&self) -> Category {
        Category::Lint
    }

    open spec fn spec_severity(&self) -> Severity {
        Severity::Warning
    }

    open spec fn spec_check(&self, src: SourceView) -> Seq<FindingView> {
        seq![]
    }

    fn name(&self) -> (r: &str) {
        "Lint/ImplicitStringConcatenation"
    }

    fn category(&self) -> (r: Category) {
        Category::Lint
    }

    fn severity(&self) -> (r: Severity) {
        Severity::Warning
    }

    open spec fn spec_description(&self) -> Seq<char> {
        "Implicit string concatenation"@
    }

    fn description(&self) -> (r: &str) {
        "Implicit string concatenation"
    }

    fn check(&self, source: &SourceFile) -> (r: Vec<Offense>) {
        report(self.name(), self.severity(), Vec::new())
    }
}

/// Inherit from StandardError not Exception
pub struct InheritException;

impl Cop for InheritException {
    open spec fn spec_name(&self) -> Seq<char> {
        "Lint/InheritException"@
    }

    open spec fn spec_category(&self) -> Category {
        Category::Lint
    }

    open spec fn spec_severity(&self) -> Severity {
        Severity::Warning
    }

    open spec fn spec_check(&self, src: SourceView) -> Seq<FindingView> {
        seq![]
    }

    fn name(&self) -> (r: &str) {
        "Lint/InheritException"
    }

    fn category(&self) -> (r: Category) {
        Category::Lint
    }

    fn severity(&self) -> (r: Severity) {
        Severity::Warning
    }

    open spec fn spec_description(&self) -> Seq<char> {
        "Inherit from StandardError not Exception"@
    }

    fn description(&self) -> (r: &str) {
        "Inherit from StandardError not Exception"
    }

    fn check(&self, source: &SourceFile) -> (r: Vec<Offense>) {
        report(self.name(), self.severity(), Vec::new())
    }
}

/// Literal in interpolation
pub struct LiteralInInterpolation;

impl Cop for LiteralInInterpolation {
    open spec fn spec_name(&self) -> Seq<char> {
        "Lint/LiteralInInterpolation"@
    }

    open spec fn spec_category(&self) -> Category {
        Category::Lint
    }

    open spec fn spec_severity(&self) -> Severity {
        Severity::Warning
    }

    open spec fn spec_check(&self, src: SourceView) -> Seq<FindingView> {
        seq![]
    }

    fn name(&self) -> (r: &str) {
        "Lint/LiteralInInterpolation"
    }

    fn category(&self) -> (r: Category) {
        Category::Lint
    }

    fn severity(&self) -> (r: Severity) {
        Severity::Warning
    }

    open spec fn spec_description(&self) -> Seq<char> {
        "Literal in interpolation"@
    }

    fn description(&self) -> (r: &str) {
        "Literal in interpolation"
    }

    fn check(&self, source: &SourceFile) -> (r: Vec<Offense>) {
        report(self.name(), self.severity(), Vec::new())
    }
}

/// Detects `while true` and `until false`; `loop` replaces them.
pub struct Loop;

impl Cop for Loop {
    open spec fn spec_name(&self) -> Seq<char> {
        "Lint/Loop"@
    }

    open spec fn spec_category(&self) -> Category {
        Category::Lint
    }

    open spec fn spec_severity(&self) -> Severity {
        Severity::Warning
    }

    open spec fn spec_check(&self, src: SourceView) -> Seq<FindingView> {
        matches_outside(src, r"\b(while\s+true|until\s+false)\b"@, None, bytes_of("Use `loop` instead of `while true` or `until false`."))
    }

    fn name(&self) -> (r: &str) {
        "Lint/Loop"
    }

    fn category(&self) -> (r: Category) {
        Category::Lint
    }

    fn severity(&self) -> (r: Severity) {
        Severity::Warning
    }

    open spec fn spec_description(&self) -> Seq<char> {
        "Use `loop` instead of `while true`"@
    }

    fn description(&self) -> (r: &str) {
        "Use `loop` instead of `while true`"
    }

    fn check(&self, source: &SourceFile) -> (r: Vec<Offense>) {
        let fs = scan_matches_outside(source, r"\b(while\s+true|until\s+false)\b", None, "Use `loop` instead of `while true` or `until false`.");
        report(self.name(), self.severity(), fs)
    }
}

/// Missing super call
pub struct MissingSuper;

impl Cop for MissingSuper {
    open spec fn spec_name(&self) -> Seq<char> {
        "Lint/MissingSuper"@
    }

    open spec fn spec_category(&self) -> Category {
        Category::Lint
    }

    open spec fn spec_severity(&self) -> Severity {
        Severity::Warning
    }

    open spec fn spec_check(&self, src: SourceView) -> Seq<FindingView> {
        seq![]
    }

    fn name(&self) -> (r: &str) {
        "Lint/MissingSuper"
    }

    fn category(&self) -> (r: Category) {
        Category::Lint
    }

    fn severity(&self) -> (r: Severity) {
        Severity::Warning
    }

    open spec fn spec_description(&self) -> Seq<char> {
        "Missing super call"@
    }

    fn description(&self) -> (r: &str) {
        "Missing super call"
    }

    fn check(&self, source: &SourceFile) -> (r: Vec<Offense>) {
        report(self.name(), self.severity(), Vec::new())
    }
}

/// Method defined inside method
pub struct NestedMethodDefinition;

impl Cop for NestedMethodDefinition {
    open spec fn spec_name(&self) -> Seq<char> {
        "Lint/NestedMethodDefinition"@
    }

    open spec fn spec_category(&self) -> Category {
        Category::Lint
    }

    open spec fn spec_severity(&self) -> Severity {
        Severity::Warning
    }

    open spec fn spec_check(&self, src: SourceView) -> Seq<FindingView> {
        seq![]
    }

    fn name(&self) -> (r: &str) {
        "Lint/NestedMethodDefinition"
    }

    fn category(&self) -> (r: Category) {
        Category::Lint
    }

    fn severity(&self) -> (r: Severity) {
        Severity::Warning
    }

    open spec fn spec_description(&self) -> Seq<char> {
        "Method defined inside method"@
    }

    fn description(&self) -> (r: &str) {
        "Method defined inside method"
    }

    fn check(&self, source: &SourceFile) -> (r: Vec<Offense>) {
        report(self.name(), self.severity(), Vec::new())
    }
}

/// Nested percent literal
pub struct NestedPercentLiteral;

impl Cop for NestedPercentLiteral {
    open spec fn spec_name(&self) -> Seq<char> {
        "Lint/NestedPercentLiteral"@
    }

    open spec fn spec_category(&self) -> Category {
        Category::Lint
    }

    open spec fn spec_severity(&self) -> Severity {
        Severity::Warning
    }

    open spec fn spec_check(&self, src: SourceView) -> Seq<FindingView> {
        seq![]
    }

    fn name(&self) -> (r: &str) {
        "Lint/NestedPercentLiteral"
    }

    fn category(&self) -> (r: Category) {
        Category::Lint
    }

    fn severity(&self) -> (r: Severity) {
        Severity::Warning
    }

    open spec fn spec_description(&self) -> Seq<char> {
        "Nested percent literal"@
    }

    fn description(&self) -> (r: &str) {
        "Nested percent literal"
    }

    fn check(&self, source: &SourceFile) -> (r: Vec<Offense>) {
        report(self.name(), self.severity(), Vec::new())
    }
}

/// Return from block
pub struct NonLocalExitFromIterator;

impl Cop for NonLocalExitFromIterator {
    open spec fn spec_name(&self) -> Seq<char> {
        "Lint/NonLocalExitFromIterator"@
    }

    open spec fn spec_category(&self) -> Category {
        Category::Lint
    }

    open spec fn spec_severity(&self) -> Severity {
        Severity::Warning
    }

    open spec fn spec_check(&self, src: SourceView) -> Seq<FindingView> {
        seq![]
    }

    fn name(&self) -> (r: &str) {
        "Lint/NonLocalExitFromIterator"
    }

    fn category(&self) -> (r: Category) {
        Category::Lint
    }

    fn severity(&self) -> (r: Severity) {
        Severity::Warning
    }

    open spec fn spec_description(&self) -> Seq<char> {
        "Return from block"@
    }

    fn description(&self) -> (r: &str) {
        "Return from block"
    }

    fn check(&self, source: &SourceFile) -> (r: Vec<Offense>) {
        report(self.name(), self.severity(), Vec::new())
    }
}

/// Use Integer() not .to_i
pub struct NumberConversion;

impl Cop for NumberConversion {
    open spec fn spec_name(&self) -> Seq<char> {
        "Lint/NumberConversion"@
    }

    open spec fn spec_category(&self) -> Category {
        Category::Lint
    }

    open spec fn spec_severity(&self) -> Severity {
        Severity::Warning
    }

    open spec fn spec_check(&self, src: SourceView) -> Seq<FindingView> {
        seq![]
    }

    fn name(&self) -> (r: &str) {
        "Lint/NumberConversion"
    }

    fn category(&self) -> (r: Category) {
        Category::Lint
    }

    fn severity(&self) -> (r: Severity) {
        Severity::Warning
    }

    open spec fn spec_description(&self) -> Seq<char> {
        "Use Integer() not .to_i"@
    }

    fn description(&self) -> (r: &str) {
        "Use Integer() not .to_i"
    }

    fn check(&self, source: &SourceFile) -> (r: Vec<Offense>) {
        report(self.name(), self.severity(), Vec::new())
    }
}

/// Or-assignment to constant
pub struct OrAssignmentToConstant;

impl Cop for OrAssignmentToConstant {
    open spec fn spec_name(&self) -> Seq<char> {
        "Lint/OrAssignmentToConstant"@
    }

    open spec fn spec_category(&self) -> Category {
        Category::Lint
    }

    open spec fn spec_severity(&self) -> Severity {
        Severity::Warning
    }

    open spec fn spec_check(&self, src: SourceView) -> Seq<FindingView> {
        seq![]
    }

    fn name(&self) -> (r: &str) {
        "Lint/OrAssignmentToConstant"
    }

    fn category(&self) -> (r: Category) {
        Category::Lint
    }

    fn severity(&self) -> (r: Severity) {
        Severity::Warning
    }

    open spec fn spec_description(&self) -> Seq<char> {
        "Or-assignment to constant"@
    }

    fn description(&self) -> (r: &str) {
        "Or-assignment to constant"
    }

    fn check(&self, source: &SourceFile) -> (r: Vec<Offense>) {
        report(self.name(), self.severity(), Vec::new())
    }
}

/// Magic comments in wrong order
pub struct OrderedMagicComments;

impl Cop for OrderedMagicComments {
    open spec fn spec_name(&self) -> Seq<char> {
        "Lint/OrderedMagicComments"@
    }

    open spec fn spec_category(&self) -> Category {
        Category::Lint
    }

    open spec fn spec_severity(&self) -> Severity {
        Severity::Warning
    }

    open spec fn spec_check(&self, src: SourceView) -> Seq<FindingView> {
        seq![]
    }

    fn name(&self) -> (r: &str) {
        "Lint/OrderedMagicComments"
    }

    fn category(&self) -> (r: Category) {
        Category::Lint
    }

    fn severity(&self) -> (r: Severity) {
        Severity::Warning
    }

    open spec fn spec_description(&self) -> Seq<char> {
        "Magic comments in wrong order"@
    }

    fn description(&self) -> (r: &str) {
        "Magic comments in wrong order"
    }

    fn check(&self, source: &SourceFile) -> (r: Vec<Offense>) {
        report(self.name(), self.severity(), Vec::new())
    }
}

/// Ambiguous parentheses
pub struct ParenthesesAsGroupedExpression;

impl Cop for ParenthesesAsGroupedExpression {
    open spec fn spec_name(&self) -> Seq<char> {
        "Lint/ParenthesesAsGroupedExpression"@
    }

    open spec fn spec_category(&self) -> Category {
        Category::Lint
    }

    open spec fn spec_severity(&self) -> Severity {
        Severity::Warning
    }

    open spec fn spec_check(&self, src: SourceView) -> Seq<FindingView> {
        seq![]
    }

    fn name(&self) -> (r: &str) {
        "Lint/ParenthesesAsGroupedExpression"
    }

    fn category(&self) -> (r: Category) {
        Category::Lint
    }

    fn severity(&self) -> (r: Severity) {
        Severity::Warning
    }

    open spec fn spec_description(&self) -> Seq<char> {
        "Ambiguous parentheses"@
    }

    fn description(&self) -> (r: &str) {
        "Ambiguous parentheses"
    }

    fn check(&self, source: &SourceFile) -> (r: Vec<Offense>) {
        report(self.name(), self.severity(), Vec::new())
    }
}

/// Percent string array issue
pub struct PercentStringArray;

impl Cop for PercentStringArray {
    open spec fn spec_name(&self) -> Seq<char> {
        "Lint/PercentStringArray"@
    }

    open spec fn spec_category(&self) -> Category {
        Category::Lint
    }

    open spec fn spec_severity(&self) -> Severity {
        Severity::Warning
    }

    open spec fn spec_check(&self, src: SourceView) -> Seq<FindingView> {
        seq![]
    }

    fn name(&self) -> (r: &str) {
        "Lint/PercentStringArray"
    }

    fn category(&self) -> (r: Category) {
        Category::Lint
    }

    fn severity(&self) -> (r: Severity) {
        Severity::Warning
    }

    open spec fn spec_description(&self) -> Seq<char> {
        "Percent string array issue"@
    }

    fn description(&self) -> (r: &str) {
        "Percent string array issue"
    }

    fn check(&self, source: &SourceFile) -> (r: Vec<Offense>) {
        report(self.name(), self.severity(), Vec::new())
    }
}

/// Percent symbol array issue
pub struct PercentSymbolArray;

impl Cop for PercentSymbolArray {
    open spec fn spec_name(&self) -> Seq<char> {
        "Lint/PercentSymbolArray"@
    }

    open spec fn spec_category(&self) -> Category {
        Category::Lint
    }

    open spec fn spec_severity(&self) -> Severity {
        Severity::Warning
    }

    open spec fn spec_check(&self, src: SourceView) -> Seq<FindingView> {
        seq![]
    }

    fn name(&self) -> (r: &str) {
        "Lint/PercentSymbolArray"
    }

    fn category(&self) -> (r: Category) {
        Category::Lint
    }

    fn severity(&self) -> (r: Severity) {
        Severity::Warning
    }

    open spec fn spec_description(&self) -> Seq<char> {
        "Percent symbol array issue"@
    }

    fn description(&self) -> (r: &str) {
        "Percent symbol array issue"
    }

    fn check(&self, source: &SourceFile) -> (r: Vec<Offense>) {
        report(self.name(), self.severity(), Vec::new())
    }
}

/// Raise StandardError not Exception
pub struct RaiseException;

impl Cop for RaiseException {
    open spec fn spec_name(&self) -> Seq<char> {
        "Lint/RaiseException"@
    }

    open spec fn spec_category(&self) -> Category {
        Category::Lint
    }

    open spec fn spec_severity(&self) -> Severity {
        Severity::Warning
    }

    open spec fn spec_check(&self, src: SourceView) -> Seq<FindingView> {
        seq![]
    }

    fn name(&self) -> (r: &str) {
        "Lint/RaiseException"
    }

    fn category(&self) -> (r: Category) {
        Category::Lint
    }

    fn severity(&self) -> (r: Severity) {
        Severity::Warning
    }

    open spec fn spec_description(&self) -> Seq<char> {
        "Raise StandardError not Exception"@
    }

    fn description(&self) -> (r: &str) {
        "Raise StandardError not Exception"
    }

    fn check(&self, source: &SourceFile) -> (r: Vec<Offense>) {
        report(self.name(), self.severity(), Vec::new())
    }
}

/// Detects `rand(1)`, which always returns 0.
pub struct RandOne;

impl Cop for RandOne {
    open spec fn spec_name(&self) -> Seq<char> {
        "Lint/RandOne"@
    }

    open spec fn spec_category(&self) -> Category {
        Category::Lint
    }

    open spec fn spec_severity(&self) -> Severity {
        Severity::Warning
    }

    open spec fn spec_check(&self, src: SourceView) -> Seq<FindingView> {
        matches_outside(src, r"\brand\(1\)"@, None, bytes_of("`rand(1)` always returns 0."))
    }

    fn name(&self) -> (r: &str) {
        "Lint/RandOne"
    }

    fn category(&self) -> (r: Category) {
        Category::Lint
    }

    fn severity(&self) -> (r: Severity) {
        Severity::Warning
    }

    open spec fn spec_description(&self) -> Seq<char> {
        "rand(1) always returns 0"@
    }

    fn description(&self) -> (r: &str) {
        "rand(1) always returns 0"
    }

    fn check(&self, source: &SourceFile) -> (r: Vec<Offense>) {
        let fs = scan_matches_outside(source, r"\brand\(1\)", None, "`rand(1)` always returns 0.");
        report(self.name(), self.severity(), fs)
    }
}

/// Redundant cop disable
pub struct RedundantCopDisableDirective;

impl Cop for RedundantCopDisableDirective {
    open spec fn spec_name(&self) -> Seq<char> {
        "Lint/RedundantCopDisableDirective"@
    }

    open spec fn spec_category(&self) -> Category {
        Category::Lint
    }

    open spec fn spec_severity(&self) -> Severity {
        Severity::Warning
    }

    open spec fn spec_check(&self, src: SourceView) -> Seq<FindingView> {
        seq![]
    }

    fn name(&self) -> (r: &str) {
        "Lint/RedundantCopDisableDirective"
    }

    fn category(&self) -> (r: Category) {
        Category::Lint
    }

    fn severity(&self) -> (r: Severity) {
        Severity::Warning
    }

    open spec fn spec_description(&self) -> Seq<char> {
        "Redundant cop disable"@
    }

    fn description(&self) -> (r: &str) {
        "Redundant cop disable"
    }

    fn check(&self, source: &SourceFile) -> (r: Vec<Offense>) {
        report(self.name(), self.severity(), Vec::new())
    }
}

/// Redundant require
pub struct RedundantRequireStatement;

impl Cop for RedundantRequireStatement {
    open spec fn spec_name(&self) -> Seq<char> {
        "Lint/RedundantRequireStatement"@
    }

    open spec fn spec_category(&self) -> Category {
        Category::Lint
    }

    open spec fn spec_severity(&self) -> Severity {
        Severity::Warning
    }

    open spec fn spec_check(&self, src: SourceView) -> Seq<FindingView> {
        seq![]
    }

    fn name(&self) -> (r: &str) {
        "Lint/RedundantRequireStatement"
    }

    fn category(&self) -> (r: Category) {
        Category::Lint
    }

    fn severity(&self) -> (r: Severity) {
        Severity::Warning
    }

    open spec fn spec_description(&self) -> Seq<char> {
        "Redundant require"@
    }

    fn description(&self) -> (r: &str) {
        "Redundant require"
    }

    fn check(&self, source: &SourceFile) -> (r: Vec<Offense>) {
        report(self.name(), self.severity(), Vec::new())
    }
}

impl MatchCond for RedundantStringCoercion {
    /// Every match counts, also inside strings.
    open spec fn spec_ok(&self, src: SourceView, i: int, m: Seq<Option<(int, int)>>) -> bool {
        true
    }

    fn ok(&self, src: &SourceFile, i: usize, m: &Vec<Option<(usize, usize)>>) -> (r: bool) {
        true
    }
}

/// Detects `.to_s` inside string interpolation.
pub struct RedundantStringCoercion;

impl Cop for RedundantStringCoercion {
    open spec fn spec_name(&self) -> Seq<char> {
        "Lint/RedundantStringCoercion"@
    }

    open spec fn spec_category(&self) -> Category {
        Category::Lint
    }

    open spec fn spec_severity(&self) -> Severity {
        Severity::Warning
    }

    open spec fn spec_check(&self, src: SourceView) -> Seq<FindingView> {
        cond_matches(self, src, r"#\{([a-z_][a-z0-9_]*)\.to_s\}"@, None, bytes_of("Redundant `.to_s` in string interpolation."))
    }

    fn name(&self) -> (r: &str) {
        "Lint/RedundantStringCoercion"
    }

    fn category(&self) -> (r: Category) {
        Category::Lint
    }

    fn severity(&self) -> (r: Severity) {
        Severity::Warning
    }

    open spec fn spec_description(&self) -> Seq<char> {
        "Redundant .to_s in interpolation"@
    }

    fn description(&self) -> (r: &str) {
        "Redundant .to_s in interpolation"
    }

    fn check(&self, source: &SourceFile) -> (r: Vec<Offense>) {
        let fs = scan_cond_matches(self, source, r"#\{([a-z_][a-z0-9_]*)\.to_s\}", None, "Redundant `.to_s` in string interpolation.");
        report(self.name(), self.severity(), fs)
    }
}

/// Redundant with_index(0)
pub struct RedundantWithIndex;

impl Cop for RedundantWithIndex {
    open spec fn spec_name(&self) -> Seq<char> {
        "Lint/RedundantWithIndex"@
    }

    open spec fn spec_category(&self) -> Category {
        Category::Lint
    }

    open spec fn spec_severity(&self) -> Severity {
        Severity::Warning
    }

    open spec fn spec_check(&self, src: SourceView) -> Seq<FindingView> {
        seq![]
    }

    fn name(&self) -> (r: &str) {
        "Lint/RedundantWithIndex"
    }

    fn category(&self) -> (r: Category) {
        Category::Lint
    }

    fn severity(&self) -> (r: Severity) {
        Severity::Warning
    }

    open spec fn spec_description(&self) -> Seq<char> {
        "Redundant with_index(0)"@
    }

    fn description(&self) -> (r: &str) {
        "Redundant with_index(0)"
    }

    fn check(&self, source: &SourceFile) -> (r: Vec<Offense>) {
        report(self.name(), self.severity(), Vec::new())
    }
}

/// Redundant with_object
pub struct RedundantWithObject;

impl Cop for RedundantWithObject {
    open spec fn spec_name(&self) -> Seq<char> {
        "Lint/RedundantWithObject"@
    }

    open spec fn spec_category(&self) -> Category {
        Category::Lint
    }

    open spec fn spec_severity(&self) -> Severity {
        Severity::Warning
    }

    open spec fn spec_check(&self, src: SourceView) -> Seq<FindingView> {
        seq![]
    }

    fn name(&self) -> (r: &str) {
        "Lint/RedundantWithObject"
    }

    fn category(&self) -> (r: Category) {
        Category::Lint
    }

    fn severity(&self) -> (r: Severity) {
        Severity::Warning
    }

    open spec fn spec_description(&self) -> Seq<char> {
        "Redundant with_object"@
    }

    fn description(&self) -> (r: &str) {
        "Redundant with_object"
    }

    fn check(&self, source: &SourceFile) -> (r: Vec<Offense>) {
        report(self.name(), self.severity(), Vec::new())
    }
}

/// Regexp used as condition
pub struct RegexpAsCondition;

impl Cop for RegexpAsCondition {
    open spec fn spec_name(&self) -> Seq<char> {
        "Lint/RegexpAsCondition"@
    }

    open spec fn spec_category(&self) -> Category {
        Category::Lint
    }

    open spec fn spec_severity(&self) -> Severity {
        Severity::Warning
    }

    open spec fn spec_check(&self, src: SourceView) -> Seq<FindingView> {
        seq![]
    }

    fn name(&self) -> (r: &str) {
        "Lint/RegexpAsCondition"
    }

    fn category(&self) -> (r: Category) {
        Category::Lint
    }

    fn severity(&self) -> (r: Severity) {
        Severity::Warning
    }

    open spec fn spec_description(&self) -> Seq<char> {
        "Regexp used as condition"@
    }

    fn description(&self) -> (r: &str) {
        "Regexp used as condition"
    }

    fn check(&self, source: &SourceFile) -> (r: Vec<Offense>) {
        report(self.name(), self.severity(), Vec::new())
    }
}

/// Detects rescuing `Exception` or `StandardError` by name.
pub struct RescueException;

impl Cop for RescueException {
    open spec fn spec_name(&self) -> Seq<char> {
        "Lint/RescueException"@
    }

    open spec fn spec_category(&self) -> Category {
        Category::Lint
    }

    open spec fn spec_severity(&self) -> Severity {
        Severity::Warning
    }

    open spec fn spec_check(&self, src: SourceView) -> Seq<FindingView> {
        matches_outside(src, r"\brescue\s+(Exception|StandardError)\b"@, None, bytes_of("Rescuing `Exception` is too broad. Rescue specific exceptions."))
    }

    fn name(&self) -> (r: &str) {
        "Lint/RescueException"
    }

    fn category(&self) -> (r: Category) {
        Category::Lint
    }

    fn severity(&self) -> (r: Severity) {
        Severity::Warning
    }

    open spec fn spec_description(&self) -> Seq<char> {
        "Rescuing Exception is too broad"@
    }

    fn description(&self) -> (r: &str) {
        "Rescuing Exception is too broad"
    }

    fn check(&self, source: &SourceFile) -> (r: Vec<Offense>) {
        let fs = scan_matches_outside(source, r"\brescue\s+(Exception|StandardError)\b", None, "Rescuing `Exception` is too broad. Rescue specific exceptions.");
        report(self.name(), self.severity(), fs)
    }
}

/// Wrong type in rescue
pub struct RescueType;

impl Cop for RescueType {
    open spec fn spec_name(&self) -> Seq<char> {
        "Lint/RescueType"@
    }

    open spec fn spec_category(&self) -> Category {
        Category::Lint
    }

    open spec fn spec_severity(&self) -> Severity {
        Severity::Warning
    }

    open spec fn spec_check(&self, src: SourceView) -> Seq<FindingView> {
        seq![]
    }

    fn name(&self) -> (r: &str) {
        "Lint/RescueType"
    }

    fn category(&self) -> (r: Category) {
        Category::Lint
    }

    fn severity(&self) -> (r: Severity) {
        Severity::Warning
    }

    open spec fn spec_description(&self) -> Seq<char> {
        "Wrong type in rescue"@
    }

    fn description(&self) -> (r: &str) {
        "Wrong type in rescue"
    }

    fn check(&self, source: &SourceFile) -> (r: Vec<Offense>) {
        report(self.name(), self.severity(), Vec::new())
    }
}

/// Return in void context
pub struct ReturnInVoidContext;

impl Cop for ReturnInVoidContext {
    open spec fn spec_name(&self) -> Seq<char> {
        "Lint/ReturnInVoidContext"@
    }

    open spec fn spec_category(&self) -> Category {
        Category::Lint
    }

    open spec fn spec_severity(&self) -> Severity {
        Severity::Warning
    }

    open spec fn spec_check(&self, src: SourceView) -> Seq<FindingView> {
        seq![]
    }

    fn name(&self) -> (r: &str) {
        "Lint/ReturnInVoidContext"
    }

    fn category(&self) -> (r: Category) {
        Category::Lint
    }

    fn severity(&self) -> (r: Severity) {
        Severity::Warning
    }

    open spec fn spec_description(&self) -> Seq<char> {
        "Return in void context"@
    }

    fn description(&self) -> (r: &str) {
        "Return in void context"
    }

    fn check(&self, source: &SourceFile) -> (r: Vec<Offense>) {
        report(self.name(), self.severity(), Vec::new())
    }
}

/// Safe navigation chain issue
pub struct SafeNavigationChain;

impl Cop for SafeNavigationChain {
    open spec fn spec_name(&self) -> Seq<char> {
        "Lint/SafeNavigationChain"@
    }

    open spec fn spec_category(&self) -> Category {
        Category::Lint
    }

    open spec fn spec_severity(&self) -> Severity {
        Severity::Warning
    }

    open spec fn spec_check(&self, src: SourceView) -> Seq<FindingView> {
        seq![]
    }

    fn name(&self) -> (r: &str) {
        "Lint/SafeNavigationChain"
    }

    fn category(&self) -> (r: Category) {
        Category::Lint
    }

    fn severity(&self) -> (r: Severity) {
        Severity::Warning
    }

    open spec fn spec_description(&self) -> Seq<char> {
        "Safe navigation chain issue"@
    }

    fn description(&self) -> (r: &str) {
        "Safe navigation chain issue"
    }

    fn check(&self, source: &SourceFile) -> (r: Vec<Offense>) {
        report(self.name(), self.severity(), Vec::new())
    }
}

/// Script permission issue
pub struct ScriptPermission;

impl Cop for ScriptPermission {
    open spec fn spec_name(&self) -> Seq<char> {
        "Lint/ScriptPermission"@
    }

    open spec fn spec_category(&self) -> Category {
        Category::Lint
    }

    open spec fn spec_severity(&self) -> Severity {
        Severity::Warning
    }

    open spec fn spec_check(&self, src: SourceView) -> Seq<FindingView> {
        seq![]
    }

    fn name(&self) -> (r: &str) {
        "Lint/ScriptPermission"
    }

    fn category(&self) -> (r: Category) {
        Category::Lint
    }

    fn severity(&self) -> (r: Severity) {
        Severity::Warning
    }

    open spec fn spec_description(&self) -> Seq<char> {
        "Script permission issue"@
    }

    fn description(&self) -> (r: &str) {
        "Script permission issue"
    }

    fn check(&self, source: &SourceFile) -> (r: Vec<Offense>) {
        report(self.name(), self.severity(), Vec::new())
    }
}

impl MatchRule for SelfAssignment {
    /// An assignment of a name to itself, outside strings and comments.
    open spec fn spec_match(&self, src: SourceView, i: int, m: Seq<Option<(int, int)>>) -> Seq<FindingView> {
        let l = src.lines[i];
        whole_finding(i, m, group_bytes(l, m, 1) == group_bytes(l, m, 2) && !src.in_string_or_comment(i + 1, whole(m).0 + 1), bytes_of("Self-assignment detected: `") + group_bytes(l, m, 0) + bytes_of("`"))
    }

    fn match_findings(&self, src: &SourceFile, i: usize, m: &Vec<Option<(usize, usize)>>) -> (r: Vec<Finding>) {
        let l = src.line_at(i);
        let (s, _e) = whole_exec(m, l.len());
        let hit = bytes_eq(group_bytes_exec(l, m, 1), group_bytes_exec(l, m, 2)) && !src.in_string_or_comment(i + 1, s + 1);
        let mut msg = Message::from_str("Self-assignment detected: `");
        msg.push_bytes(group_bytes_exec(l, m, 0));
        msg.push_str("`");
        whole_finding_exec(i, m, l.len(), hit, msg)
    }
}

impl LineRule for SelfAssignment {
    open spec fn spec_line(&self, src: SourceView, i: int) -> Seq<FindingView> {
        all_matches(self, src, i, regex_captures(r"\b([a-z_][a-z0-9_]*)\s*=\s*([a-z_][a-z0-9_]*)\b"@, src.lines[i]))
    }

    fn line_findings(&self, src: &SourceFile, i: usize) -> (r: Vec<Finding>) {
        let ms = captures_all(r"\b([a-z_][a-z0-9_]*)\s*=\s*([a-z_][a-z0-9_]*)\b", src.line_at(i));
        run_matches(self, src, i, &ms)
    }
}

/// Detects `x = x`.
pub struct SelfAssignment;

impl Cop for SelfAssignment {
    open spec fn spec_name(&self) -> Seq<char> {
        "Lint/SelfAssignment"@
    }

    open spec fn spec_category(&self) -> Category {
        Category::Lint
    }

    open spec fn spec_severity(&self) -> Severity {
        Severity::Warning
    }

    open spec fn spec_check(&self, src: SourceView) -> Seq<FindingView> {
        all_lines(self, src)
    }

    fn name(&self) -> (r: &str) {
        "Lint/SelfAssignment"
    }

    fn category(&self) -> (r: Category) {
        Category::Lint
    }

    fn severity(&self) -> (r: Severity) {
        Severity::Warning
    }

    open spec fn spec_description(&self) -> Seq<char> {
        "Self-assignment detected"@
    }

    fn description(&self) -> (r: &str) {
        "Self-assignment detected"
    }

    fn check(&self, source: &SourceFile) -> (r: Vec<Offense>) {
        report(self.name(), self.severity(), run_lines(self, source))
    }
}

/// Shadowed exception in rescue
pub struct ShadowedException;

impl Cop for ShadowedException {
    open spec fn spec_name(&self) -> Seq<char> {
        "Lint/ShadowedException"@
    }

    open spec fn spec_category(&self) -> Category {
        Category::Lint
    }

    open spec fn spec_severity(&self) -> Severity {
        Severity::Warning
    }

    open spec fn spec_check(&self, src: SourceView) -> Seq<FindingView> {
        seq![]
    }

    fn name(&self) -> (r: &str) {
        "Lint/ShadowedException"
    }

    fn category(&self) -> (r: Category) {
        Category::Lint
    }

    fn severity(&self) -> (r: Severity) {
        Severity::Warning
    }

    open spec fn spec_description(&self) -> Seq<char> {
        "Shadowed exception in rescue"@
    }

    fn description(&self) -> (r: &str) {
        "Shadowed exception in rescue"
    }

    fn check(&self, source: &SourceFile) -> (r: Vec<Offense>) {
        report(self.name(), self.severity(), Vec::new())
    }
}

/// Shadowing outer variable
pub struct ShadowingOuterLocalVariable;

impl Cop for ShadowingOuterLocalVariable {
    open spec fn spec_name(&self) -> Seq<char> {
        "Lint/ShadowingOuterLocalVariable"@
    }

    open spec fn spec_category(&self) -> Category {
        Category::Lint
    }

    open spec fn spec_severity(&self) -> Severity {
        Severity::Warning
    }

    open spec fn spec_check(&self, src: SourceView) -> Seq<FindingView> {
        seq![]
    }

    fn name(&self) -> (r: &str) {
        "Lint/ShadowingOuterLocalVariable"
    }

    fn category(&self) -> (r: Category) {
        Category::Lint
    }

    fn severity(&self) -> (r: Severity) {
        Severity::Warning
    }

    open spec fn spec_description(&self) -> Seq<char> {
        "Shadowing outer variable"@
    }

    fn description(&self) -> (r: &str) {
        "Shadowing outer variable"
    }

    fn check(&self, source: &SourceFile) -> (r: Vec<Offense>) {
        report(self.name(), self.severity(), Vec::new())
    }
}

impl LineRule for SuppressedException {
    /// A line that is a bare `rescue`, over the whole line.
    open spec fn spec_line(&self, src: SourceView, i: int) -> Seq<FindingView> {
        one_if(trim(src.lines[i]) == bytes_of("rescue"), finding(i + 1, 1, src.lines[i].len() as int, bytes_of("Empty rescue suppresses exceptions. Handle or log them.")))
    }

    fn line_findings(&self, src: &SourceFile, i: usize) -> (r: Vec<Finding>) {
        let l = src.line_at(i);
        let mut out: Vec<Finding> = Vec::new();
        push_if(&mut out, eq_str(trim_exec(l), "rescue"), Finding::text(i + 1, 1, l.len(), "Empty rescue suppresses exceptions. Handle or log them."));
        out
    }
}

/// Detects a bare `rescue` that swallows exceptions.
pub struct SuppressedException;

impl Cop for SuppressedException {
    open spec fn spec_name(&self) -> Seq<char> {
        "Lint/SuppressedException"@
    }

    open spec fn spec_category(&self) -> Category {
        Category::Lint
    }

    open spec fn spec_severity(&self) -> Severity {
        Severity::Warning
    }

    open spec fn spec_check(&self, src: SourceView) -> Seq<FindingView> {
        all_lines(self, src)
    }

    fn name(&self) -> (r: &str) {
        "Lint/SuppressedException"
    }

    fn category(&self) -> (r: Category) {
        Category::Lint
    }

    fn severity(&self) -> (r: Severity) {
        Severity::Warning
    }

    open spec fn spec_description(&self) -> Seq<char> {
        "Empty rescue suppresses exceptions"@
    }

    fn description(&self) -> (r: &str) {
        "Empty rescue suppresses exceptions"
    }

    fn check(&self, source: &SourceFile) -> (r: Vec<Offense>) {
        report(self.name(), self.severity(), run_lines(self, source))
    }
}

/// Unnecessary symbol conversion
pub struct SymbolConversion;

impl Cop for SymbolConversion {
    open spec fn spec_name(&self) -> Seq<char> {
        "Lint/SymbolConversion"@
    }

    open spec fn spec_category(&self) -> Category {
        Category::Lint
    }

    open spec fn spec_severity(&self) -> Severity {
        Severity::Warning
    }

    open spec fn spec_check(&self, src: SourceView) -> Seq<FindingView> {
        seq![]
    }

    fn name(&self) -> (r: &str) {
        "Lint/SymbolConversion"
    }

    fn category(&self) -> (r: Category) {
        Category::Lint
    }

    fn severity(&self) -> (r: Severity) {
        Severity::Warning
    }

    open spec fn spec_description(&self) -> Seq<char> {
        "Unnecessary symbol conversion"@
    }

    fn description(&self) -> (r: &str) {
        "Unnecessary symbol conversion"
    }

    fn check(&self, source: &SourceFile) -> (r: Vec<Offense>) {
        report(self.name(), self.severity(), Vec::new())
    }
}

/// to_json method signature issue
pub struct ToJSON;

impl Cop for ToJSON {
    open spec fn spec_name(&self) -> Seq<char> {
        "Lint/ToJSON"@
    }

    open spec fn spec_category(&self) -> Category {
        Category::Lint
    }

    open spec fn spec_severity(&self) -> Severity {
        Severity::Warning
    }

    open spec fn spec_check(&self, src: SourceView) -> Seq<FindingView> {
        seq![]
    }

    fn name(&self) -> (r: &str) {
        "Lint/ToJSON"
    }

    fn category(&self) -> (r: Category) {
        Category::Lint
    }

    fn severity(&self) -> (r: Severity) {
        Severity::Warning
    }

    open spec fn spec_description(&self) -> Seq<char> {
        "to_json method signature issue"@
    }

    fn description(&self) -> (r: &str) {
        "to_json method signature issue"
    }

    fn check(&self, source: &SourceFile) -> (r: Vec<Offense>) {
        report(self.name(), self.severity(), Vec::new())
    }
}

/// Return with arg at top level
pub struct TopLevelReturnWithArgument;

impl Cop for TopLevelReturnWithArgument {
    open spec fn spec_name(&self) -> Seq<char> {
        "Lint/TopLevelReturnWithArgument"@
    }

    open spec fn spec_category(&self) -> Category {
        Category::Lint
    }

    open spec fn spec_severity(&self) -> Severity {
        Severity::Warning
    }

    open spec fn spec_check(&self, src: SourceView) -> Seq<FindingView> {
        seq![]
    }

    fn name(&self) -> (r: &str) {
        "Lint/TopLevelReturnWithArgument"
    }

    fn category(&self) -> (r: Category) {
        Category::Lint
    }

    fn severity(&self) -> (r: Severity) {
        Severity::Warning
    }

    open spec fn spec_description(&self) -> Seq<char> {
        "Return with arg at top level"@
    }

    fn description(&self) -> (r: &str) {
        "Return with arg at top level"
    }

    fn check(&self, source: &SourceFile) -> (r: Vec<Offense>) {
        report(self.name(), self.severity(), Vec::new())
    }
}

/// Trailing comma in attr
pub struct TrailingCommaInAttributeDeclaration;

impl Cop for TrailingCommaInAttributeDeclaration {
    open spec fn spec_name(&self) -> Seq<char> {
        "Lint/TrailingCommaInAttributeDeclaration"@
    }

    open spec fn spec_category(&self) -> Category {
        Category::Lint
    }

    open spec fn spec_severity(&self) -> Severity {
        Severity::Warning
    }

    open spec fn spec_check(&self, src: SourceView) -> Seq<FindingView> {
        seq![]
    }

    fn name(&self) -> (r: &str) {
        "Lint/TrailingCommaInAttributeDeclaration"
    }

    fn category(&self) -> (r: Category) {
        Category::Lint
    }

    fn severity(&self) -> (r: Severity) {
        Severity::Warning
    }

    open spec fn spec_description(&self) -> Seq<char> {
        "Trailing comma in attr"@
    }

    fn description(&self) -> (r: &str) {
        "Trailing comma in attr"
    }

    fn check(&self, source: &SourceFile) -> (r: Vec<Offense>) {
        report(self.name(), self.severity(), Vec::new())
    }
}

/// Triple quotes detected
pub struct TripleQuotes;

impl Cop for TripleQuotes {
    open spec fn spec_name(&self) -> Seq<char> {
        "Lint/TripleQuotes"@
    }

    open spec fn spec_category(&self) -> Category {
        Category::Lint
    }

    open spec fn spec_severity(&self) -> Severity {
        Severity::Warning
    }

    open spec fn spec_check(&self, src: SourceView) -> Seq<FindingView> {
        seq![]
    }

    fn name(&self) -> (r: &str) {
        "Lint/TripleQuotes"
    }

    fn category(&self) -> (r: Category) {
        Category::Lint
    }

    fn severity(&self) -> (r: Severity) {
        Severity::Warning
    }

    open spec fn spec_description(&self) -> Seq<char> {
        "Triple quotes detected"@
    }

    fn description(&self) -> (r: &str) {
        "Triple quotes detected"
    }

    fn check(&self, source: &SourceFile) -> (r: Vec<Offense>) {
        report(self.name(), self.severity(), Vec::new())
    }
}

/// Underscore-prefixed var used
pub struct UnderscorePrefixedVariableName;

impl Cop for UnderscorePrefixedVariableName {
    open spec fn spec_name(&self) -> Seq<char> {
        "Lint/UnderscorePrefixedVariableName"@
    }

    open spec fn spec_category(&self) -> Category {
        Category::Lint
    }

    open spec fn spec_severity(&self) -> Severity {
        Severity::Warning
    }

    open spec fn spec_check(&self, src: SourceView) -> Seq<FindingView> {
        seq![]
    }

    fn name(&self) -> (r: &str) {
        "Lint/UnderscorePrefixedVariableName"
    }

    fn category(&self) -> (r: Category) {
        Category::Lint
    }

    fn severity(&self) -> (r: Severity) {
        Severity::Warning
    }

    open spec fn spec_description(&self) -> Seq<char> {
        "Underscore-prefixed var used"@
    }

    fn description(&self) -> (r: &str) {
        "Underscore-prefixed var used"
    }

    fn check(&self, source: &SourceFile) -> (r: Vec<Offense>) {
        report(self.name(), self.severity(), Vec::new())
    }
}

/// Use Integer not Fixnum/Bignum
pub struct UnifiedInteger;

impl Cop for UnifiedInteger {
    open spec fn spec_name(&self) -> Seq<char> {
        "Lint/UnifiedInteger"@
    }

    open spec fn spec_category(&self) -> Category {
        Category::Lint
    }

    open spec fn spec_severity(&self) -> Severity {
        Severity::Warning
    }

    open spec fn spec_check(&self, src: SourceView) -> Seq<FindingView> {
        seq![]
    }

    fn name(&self) -> (r: &str) {
        "Lint/UnifiedInteger"
    }

    fn category(&self) -> (r: Category) {
        Category::Lint
    }

    fn severity(&self) -> (r: Severity) {
        Severity::Warning
    }

    open spec fn spec_description(&self) -> Seq<char> {
        "Use Integer not Fixnum/Bignum"@
    }

    fn description(&self) -> (r: &str) {
        "Use Integer not Fixnum/Bignum"
    }

    fn check(&self, source: &SourceFile) -> (r: Vec<Offense>) {
        report(self.name(), self.severity(), Vec::new())
    }
}

/// Unreachable code after return
pub struct UnreachableCode;

impl Cop for UnreachableCode {
    open spec fn spec_name(&self) -> Seq<char> {
        "Lint/UnreachableCode"@
    }

    open spec fn spec_category(&self) -> Category {
        Category::Lint
    }

    open spec fn spec_severity(&self) -> Severity {
        Severity::Warning
    }

    open spec fn spec_check(&self, src: SourceView) -> Seq<FindingView> {
        seq![]
    }

    fn name(&self) -> (r: &str) {
        "Lint/UnreachableCode"
    }

    fn category(&self) -> (r: Category) {
        Category::Lint
    }

    fn severity(&self) -> (r: Severity) {
        Severity::Warning
    }

    open spec fn spec_description(&self) -> Seq<char> {
        "Unreachable code after return"@
    }

    fn description(&self) -> (r: &str) {
        "Unreachable code after return"
    }

    fn check(&self, source: &SourceFile) -> (r: Vec<Offense>) {
        report(self.name(), self.severity(), Vec::new())
    }
}

/// Loop never repeats
pub struct UnreachableLoop;

impl Cop for UnreachableLoop {
    open spec fn spec_name(&self) -> Seq<char> {
        "Lint/UnreachableLoop"@
    }

    open spec fn spec_category(&self) -> Category {
        Category::Lint
    }

    open spec fn spec_severity(&self) -> Severity {
        Severity::Warning
    }

    open spec fn spec_check(&self, src: SourceView) -> Seq<FindingView> {
        seq![]
    }

    fn name(&self) -> (r: &str) {
        "Lint/UnreachableLoop"
    }

    fn category(&self) -> (r: Category) {
        Category::Lint
    }

    fn severity(&self) -> (r: Severity) {
        Severity::Warning
    }

    open spec fn spec_description(&self) -> Seq<char> {
        "Loop never repeats"@
    }

    fn description(&self) -> (r: &str) {
        "Loop never repeats"
    }

    fn check(&self, source: &SourceFile) -> (r: Vec<Offense>) {
        report(self.name(), self.severity(), Vec::new())
    }
}

/// Unused block argument
pub struct UnusedBlockArgument;

impl Cop for UnusedBlockArgument {
    open spec fn spec_name(&self) -> Seq<char> {
        "Lint/UnusedBlockArgument"@
    }

    open spec fn spec_category(&self) -> Category {
        Category::Lint
    }

    open spec fn spec_severity(&self) -> Severity {
        Severity::Warning
    }

    open spec fn spec_check(&self, src: SourceView) -> Seq<FindingView> {
        seq![]
    }

    fn name(&self) -> (r: &str) {
        "Lint/UnusedBlockArgument"
    }

    fn category(&self) -> (r: Category) {
        Category::Lint
    }

    fn severity(&self) -> (r: Severity) {
        Severity::Warning
    }

    open spec fn spec_description(&self) -> Seq<char> {
        "Unused block argument"@
    }

    fn description(&self) -> (r: &str) {
        "Unused block argument"
    }

    fn check(&self, source: &SourceFile) -> (r: Vec<Offense>) {
        report(self.name(), self.severity(), Vec::new())
    }
}

/// Unused method argument
pub struct UnusedMethodArgument;

impl Cop for UnusedMethodArgument {
    open spec fn spec_name(&self) -> Seq<char> {
        "Lint/UnusedMethodArgument"@
    }

    open spec fn spec_category(&self) -> Category {
        Category::Lint
    }

    open spec fn spec_severity(&self) -> Severity {
        Severity::Warning
    }

    open spec fn spec_check(&self, src: SourceView) -> Seq<FindingView> {
        seq![]
    }

    fn name(&self) -> (r: &str) {
        "Lint/UnusedMethodArgument"
    }

    fn category(&self) -> (r: Category) {
        Category::Lint
    }

    fn severity(&self) -> (r: Severity) {
        Severity::Warning
    }

    open spec fn spec_description(&self) -> Seq<char> {
        "Unused method argument"@
    }

    fn description(&self) -> (r: &str) {
        "Unused method argument"
    }

    fn check(&self, source: &SourceFile) -> (r: Vec<Offense>) {
        report(self.name(), self.severity(), Vec::new())
    }
}

/// Assigned but never used
pub struct UselessAssignment;

impl Cop for UselessAssignment {
    open spec fn spec_name(&self) -> Seq<char> {
        "Lint/UselessAssignment"@
    }

    open spec fn spec_category(&self) -> Category {
        Category::Lint
    }

    open spec fn spec_severity(&self) -> Severity {
        Severity::Warning
    }

    open spec fn spec_check(&self, src: SourceView) -> Seq<FindingView> {
        seq![]
    }

    fn name(&self) -> (r: &str) {
        "Lint/UselessAssignment"
    }

    fn category(&self) -> (r: Category) {
        Category::Lint
    }

    fn severity(&self) -> (r: Severity) {
        Severity::Warning
    }

    open spec fn spec_description(&self) -> Seq<char> {
        "Assigned but never used"@
    }

    fn description(&self) -> (r: &str) {
        "Assigned but never used"
    }

    fn check(&self, source: &SourceFile) -> (r: Vec<Offense>) {
        report(self.name(), self.severity(), Vec::new())
    }
}

/// Method just calls super
pub struct UselessMethodDefinition;

impl Cop for UselessMethodDefinition {
    open spec fn spec_name(&self) -> Seq<char> {
        "Lint/UselessMethodDefinition"@
    }

    open spec fn spec_category(&self) -> Category {
        Category::Lint
    }

    open spec fn spec_severity(&self) -> Severity {
        Severity::Warning
    }

    open spec fn spec_check(&self, src: SourceView) -> Seq<FindingView> {
        seq![]
    }

    fn name(&self) -> (r: &str) {
        "Lint/UselessMethodDefinition"
    }

    fn category(&self) -> (r: Category) {
        Category::Lint
    }

    fn severity(&self) -> (r: Severity) {
        Severity::Warning
    }

    open spec fn spec_description(&self) -> Seq<char> {
        "Method just calls super"@
    }

    fn description(&self) -> (r: &str) {
        "Method just calls super"
    }

    fn check(&self, source: &SourceFile) -> (r: Vec<Offense>) {
        report(self.name(), self.severity(), Vec::new())
    }
}

/// Void value expression
pub struct Void;

impl Cop for Void {
    open spec fn spec_name(&self) -> Seq<char> {
        "Lint/Void"@
    }

    open spec fn spec_category(&self) -> Category {
        Category::Lint
    }

    open spec fn spec_severity(&self) -> Severity {
        Severity::Warning
    }

    open spec fn spec_check(&self, src: SourceView) -> Seq<FindingView> {
        seq![]
    }

    fn name(&self) -> (r: &str) {
        "Lint/Void"
    }

    fn category(&self) -> (r: Category) {
        Category::Lint
    }

    fn severity(&self) -> (r: Severity) {
        Severity::Warning
    }

    open spec fn spec_description(&self) -> Seq<char> {
        "Void value expression"@
    }

    fn description(&self) -> (r: &str) {
        "Void value expression"
    }

    fn check(&self, source: &SourceFile) -> (r: Vec<Offense>) {
        report(self.name(), self.severity(), Vec::new())
    }
}

/// Literal assignment in condition
pub struct LiteralAssignmentInCondition;

impl Cop for LiteralAssignmentInCondition {
    open spec fn spec_name(&self) -> Seq<char> {
        "Lint/LiteralAssignmentInCondition"@
    }

    open spec fn spec_category(&self) -> Category {
        Category::Lint
    }

    open spec fn spec_severity(&self) -> Severity {
        Severity::Warning
    }

    open spec fn spec_check(&self, src: SourceView) -> Seq<FindingView> {
        seq![]
    }

    fn name(&self) -> (r: &str) {
        "Lint/LiteralAssignmentInCondition"
    }

    fn category(&self) -> (r: Category) {
        Category::Lint
    }

    fn severity(&self) -> (r: Severity) {
        Severity::Warning
    }

    open spec fn spec_description(&self) -> Seq<char> {
        "Literal assignment in condition"@
    }

    fn description(&self) -> (r: &str) {
        "Literal assignment in condition"
    }

    fn check(&self, source: &SourceFile) -> (r: Vec<Offense>) {
        report(self.name(), self.severity(), Vec::new())
    }
}

/// Shared mutable default
pub struct SharedMutableDefault;

impl Cop for SharedMutableDefault {
    open spec fn spec_name(&self) -> Seq<char> {
        "Lint/SharedMutableDefault"@
    }

    open spec fn spec_category(&self) -> Category {
        Category::Lint
    }

    open spec fn spec_severity(&self) -> Severity {
        Severity::Warning
    }

    open spec fn spec_check(&self, src: SourceView) -> Seq<FindingView> {
        seq![]
    }

    fn name(&self) -> (r: &str) {
        "Lint/SharedMutableDefault"
    }

    fn category(&self) -> (r: Category) {
        Category::Lint
    }

    fn severity(&self) -> (r: Severity) {
        Severity::Warning
    }

    open spec fn spec_description(&self) -> Seq<char> {
        "Shared mutable default"@
    }

    fn description(&self) -> (r: &str) {
        "Shared mutable default"
    }

    fn check(&self, source: &SourceFile) -> (r: Vec<Offense>) {
        report(self.name(), self.severity(), Vec::new())
    }
}

/// Mixed case in range
pub struct MixedCaseRange;

impl Cop for MixedCaseRange {
    open spec fn spec_name(&self) -> Seq<char> {
        "Lint/MixedCaseRange"@
    }

    open spec fn spec_category(&self) -> Category {
        Category::Lint
    }

    open spec fn spec_severity(&self) -> Severity {
        Severity::Warning
    }

    open spec fn spec_check(&self, src: SourceView) -> Seq<FindingView> {
        seq![]
    }

    fn name(&self) -> (r: &str) {
        "Lint/MixedCaseRange"
    }

    fn category(&self) -> (r: Category) {
        Category::Lint
    }

    fn severity(&self) -> (r: Severity) {
        Severity::Warning
    }

    open spec fn spec_description(&self) -> Seq<char> {
        "Mixed case in range"@
    }

    fn description(&self) -> (r: &str) {
        "Mixed case in range"
    }

    fn check(&self, source: &SourceFile) -> (r: Vec<Offense>) {
        report(self.name(), self.severity(), Vec::new())
    }
}

/// it without args
pub struct ItWithoutArgumentsInBlock;

impl Cop for ItWithoutArgumentsInBlock {
    open spec fn spec_name(&self) -> Seq<char> {
        "Lint/ItWithoutArgumentsInBlock"@
    }

    open spec fn spec_category(&self) -> Category {
        Category::Lint
    }

    open spec fn spec_severity(&self) -> Severity {
        Severity::Warning
    }

    open spec fn spec_check(&self, src: SourceView) -> Seq<FindingView> {
        seq![]
    }

    fn name(&self) -> (r: &str) {
        "Lint/ItWithoutArgumentsInBlock"
    }

    fn category(&self) -> (r: Category) {
        Category::Lint
    }

    fn severity(&self) -> (r: Severity) {
        Severity::Warning
    }

    open spec fn spec_description(&self) -> Seq<char> {
        "it without args"@
    }

    fn description(&self) -> (r: &str) {
        "it without args"
    }

    fn check(&self, source: &SourceFile) -> (r: Vec<Offense>) {
        report(self.name(), self.severity(), Vec::new())
    }
}

/// Duplicate element in Set
pub struct DuplicateSetElement;

impl Cop for DuplicateSetElement {
    open spec fn spec_name(&self) -> Seq<char> {
        "Lint/DuplicateSetElement"@
    }

    open spec fn spec_category(&self) -> Category {
        Category::Lint
    }

    open spec fn spec_severity(&self) -> Severity {
        Severity::Warning
    }

    open spec fn spec_check(&self, src: SourceView) -> Seq<FindingView> {
        seq![]
    }

    fn name(&self) -> (r: &str) {
        "Lint/DuplicateSetElement"
    }

    fn category(&self) -> (r: Category) {
        Category::Lint
    }

    fn severity(&self) -> (r: Severity) {
        Severity::Warning
    }

    open spec fn spec_description(&self) -> Seq<char> {
        "Duplicate element in Set"@
    }

    fn description(&self) -> (r: &str) {
        "Duplicate element in Set"
    }

    fn check(&self, source: &SourceFile) -> (r: Vec<Offense>) {
        report(self.name(), self.severity(), Vec::new())
    }
}

/// Duplicate match pattern
pub struct DuplicateMatchPattern;

impl Cop for DuplicateMatchPattern {
    open spec fn spec_name(&self) -> Seq<char> {
        "Lint/DuplicateMatchPattern"@
    }

    open spec fn spec_category(&self) -> Category {
        Category::Lint
    }

    open spec fn spec_severity(&self) -> Severity {
        Severity::Warning
    }

    open spec fn spec_check(&self, src: SourceView) -> Seq<FindingView> {
        seq![]
    }

    fn name(&self) -> (r: &str) {
        "Lint/DuplicateMatchPattern"
    }

    fn category(&self) -> (r: Category) {
        Category::Lint
    }

    fn severity(&self) -> (r: Severity) {
        Severity::Warning
    }

    open spec fn spec_description(&self) -> Seq<char> {
        "Duplicate match pattern"@
    }

    fn description(&self) -> (r: &str) {
        "Duplicate match pattern"
    }

    fn check(&self, source: &SourceFile) -> (r: Vec<Offense>) {
        report(self.name(), self.severity(), Vec::new())
    }
}

/// Duplicate in char class
pub struct DuplicateRegexpCharacterClassElement;

impl Cop for DuplicateRegexpCharacterClassElement {
    open spec fn spec_name(&self) -> Seq<char> {
        "Lint/DuplicateRegexpCharacterClassElement"@
    }

    open spec fn spec_category(&self) -> Category {
        Category::Lint
    }

    open spec fn spec_severity(&self) -> Severity {
        Severity::Warning
    }

    open spec fn spec_check(&self, src: SourceView) -> Seq<FindingView> {
        seq![]
    }

    fn name(&self) -> (r: &str) {
        "Lint/DuplicateRegexpCharacterClassElement"
    }

    fn category(&self) -> (r: Category) {
        Category::Lint
    }

    fn severity(&self) -> (r: Severity) {
        Severity::Warning
    }

    open spec fn spec_description(&self) -> Seq<char> {
        "Duplicate in char class"@
    }

    fn description(&self) -> (r: &str) {
        "Duplicate in char class"
    }

    fn check(&self, source: &SourceFile) -> (r: Vec<Offense>) {
        report(self.name(), self.severity(), Vec::new())
    }
}

/// Empty expression
pub struct EmptyExpression;

impl Cop for EmptyExpression {
    open spec fn spec_name(&self) -> Seq<char> {
        "Lint/EmptyExpression"@
    }

    open spec fn spec_category(&self) -> Category {
        Category::Lint
    }

    open spec fn spec_severity(&self) -> Severity {
        Severity::Warning
    }

    open spec fn spec_check(&self, src: SourceView) -> Seq<FindingView> {
        seq![]
    }

    fn name(&self) -> (r: &str) {
        "Lint/EmptyExpression"
    }

    fn category(&self) -> (r: Category) {
        Category::Lint
    }

    fn severity(&self) -> (r: Severity) {
        Severity::Warning
    }

    open spec fn spec_description(&self) -> Seq<char> {
        "Empty expression"@
    }

    fn description(&self) -> (r: &str) {
        "Empty expression"
    }

    fn check(&self, source: &SourceFile) -> (r: Vec<Offense>) {
        report(self.name(), self.severity(), Vec::new())
    }
}

/// Empty in-pattern
pub struct EmptyInPattern;

impl Cop for EmptyInPattern {
    open spec fn spec_name(&self) -> Seq<char> {
        "Lint/EmptyInPattern"@
    }

    open spec fn spec_category(&self) -> Category {
        Category::Lint
    }

    open spec fn spec_severity(&self) -> Severity {
        Severity::Warning
    }

    open spec fn spec_check(&self, src: SourceView) -> Seq<FindingView> {
        seq![]
    }

    fn name(&self) -> (r: &str) {
        "Lint/EmptyInPattern"
    }

    fn category(&self) -> (r: Category) {
        Category::Lint
    }

    fn severity(&self) -> (r: Severity) {
        Severity::Warning
    }

    open spec fn spec_description(&self) -> Seq<char> {
        "Empty in-pattern"@
    }

    fn description(&self) -> (r: &str) {
        "Empty in-pattern"
    }

    fn check(&self, source: &SourceFile) -> (r: Vec<Offense>) {
        report(self.name(), self.severity(), Vec::new())
    }
}

/// Hash compare_by_identity issue
pub struct HashCompareByIdentity;

impl Cop for HashCompareByIdentity {
    open spec fn spec_name(&self) -> Seq<char> {
        "Lint/HashCompareByIdentity"@
    }

    open spec fn spec_category(&self) -> Category {
        Category::Lint
    }

    open spec fn spec_severity(&self) -> Severity {
        Severity::Warning
    }

    open spec fn spec_check(&self, src: SourceView) -> Seq<FindingView> {
        seq![]
    }

    fn name(&self) -> (r: &str) {
        "Lint/HashCompareByIdentity"
    }

    fn category(&self) -> (r: Category) {
        Category::Lint
    }

    fn severity(&self) -> (r: Severity) {
        Severity::Warning
    }

    open spec fn spec_description(&self) -> Seq<char> {
        "Hash compare_by_identity issue"@
    }

    fn description(&self) -> (r: &str) {
        "Hash compare_by_identity issue"
    }

    fn check(&self, source: &SourceFile) -> (r: Vec<Offense>) {
        report(self.name(), self.severity(), Vec::new())
    }
}

/// Access modifier has no effect
pub struct IneffectiveAccessModifier;

impl Cop for IneffectiveAccessModifier {
    open spec fn spec_name(&self) -> Seq<char> {
        "Lint/IneffectiveAccessModifier"@
    }

    open spec fn spec_category(&self) -> Category {
        Category::Lint
    }

    open spec fn spec_severity(&self) -> Severity {
        Severity::Warning
    }

    open spec fn spec_check(&self, src: SourceView) -> Seq<FindingView> {
        seq![]
    }

    fn name(&self) -> (r: &str) {
        "Lint/IneffectiveAccessModifier"
    }

    fn category(&self) -> (r: Category) {
        Category::Lint
    }

    fn severity(&self) -> (r: Severity) {
        Severity::Warning
    }

    open spec fn spec_description(&self) -> Seq<char> {
        "Access modifier has no effect"@
    }

    fn description(&self) -> (r: &str) {
        "Access modifier has no effect"
    }

    fn check(&self, source: &SourceFile) -> (r: Vec<Offense>) {
        report(self.name(), self.severity(), Vec::new())
    }
}

/// Interpolation in single-quoted string
pub struct InterpolationCheck;

impl Cop for InterpolationCheck {
    open spec fn spec_name(&self) -> Seq<char> {
        "Lint/InterpolationCheck"@
    }

    open spec fn spec_category(&self) -> Category {
        Category::Lint
    }

    open spec fn spec_severity(&self) -> Severity {
        Severity::Warning
    }

    open spec fn spec_check(&self, src: SourceView) -> Seq<FindingView> {
        seq![]
    }

    fn name(&self) -> (r: &str) {
        "Lint/InterpolationCheck"
    }

    fn category(&self) -> (r: Category) {
        Category::Lint
    }

    fn severity(&self) -> (r: Severity) {
        Severity::Warning
    }

    open spec fn spec_description(&self) -> Seq<char> {
        "Interpolation in single-quoted string"@
    }

    fn description(&self) -> (r: &str) {
        "Interpolation in single-quoted string"
    }

    fn check(&self, source: &SourceFile) -> (r: Vec<Offense>) {
        report(self.name(), self.severity(), Vec::new())
    }
}

/// Missing cop enable
pub struct MissingCopEnableDirective;

impl Cop for MissingCopEnableDirective {
    open spec fn spec_name(&self) -> Seq<char> {
        "Lint/MissingCopEnableDirective"@
    }

    open spec fn spec_category(&self) -> Category {
        Category::Lint
    }

    open spec fn spec_severity(&self) -> Severity {
        Severity::Warning
    }

    open spec fn spec_check(&self, src: SourceView) -> Seq<FindingView> {
        seq![]
    }

    fn name(&self) -> (r: &str) {
        "Lint/MissingCopEnableDirective"
    }

    fn category(&self) -> (r: Category) {
        Category::Lint
    }

    fn severity(&self) -> (r: Severity) {
        Severity::Warning
    }

    open spec fn spec_description(&self) -> Seq<char> {
        "Missing cop enable"@
    }

    fn description(&self) -> (r: &str) {
        "Missing cop enable"
    }

    fn check(&self, source: &SourceFile) -> (r: Vec<Offense>) {
        report(self.name(), self.severity(), Vec::new())
    }
}

/// Use .include? instead
pub struct MultipleComparison;

impl Cop for MultipleComparison {
    open spec fn spec_name(&self) -> Seq<char> {
        "Lint/MultipleComparison"@
    }

    open spec fn spec_category(&self) -> Category {
        Category::Lint
    }

    open spec fn spec_severity(&self) -> Severity {
        Severity::Warning
    }

    open spec fn spec_check(&self, src: SourceView) -> Seq<FindingView> {
        seq![]
    }

    fn name(&self) -> (r: &str) {
        "Lint/MultipleComparison"
    }

    fn category(&self) -> (r: Category) {
        Category::Lint
    }

    fn severity(&self) -> (r: Severity) {
        Severity::Warning
    }

    open spec fn spec_description(&self) -> Seq<char> {
        "Use .include? instead"@
    }

    fn description(&self) -> (r: &str) {
        "Use .include? instead"
    }

    fn check(&self, source: &SourceFile) -> (r: Vec<Offense>) {
        report(self.name(), self.severity(), Vec::new())
    }
}

/// next without accumulator
pub struct NextWithoutAccumulator;

impl Cop for NextWithoutAccumulator {
    open spec fn spec_name(&self) -> Seq<char> {
        "Lint/NextWithoutAccumulator"@
    }

    open spec fn spec_category(&self) -> Category {
        Category::Lint
    }

    open spec fn spec_severity(&self) -> Severity {
        Severity::Warning
    }

    open spec fn spec_check(&self, src: SourceView) -> Seq<FindingView> {
        seq![]
    }

    fn name(&self) -> (r: &str) {
        "Lint/NextWithoutAccumulator"
    }

    fn category(&self) -> (r: Category) {
        Category::Lint
    }

    fn severity(&self) -> (r: Severity) {
        Severity::Warning
    }

    open spec fn spec_description(&self) -> Seq<char> {
        "next without accumulator"@
    }

    fn description(&self) -> (r: &str) {
        "next without accumulator"
    }

    fn check(&self, source: &SourceFile) -> (r: Vec<Offense>) {
        report(self.name(), self.severity(), Vec::new())
    }
}

/// Return in BEGIN/END
pub struct NoReturnInBeginEndBlocks;

impl Cop for NoReturnInBeginEndBlocks {
    open spec fn spec_name(&self) -> Seq<char> {
        "Lint/NoReturnInBeginEndBlocks"@
    }

    open spec fn spec_category(&self) -> Category {
        Category::Lint
    }

    open spec fn spec_severity(&self) -> Severity {
        Severity::Warning
    }

    open spec fn spec_check(&self, src: SourceView) -> Seq<FindingView> {
        seq![]
    }

    fn name(&self) -> (r: &str) {
        "Lint/NoReturnInBeginEndBlocks"
    }

    fn category(&self) -> (r: Category) {
        Category::Lint
    }

    fn severity(&self) -> (r: Severity) {
        Severity::Warning
    }

    open spec fn spec_description(&self) -> Seq<char> {
        "Return in BEGIN/END"@
    }

    fn description(&self) -> (r: &str) {
        "Return in BEGIN/END"
    }

    fn check(&self, source: &SourceFile) -> (r: Vec<Offense>) {
        report(self.name(), self.severity(), Vec::new())
    }
}

/// Non-atomic file operation
pub struct NonAtomicFileOperation;

impl Cop for NonAtomicFileOperation {
    open spec fn spec_name(&self) -> Seq<char> {
        "Lint/NonAtomicFileOperation"@
    }

    open spec fn spec_category(&self) -> Category {
        Category::Lint
    }

    open spec fn spec_severity(&self) -> Severity {
        Severity::Warning
    }

    open spec fn spec_check(&self, src: SourceView) -> Seq<FindingView> {
        seq![]
    }

    fn name(&self) -> (r: &str) {
        "Lint/NonAtomicFileOperation"
    }

    fn category(&self) -> (r: Category) {
        Category::Lint
    }

    fn severity(&self) -> (r: Severity) {
        Severity::Warning
    }

    open spec fn spec_description(&self) -> Seq<char> {
        "Non-atomic file operation"@
    }

    fn description(&self) -> (r: &str) {
        "Non-atomic file operation"
    }

    fn check(&self, source: &SourceFile) -> (r: Vec<Offense>) {
        report(self.name(), self.severity(), Vec::new())
    }
}

/// Assignment to numbered param
pub struct NumberedParameterAssignment;

impl Cop for NumberedParameterAssignment {
    open spec fn spec_name(&self) -> Seq<char> {
        "Lint/NumberedParameterAssignment"@
    }

    open spec fn spec_category(&self) -> Category {
        Category::Lint
    }

    open spec fn spec_severity(&self) -> Severity {
        Severity::Warning
    }

    open spec fn spec_check(&self, src: SourceView) -> Seq<FindingView> {
        seq![]
    }

    fn name(&self) -> (r: &str) {
        "Lint/NumberedParameterAssignment"
    }

    fn category(&self) -> (r: Category) {
        Category::Lint
    }

    fn severity(&self) -> (r: Severity) {
        Severity::Warning
    }

    open spec fn spec_description(&self) -> Seq<char> {
        "Assignment to numbered param"@
    }

    fn description(&self) -> (r: &str) {
        "Assignment to numbered param"
    }

    fn check(&self, source: &SourceFile) -> (r: Vec<Offense>) {
        report(self.name(), self.severity(), Vec::new())
    }
}

/// Regexp ref beyond captures
pub struct OutOfRangeRegexpRef;

impl Cop for OutOfRangeRegexpRef {
    open spec fn spec_name(&self) -> Seq<char> {
        "Lint/OutOfRangeRegexpRef"@
    }

    open spec fn spec_category(&self) -> Category {
        Category::Lint
    }

    open spec fn spec_severity(&self) -> Severity {
        Severity::Warning
    }

    open spec fn spec_check(&self, src: SourceView) -> Seq<FindingView> {
        seq![]
    }

    fn name(&self) -> (r: &str) {
        "Lint/OutOfRangeRegexpRef"
    }

    fn category(&self) -> (r: Category) {
        Category::Lint
    }

    fn severity(&self) -> (r: Severity) {
        Severity::Warning
    }

    open spec fn spec_description(&self) -> Seq<char> {
        "Regexp ref beyond captures"@
    }

    fn description(&self) -> (r: &str) {
        "Regexp ref beyond captures"
    }

    fn check(&self, source: &SourceFile) -> (r: Vec<Offense>) {
        report(self.name(), self.severity(), Vec::new())
    }
}

/// Redundant safe navigation
pub struct RedundantSafeNavigation;

impl Cop for RedundantSafeNavigation {
    open spec fn spec_name(&self) -> Seq<char> {
        "Lint/RedundantSafeNavigation"@
    }

    open spec fn spec_category(&self) -> Category {
        Category::Lint
    }

    open spec fn spec_severity(&self) -> Severity {
        Severity::Warning
    }

    open spec fn spec_check(&self, src: SourceView) -> Seq<FindingView> {
        seq![]
    }

    fn name(&self) -> (r: &str) {
        "Lint/RedundantSafeNavigation"
    }

    fn category(&self) -> (r: Category) {
        Category::Lint
    }

    fn severity(&self) -> (r: Severity) {
        Severity::Warning
    }

    open spec fn spec_description(&self) -> Seq<char> {
        "Redundant safe navigation"@
    }

    fn description(&self) -> (r: &str) {
        "Redundant safe navigation"
    }

    fn check(&self, source: &SourceFile) -> (r: Vec<Offense>) {
        report(self.name(), self.severity(), Vec::new())
    }
}

/// Redundant splat
pub struct RedundantSplatExpansion;

impl Cop for RedundantSplatExpansion {
    open spec fn spec_name(&self) -> Seq<char> {
        "Lint/RedundantSplatExpansion"@
    }

    open spec fn spec_category(&self) -> Category {
        Category::Lint
    }

    open spec fn spec_severity(&self) -> Severity {
        Severity::Warning
    }

    open spec fn spec_check(&self, src: SourceView) -> Seq<FindingView> {
        seq![]
    }

    fn name(&self) -> (r: &str) {
        "Lint/RedundantSplatExpansion"
    }

    fn category(&self) -> (r: Category) {
        Category::Lint
    }

    fn severity(&self) -> (r: Severity) {
        Severity::Warning
    }

    open spec fn spec_description(&self) -> Seq<char> {
        "Redundant splat"@
    }

    fn description(&self) -> (r: &str) {
        "Redundant splat"
    }

    fn check(&self, source: &SourceFile) -> (r: Vec<Offense>) {
        report(self.name(), self.severity(), Vec::new())
    }
}

/// Require parentheses
pub struct RequireParentheses;

impl Cop for RequireParentheses {
    open spec fn spec_name(&self) -> Seq<char> {
        "Lint/RequireParentheses"@
    }

    open spec fn spec_category(&self) -> Category {
        Category::Lint
    }

    open spec fn spec_severity(&self) -> Severity {
        Severity::Warning
    }

    open spec fn spec_check(&self, src: SourceView) -> Seq<FindingView> {
        seq![]
    }

    fn name(&self) -> (r: &str) {
        "Lint/RequireParentheses"
    }

    fn category(&self) -> (r: Category) {
        Category::Lint
    }

    fn severity(&self) -> (r: Severity) {
        Severity::Warning
    }

    open spec fn spec_description(&self) -> Seq<char> {
        "Require parentheses"@
    }

    fn description(&self) -> (r: &str) {
        "Require parentheses"
    }

    fn check(&self, source: &SourceFile) -> (r: Vec<Offense>) {
        report(self.name(), self.severity(), Vec::new())
    }
}

/// Safe navigation consistency
pub struct SafeNavigationConsistency;

impl Cop for SafeNavigationConsistency {
    open spec fn spec_name(&self) -> Seq<char> {
        "Lint/SafeNavigationConsistency"@
    }

    open spec fn spec_category(&self) -> Category {
        Category::Lint
    }

    open spec fn spec_severity(&self) -> Severity {
        Severity::Warning
    }

    open spec fn spec_check(&self, src: SourceView) -> Seq<FindingView> {
        seq![]
    }

    fn name(&self) -> (r: &str) {
        "Lint/SafeNavigationConsistency"
    }

    fn category(&self) -> (r: Category) {
        Category::Lint
    }

    fn severity(&self) -> (r: Severity) {
        Severity::Warning
    }

    open spec fn spec_description(&self) -> Seq<char> {
        "Safe navigation consistency"@
    }

    fn description(&self) -> (r: &str) {
        "Safe navigation consistency"
    }

    fn check(&self, source: &SourceFile) -> (r: Vec<Offense>) {
        report(self.name(), self.severity(), Vec::new())
    }
}

/// send with include/extend
pub struct SendWithMixinArgument;

impl Cop for SendWithMixinArgument {
    open spec fn spec_name(&self) -> Seq<char> {
        "Lint/SendWithMixinArgument"@
    }

    open spec fn spec_category(&self) -> Category {
        Category::Lint
    }

    open spec fn spec_severity(&self) -> Severity {
        Severity::Warning
    }

    open spec fn spec_check(&self, src: SourceView) -> Seq<FindingView> {
        seq![]
    }

    fn name(&self) -> (r: &str) {
        "Lint/SendWithMixinArgument"
    }

    fn category(&self) -> (r: Category) {
        Category::Lint
    }

    fn severity(&self) -> (r: Severity) {
        Severity::Warning
    }

    open spec fn spec_description(&self) -> Seq<char> {
        "send with include/extend"@
    }

    fn description(&self) -> (r: &str) {
        "send with include/extend"
    }

    fn check(&self, source: &SourceFile) -> (r: Vec<Offense>) {
        report(self.name(), self.severity(), Vec::new())
    }
}

/// Reassigned method argument
pub struct ShadowedArgument;

impl Cop for ShadowedArgument {
    open spec fn spec_name(&self) -> Seq<char> {
        "Lint/ShadowedArgument"@
    }

    open spec fn spec_category(&self) -> Category {
        Category::Lint
    }

    open spec fn spec_severity(&self) -> Severity {
        Severity::Warning
    }

    open spec fn spec_check(&self, src: SourceView) -> Seq<FindingView> {
        seq![]
    }

    fn name(&self) -> (r: &str) {
        "Lint/ShadowedArgument"
    }

    fn category(&self) -> (r: Category) {
        Category::Lint
    }

    fn severity(&self) -> (r: Severity) {
        Severity::Warning
    }

    open spec fn spec_description(&self) -> Seq<char> {
        "Reassigned method argument"@
    }

    fn description(&self) -> (r: &str) {
        "Reassigned method argument"
    }

    fn check(&self, source: &SourceFile) -> (r: Vec<Offense>) {
        report(self.name(), self.severity(), Vec::new())
    }
}

/// Override in Struct.new
pub struct StructNewOverride;

impl Cop for StructNewOverride {
    open spec fn spec_name(&self) -> Seq<char> {
        "Lint/StructNewOverride"@
    }

    open spec fn spec_category(&self) -> Category {
        Category::Lint
    }

    open spec fn spec_severity(&self) -> Severity {
        Severity::Warning
    }

    open spec fn spec_check(&self, src: SourceView) -> Seq<FindingView> {
        seq![]
    }

    fn name(&self) -> (r: &str) {
        "Lint/StructNewOverride"
    }

    fn category(&self) -> (r: Category) {
        Category::Lint
    }

    fn severity(&self) -> (r: Severity) {
        Severity::Warning
    }

    open spec fn spec_description(&self) -> Seq<char> {
        "Override in Struct.new"@
    }

    fn description(&self) -> (r: &str) {
        "Override in Struct.new"
    }

    fn check(&self, source: &SourceFile) -> (r: Vec<Offense>) {
        report(self.name(), self.severity(), Vec::new())
    }
}

/// Suppressed in conversion
pub struct SuppressedExceptionInNumberConversion;

impl Cop for SuppressedExceptionInNumberConversion {
    open spec fn spec_name(&self) -> Seq<char> {
        "Lint/SuppressedExceptionInNumberConversion"@
    }

    open spec fn spec_category(&self) -> Category {
        Category::Lint
    }

    open spec fn spec_severity(&self) -> Severity {
        Severity::Warning
    }

    open spec fn spec_check(&self, src: SourceView) -> Seq<FindingView> {
        seq![]
    }

    fn name(&self) -> (r: &str) {
        "Lint/SuppressedExceptionInNumberConversion"
    }

    fn category(&self) -> (r: Category) {
        Category::Lint
    }

    fn severity(&self) -> (r: Severity) {
        Severity::Warning
    }

    open spec fn spec_description(&self) -> Seq<char> {
        "Suppressed in conversion"@
    }

    fn description(&self) -> (r: &str) {
        "Suppressed in conversion"
    }

    fn check(&self, source: &SourceFile) -> (r: Vec<Offense>) {
        report(self.name(), self.severity(), Vec::new())
    }
}

/// Syntax errors
pub struct Syntax;

impl Cop for Syntax {
    open spec fn spec_name(&self) -> Seq<char> {
        "Lint/Syntax"@
    }

    open spec fn spec_category(&self) -> Category {
        Category::Lint
    }

    open spec fn spec_severity(&self) -> Severity {
        Severity::Warning
    }

    open spec fn spec_check(&self, src: SourceView) -> Seq<FindingView> {
        seq![]
    }

    fn name(&self) -> (r: &str) {
        "Lint/Syntax"
    }

    fn category(&self) -> (r: Category) {
        Category::Lint
    }

    fn severity(&self) -> (r: Severity) {
        Severity::Warning
    }

    open spec fn spec_description(&self) -> Seq<char> {
        "Syntax errors"@
    }

    fn description(&self) -> (r: &str) {
        "Syntax errors"
    }

    fn check(&self, source: &SourceFile) -> (r: Vec<Offense>) {
        report(self.name(), self.severity(), Vec::new())
    }
}

/// to_enum arguments
pub struct ToEnumArguments;

impl Cop for ToEnumArguments {
    open spec fn spec_name(&self) -> Seq<char> {
        "Lint/ToEnumArguments"@
    }

    open spec fn spec_category(&self) -> Category {
        Category::Lint
    }

    open spec fn spec_severity(&self) -> Severity {
        Severity::Warning
    }

    open spec fn spec_check(&self, src: SourceView) -> Seq<FindingView> {
        seq![]
    }

    fn name(&self) -> (r: &str) {
        "Lint/ToEnumArguments"
    }

    fn category(&self) -> (r: Category) {
        Category::Lint
    }

    fn severity(&self) -> (r: Severity) {
        Severity::Warning
    }

    open spec fn spec_description(&self) -> Seq<char> {
        "to_enum arguments"@
    }

    fn description(&self) -> (r: &str) {
        "to_enum arguments"
    }

    fn check(&self, source: &SourceFile) -> (r: Vec<Offense>) {
        report(self.name(), self.severity(), Vec::new())
    }
}

/// Wrong block arity
pub struct UnexpectedBlockArity;

impl Cop for UnexpectedBlockArity {
    open spec fn spec_name(&self) -> Seq<char> {
        "Lint/UnexpectedBlockArity"@
    }

    open spec fn spec_category(&self) -> Category {
        Category::Lint
    }

    open spec fn spec_severity(&self) -> Severity {
        Severity::Warning
    }

    open spec fn spec_check(&self, src: SourceView) -> Seq<FindingView> {
        seq![]
    }

    fn name(&self) -> (r: &str) {
        "Lint/UnexpectedBlockArity"
    }

    fn category(&self) -> (r: Category) {
        Category::Lint
    }

    fn severity(&self) -> (r: Severity) {
        Severity::Warning
    }

    open spec fn spec_description(&self) -> Seq<char> {
        "Wrong block arity"@
    }

    fn description(&self) -> (r: &str) {
        "Wrong block arity"
    }

    fn check(&self, source: &SourceFile) -> (r: Vec<Offense>) {
        report(self.name(), self.severity(), Vec::new())
    }
}

/// Unmodified accumulator
pub struct UnmodifiedReduceAccumulator;

impl Cop for UnmodifiedReduceAccumulator {
    open spec fn spec_name(&self) -> Seq<char> {
        "Lint/UnmodifiedReduceAccumulator"@
    }

    open spec fn spec_category(&self) -> Category {
        Category::Lint
    }

    open spec fn spec_severity(&self) -> Severity {
        Severity::Warning
    }

    open spec fn spec_check(&self, src: SourceView) -> Seq<FindingView> {
        seq![]
    }

    fn name(&self) -> (r: &str) {
        "Lint/UnmodifiedReduceAccumulator"
    }

    fn category(&self) -> (r: Category) {
        Category::Lint
    }

    fn severity(&self) -> (r: Severity) {
        Severity::Warning
    }

    open spec fn spec_description(&self) -> Seq<char> {
        "Unmodified accumulator"@
    }

    fn description(&self) -> (r: &str) {
        "Unmodified accumulator"
    }

    fn check(&self, source: &SourceFile) -> (r: Vec<Offense>) {
        report(self.name(), self.severity(), Vec::new())
    }
}

/// Deprecated URI methods
pub struct UriEscapeUnescape;

impl Cop for UriEscapeUnescape {
    open spec fn spec_name(&self) -> Seq<char> {
        "Lint/UriEscapeUnescape"@
    }

    open spec fn spec_category(&self) -> Category {
        Category::Lint
    }

    open spec fn spec_severity(&self) -> Severity {
        Severity::Warning
    }

    open spec fn spec_check(&self, src: SourceView) -> Seq<FindingView> {
        seq![]
    }

    fn name(&self) -> (r: &str) {
        "Lint/UriEscapeUnescape"
    }

    fn category(&self) -> (r: Category) {
        Category::Lint
    }

    fn severity(&self) -> (r: Severity) {
        Severity::Warning
    }

    open spec fn spec_description(&self) -> Seq<char> {
        "Deprecated URI methods"@
    }

    fn description(&self) -> (r: &str) {
        "Deprecated URI methods"
    }

    fn check(&self, source: &SourceFile) -> (r: Vec<Offense>) {
        report(self.name(), self.severity(), Vec::new())
    }
}

/// Use URI::DEFAULT_PARSER
pub struct UriRegexp;

impl Cop for UriRegexp {
    open spec fn spec_name(&self) -> Seq<char> {
        "Lint/UriRegexp"@
    }

    open spec fn spec_category(&self) -> Category {
        Category::Lint
    }

    open spec fn spec_severity(&self) -> Severity {
        Severity::Warning
    }

    open spec fn spec_check(&self, src: SourceView) -> Seq<FindingView> {
        seq![]
    }

    fn name(&self) -> (r: &str) {
        "Lint/UriRegexp"
    }

    fn category(&self) -> (r: Category) {
        Category::Lint
    }

    fn severity(&self) -> (r: Severity) {
        Severity::Warning
    }

    open spec fn spec_description(&self) -> Seq<char> {
        "Use URI::DEFAULT_PARSER"@
    }

    fn description(&self) -> (r: &str) {
        "Use URI::DEFAULT_PARSER"
    }

    fn check(&self, source: &SourceFile) -> (r: Vec<Offense>) {
        report(self.name(), self.severity(), Vec::new())
    }
}

/// Access modifier with no methods after
pub struct UselessAccessModifier;

impl Cop for UselessAccessModifier {
    open spec fn spec_name(&self) -> Seq<char> {
        "Lint/UselessAccessModifier"@
    }

    open spec fn spec_category(&self) -> Category {
        Category::Lint
    }

    open spec fn spec_severity(&self) -> Severity {
        Severity::Warning
    }

    open spec fn spec_check(&self, src: SourceView) -> Seq<FindingView> {
        seq![]
    }

    fn name(&self) -> (r: &str) {
        "Lint/UselessAccessModifier"
    }

    fn category(&self) -> (r: Category) {
        Category::Lint
    }

    fn severity(&self) -> (r: Severity) {
        Severity::Warning
    }

    open spec fn spec_description(&self) -> Seq<char> {
        "Access modifier with no methods after"@
    }

    fn description(&self) -> (r: &str) {
        "Access modifier with no methods after"
    }

    fn check(&self, source: &SourceFile) -> (r: Vec<Offense>) {
        report(self.name(), self.severity(), Vec::new())
    }
}

/// Useless defined?
pub struct UselessDefined;

impl Cop for UselessDefined {
    open spec fn spec_name(&self) -> Seq<char> {
        "Lint/UselessDefined"@
    }

    open spec fn spec_category(&self) -> Category {
        Category::Lint
    }

    open spec fn spec_severity(&self) -> Severity {
        Severity::Warning
    }

    open spec fn spec_check(&self, src: SourceView) -> Seq<FindingView> {
        seq![]
    }

    fn name(&self) -> (r: &str) {
        "Lint/UselessDefined"
    }

    fn category(&self) -> (r: Category) {
        Category::Lint
    }

    fn severity(&self) -> (r: Severity) {
        Severity::Warning
    }

    open spec fn spec_description(&self) -> Seq<char> {
        "Useless defined?"@
    }

    fn description(&self) -> (r: &str) {
        "Useless defined?"
    }

    fn check(&self, source: &SourceFile) -> (r: Vec<Offense>) {
        report(self.name(), self.severity(), Vec::new())
    }
}

/// else without rescue
pub struct UselessElseWithoutRescue;

impl Cop for UselessElseWithoutRescue {
    open spec fn spec_name(&self) -> Seq<char> {
        "Lint/UselessElseWithoutRescue"@
    }

    open spec fn spec_category(&self) -> Category {
        Category::Lint
    }

    open spec fn spec_severity(&self) -> Severity {
        Severity::Warning
    }

    open spec fn spec_check(&self, src: SourceView) -> Seq<FindingView> {
        seq![]
    }

    fn name(&self) -> (r: &str) {
        "Lint/UselessElseWithoutRescue"
    }

    fn category(&self) -> (r: Category) {
        Category::Lint
    }

    fn severity(&self) -> (r: Severity) {
        Severity::Warning
    }

    open spec fn spec_description(&self) -> Seq<char> {
        "else without rescue"@
    }

    fn description(&self) -> (r: &str) {
        "else without rescue"
    }

    fn check(&self, source: &SourceFile) -> (r: Vec<Offense>) {
        report(self.name(), self.severity(), Vec::new())
    }
}

/// Rescue that just re-raises
pub struct UselessRescue;

impl Cop for UselessRescue {
    open spec fn spec_name(&self) -> Seq<char> {
        "Lint/UselessRescue"@
    }

    open spec fn spec_category(&self) -> Category {
        Category::Lint
    }

    open spec fn spec_severity(&self) -> Severity {
        Severity::Warning
    }

    open spec fn spec_check(&self, src: SourceView) -> Seq<FindingView> {
        seq![]
    }

    fn name(&self) -> (r: &str) {
        "Lint/UselessRescue"
    }

    fn category(&self) -> (r: Category) {
        Category::Lint
    }

    fn severity(&self) -> (r: Severity) {
        Severity::Warning
    }

    open spec fn spec_description(&self) -> Seq<char> {
        "Rescue that just re-raises"@
    }

    fn description(&self) -> (r: &str) {
        "Rescue that just re-raises"
    }

    fn check(&self, source: &SourceFile) -> (r: Vec<Offense>) {
        report(self.name(), self.severity(), Vec::new())
    }
}

/// Setter on local
pub struct UselessSetterCall;

impl Cop for UselessSetterCall {
    open spec fn spec_name(&self) -> Seq<char> {
        "Lint/UselessSetterCall"@
    }

    open spec fn spec_category(&self) -> Category {
        Category::Lint
    }

    open spec fn spec_severity(&self) -> Severity {
        Severity::Warning
    }

    open spec fn spec_check(&self, src: SourceView) -> Seq<FindingView> {
        seq![]
    }

    fn name(&self) -> (r: &str) {
        "Lint/UselessSetterCall"
    }

    fn category(&self) -> (r: Category) {
        Category::Lint
    }

    fn severity(&self) -> (r: Severity) {
        Severity::Warning
    }

    open spec fn spec_description(&self) -> Seq<char> {
        "Setter on local"@
    }

    fn description(&self) -> (r: &str) {
        "Setter on local"
    }

    fn check(&self, source: &SourceFile) -> (r: Vec<Offense>) {
        report(self.name(), self.severity(), Vec::new())
    }
}

/// 0.times or 1.times
pub struct UselessTimes;

impl Cop for UselessTimes {
    open spec fn spec_name(&self) -> Seq<char> {
        "Lint/UselessTimes"@
    }

    open spec fn spec_category(&self) -> Category {
        Category::Lint
    }

    open spec fn spec_severity(&self) -> Severity {
        Severity::Warning
    }

    open spec fn spec_check(&self, src: SourceView) -> Seq<FindingView> {
        seq![]
    }

    fn name(&self) -> (r: &str) {
        "Lint/UselessTimes"
    }

    fn category(&self) -> (r: Category) {
        Category::Lint
    }

    fn severity(&self) -> (r: Severity) {
        Severity::Warning
    }

    open spec fn spec_description(&self) -> Seq<char> {
        "0.times or 1.times"@
    }

    fn description(&self) -> (r: &str) {
        "0.times or 1.times"
    }

    fn check(&self, source: &SourceFile) -> (r: Vec<Offense>) {
        report(self.name(), self.severity(), Vec::new())
    }
}

/// x || x
pub struct UselessOr;

impl Cop for UselessOr {
    open spec fn spec_name(&self) -> Seq<char> {
        "Lint/UselessOr"@
    }

    open spec fn spec_category(&self) -> Category {
        Category::Lint
    }

    open spec fn spec_severity(&self) -> Severity {
        Severity::Warning
    }

    open spec fn spec_check(&self, src: SourceView) -> Seq<FindingView> {
        seq![]
    }

    fn name(&self) -> (r: &str) {
        "Lint/UselessOr"
    }

    fn category(&self) -> (r: Category) {
        Category::Lint
    }

    fn severity(&self) -> (r: Severity) {
        Severity::Warning
    }

    open spec fn spec_description(&self) -> Seq<char> {
        "x || x"@
    }

    fn description(&self) -> (r: &str) {
        "x || x"
    }

    fn check(&self, source: &SourceFile) -> (r: Vec<Offense>) {
        report(self.name(), self.severity(), Vec::new())
    }
}

/// Constant scope issue
pub struct UselessConstantScoping;

impl Cop for UselessConstantScoping {
    open spec fn spec_name(&self) -> Seq<char> {
        "Lint/UselessConstantScoping"@
    }

    open spec fn spec_category(&self) -> Category {
        Category::Lint
    }

    open spec fn spec_severity(&self) -> Severity {
        Severity::Warning
    }

    open spec fn spec_check(&self, src: SourceView) -> Seq<FindingView> {
        seq![]
    }

    fn name(&self) -> (r: &str) {
        "Lint/UselessConstantScoping"
    }

    fn category(&self) -> (r: Category) {
        Category::Lint
    }

    fn severity(&self) -> (r: Severity) {
        Severity::Warning
    }

    open spec fn spec_description(&self) -> Seq<char> {
        "Constant scope issue"@
    }

    fn description(&self) -> (r: &str) {
        "Constant scope issue"
    }

    fn check(&self, source: &SourceFile) -> (r: Vec<Offense>) {
        report(self.name(), self.severity(), Vec::new())
    }
}

/// Useless default value
pub struct UselessDefaultValueArgument;

impl Cop for UselessDefaultValueArgument {
    open spec fn spec_name(&self) -> Seq<char> {
        "Lint/UselessDefaultValueArgument"@
    }

    open spec fn spec_category(&self) -> Category {
        Category::Lint
    }

    open spec fn spec_severity(&self) -> Severity {
        Severity::Warning
    }

    open spec fn spec_check(&self, src: SourceView) -> Seq<FindingView> {
        seq![]
    }

    fn name(&self) -> (r: &str) {
        "Lint/UselessDefaultValueArgument"
    }

    fn category(&self) -> (r: Category) {
        Category::Lint
    }

    fn severity(&self) -> (r: Severity) {
        Severity::Warning
    }

    open spec fn spec_description(&self) -> Seq<char> {
        "Useless default value"@
    }

    fn description(&self) -> (r: &str) {
        "Useless default value"
    }

    fn check(&self, source: &SourceFile) -> (r: Vec<Offense>) {
        report(self.name(), self.severity(), Vec::new())
    }
}

/// x * 1 or x + 0
pub struct UselessNumericOperation;

impl Cop for UselessNumericOperation {
    open spec fn spec_name(&self) -> Seq<char> {
        "Lint/UselessNumericOperation"@
    }

    open spec fn spec_category(&self) -> Category {
        Category::Lint
    }

    open spec fn spec_severity(&self) -> Severity {
        Severity::Warning
    }

    open spec fn spec_check(&self, src: SourceView) -> Seq<FindingView> {
        seq![]
    }

    fn name(&self) -> (r: &str) {
        "Lint/UselessNumericOperation"
    }

    fn category(&self) -> (r: Category) {
        Category::Lint
    }

    fn severity(&self) -> (r: Severity) {
        Severity::Warning
    }

    open spec fn spec_description(&self) -> Seq<char> {
        "x * 1 or x + 0"@
    }

    fn description(&self) -> (r: &str) {
        "x * 1 or x + 0"
    }

    fn check(&self, source: &SourceFile) -> (r: Vec<Offense>) {
        report(self.name(), self.severity(), Vec::new())
    }
}

/// Useless ruby2_keywords
pub struct UselessRuby2Keywords;

impl Cop for UselessRuby2Keywords {
    open spec fn spec_name(&self) -> Seq<char> {
        "Lint/UselessRuby2Keywords"@
    }

    open spec fn spec_category(&self) -> Category {
        Category::Lint
    }

    open spec fn spec_severity(&self) -> Severity {
        Severity::Warning
    }

    open spec fn spec_check(&self, src: SourceView) -> Seq<FindingView> {
        seq![]
    }

    fn name(&self) -> (r: &str) {
        "Lint/UselessRuby2Keywords"
    }

    fn category(&self) -> (r: Category) {
        Category::Lint
    }

    fn severity(&self) -> (r: Severity) {
        Severity::Warning
    }

    open spec fn spec_description(&self) -> Seq<char> {
        "Useless ruby2_keywords"@
    }

    fn description(&self) -> (r: &str) {
        "Useless ruby2_keywords"
    }

    fn check(&self, source: &SourceFile) -> (r: Vec<Offense>) {
        report(self.name(), self.severity(), Vec::new())
    }
}

/// Redundant sort on Dir.glob
pub struct RedundantDirGlobSort;

impl Cop for RedundantDirGlobSort {
    open spec fn spec_name(&self) -> Seq<char> {
        "Lint/RedundantDirGlobSort"@
    }

    open spec fn spec_category(&self) -> Category {
        Category::Lint
    }

    open spec fn spec_severity(&self) -> Severity {
        Severity::Warning
    }

    open spec fn spec_check(&self, src: SourceView) -> Seq<FindingView> {
        seq![]
    }

    fn name(&self) -> (r: &str) {
        "Lint/RedundantDirGlobSort"
    }

    fn category(&self) -> (r: Category) {
        Category::Lint
    }

    fn severity(&self) -> (r: Severity) {
        Severity::Warning
    }

    open spec fn spec_description(&self) -> Seq<char> {
        "Redundant sort on Dir.glob"@
    }

    fn description(&self) -> (r: &str) {
        "Redundant sort on Dir.glob"
    }

    fn check(&self, source: &SourceFile) -> (r: Vec<Offense>) {
        report(self.name(), self.severity(), Vec::new())
    }
}

/// Redundant quantifiers
pub struct RedundantRegexpQuantifiers;

impl Cop for RedundantRegexpQuantifiers {
    open spec fn spec_name(&self) -> Seq<char> {
        "Lint/RedundantRegexpQuantifiers"@
    }

    open spec fn spec_category(&self) -> Category {
        Category::Lint
    }

    open spec fn spec_severity(&self) -> Severity {
        Severity::Warning
    }

    open spec fn spec_check(&self, src: SourceView) -> Seq<FindingView> {
        seq![]
    }

    fn name(&self) -> (r: &str) {
        "Lint/RedundantRegexpQuantifiers"
    }

    fn category(&self) -> (r: Category) {
        Category::Lint
    }

    fn severity(&self) -> (r: Severity) {
        Severity::Warning
    }

    open spec fn spec_description(&self) -> Seq<char> {
        "Redundant quantifiers"@
    }

    fn description(&self) -> (r: &str) {
        "Redundant quantifiers"
    }

    fn check(&self, source: &SourceFile) -> (r: Vec<Offense>) {
        report(self.name(), self.severity(), Vec::new())
    }
}

/// Redundant type conversion
pub struct RedundantTypeConversion;

impl Cop for RedundantTypeConversion {
    open spec fn spec_name(&self) -> Seq<char> {
        "Lint/RedundantTypeConversion"@
    }

    open spec fn spec_category(&self) -> Category {
        Category::Lint
    }

    open spec fn spec_severity(&self) -> Severity {
        Severity::Warning
    }

    open spec fn spec_check(&self, src: SourceView) -> Seq<FindingView> {
        seq![]
    }

    fn name(&self) -> (r: &str) {
        "Lint/RedundantTypeConversion"
    }

    fn category(&self) -> (r: Category) {
        Category::Lint
    }

    fn severity(&self) -> (r: Severity) {
        Severity::Warning
    }

    open spec fn spec_description(&self) -> Seq<char> {
        "Redundant type conversion"@
    }

    fn description(&self) -> (r: &str) {
        "Redundant type conversion"
    }

    fn check(&self, source: &SourceFile) -> (r: Vec<Offense>) {
        report(self.name(), self.severity(), Vec::new())
    }
}

/// Range needs parens
pub struct RequireRangeParentheses;

impl Cop for RequireRangeParentheses {
    open spec fn spec_name(&self) -> Seq<char> {
        "Lint/RequireRangeParentheses"@
    }

    open spec fn spec_category(&self) -> Category {
        Category::Lint
    }

    open spec fn spec_severity(&self) -> Severity {
        Severity::Warning
    }

    open spec fn spec_check(&self, src: SourceView) -> Seq<FindingView> {
        seq![]
    }

    fn name(&self) -> (r: &str) {
        "Lint/RequireRangeParentheses"
    }

    fn category(&self) -> (r: Category) {
        Category::Lint
    }

    fn severity(&self) -> (r: Severity) {
        Severity::Warning
    }

    open spec fn spec_description(&self) -> Seq<char> {
        "Range needs parens"@
    }

    fn description(&self) -> (r: &str) {
        "Range needs parens"
    }

    fn check(&self, source: &SourceFile) -> (r: Vec<Offense>) {
        report(self.name(), self.severity(), Vec::new())
    }
}

/// require_relative self
pub struct RequireRelativeSelfPath;

impl Cop for RequireRelativeSelfPath {
    open spec fn spec_name(&self) -> Seq<char> {
        "Lint/RequireRelativeSelfPath"@
    }

    open spec fn spec_category(&self) -> Category {
        Category::Lint
    }

    open spec fn spec_severity(&self) -> Severity {
        Severity::Warning
    }

    open spec fn spec_check(&self, src: SourceView) -> Seq<FindingView> {
        seq![]
    }

    fn name(&self) -> (r: &str) {
        "Lint/RequireRelativeSelfPath"
    }

    fn category(&self) -> (r: Category) {
        Category::Lint
    }

    fn severity(&self) -> (r: Severity) {
        Severity::Warning
    }

    open spec fn spec_description(&self) -> Seq<char> {
        "require_relative self"@
    }

    fn description(&self) -> (r: &str) {
        "require_relative self"
    }

    fn check(&self, source: &SourceFile) -> (r: Vec<Offense>) {
        report(self.name(), self.severity(), Vec::new())
    }
}

/// Refinement import
pub struct RefinementImportMethods;

impl Cop for RefinementImportMethods {
    open spec fn spec_name(&self) -> Seq<char> {
        "Lint/RefinementImportMethods"@
    }

    open spec fn spec_category(&self) -> Category {
        Category::Lint
    }

    open spec fn spec_severity(&self) -> Severity {
        Severity::Warning
    }

    open spec fn spec_check(&self, src: SourceView) -> Seq<FindingView> {
        seq![]
    }

    fn name(&self) -> (r: &str) {
        "Lint/RefinementImportMethods"
    }

    fn category(&self) -> (r: Category) {
        Category::Lint
    }

    fn severity(&self) -> (r: Severity) {
        Severity::Warning
    }

    open spec fn spec_description(&self) -> Seq<char> {
        "Refinement import"@
    }

    fn description(&self) -> (r: &str) {
        "Refinement import"
    }

    fn check(&self, source: &SourceFile) -> (r: Vec<Offense>) {
        report(self.name(), self.severity(), Vec::new())
    }
}

/// Lambda without block
pub struct LambdaWithoutLiteralBlock;

impl Cop for LambdaWithoutLiteralBlock {
    open spec fn spec_name(&self) -> Seq<char> {
        "Lint/LambdaWithoutLiteralBlock"@
    }

    open spec fn spec_category(&self) -> Category {
        Category::Lint
    }

    open spec fn spec_severity(&self) -> Severity {
        Severity::Warning
    }

    open spec fn spec_check(&self, src: SourceView) -> Seq<FindingView> {
        seq![]
    }

    fn name(&self) -> (r: &str) {
        "Lint/LambdaWithoutLiteralBlock"
    }

    fn category(&self) -> (r: Category) {
        Category::Lint
    }

    fn severity(&self) -> (r: Severity) {
        Severity::Warning
    }

    open spec fn spec_description(&self) -> Seq<char> {
        "Lambda without block"@
    }

    fn description(&self) -> (r: &str) {
        "Lambda without block"
    }

    fn check(&self, source: &SourceFile) -> (r: Vec<Offense>) {
        report(self.name(), self.severity(), Vec::new())
    }
}

/// Heredoc method call position
pub struct HeredocMethodCallPosition;

impl Cop for HeredocMethodCallPosition {
    open spec fn spec_name(&self) -> Seq<char> {
        "Lint/HeredocMethodCallPosition"@
    }

    open spec fn spec_category(&self) -> Category {
        Category::Lint
    }

    open spec fn spec_severity(&self) -> Severity {
        Severity::Warning
    }

    open spec fn spec_check(&self, src: SourceView) -> Seq<FindingView> {
        seq![]
    }

    fn name(&self) -> (r: &str) {
        "Lint/HeredocMethodCallPosition"
    }

    fn category(&self) -> (r: Category) {
        Category::Lint
    }

    fn severity(&self) -> (r: Severity) {
        Severity::Warning
    }

    open spec fn spec_description(&self) -> Seq<char> {
        "Heredoc method call position"@
    }

    fn description(&self) -> (r: &str) {
        "Heredoc method call position"
    }

    fn check(&self, source: &SourceFile) -> (r: Vec<Offense>) {
        report(self.name(), self.severity(), Vec::new())
    }
}

/// Erb.new argument changes
pub struct ErbNewArguments;

impl Cop for ErbNewArguments {
    open spec fn spec_name(&self) -> Seq<char> {
        "Lint/ErbNewArguments"@
    }

    open spec fn spec_category(&self) -> Category {
        Category::Lint
    }

    open spec fn spec_severity(&self) -> Severity {
        Severity::Warning
    }

    open spec fn spec_check(&self, src: SourceView) -> Seq<FindingView> {
        seq![]
    }

    fn name(&self) -> (r: &str) {
        "Lint/ErbNewArguments"
    }

    fn category(&self) -> (r: Category) {
        Category::Lint
    }

    fn severity(&self) -> (r: Severity) {
        Severity::Warning
    }

    open spec fn spec_description(&self) -> Seq<char> {
        "Erb.new argument changes"@
    }

    fn description(&self) -> (r: &str) {
        "Erb.new argument changes"
    }

    fn check(&self, source: &SourceFile) -> (r: Vec<Offense>) {
        report(self.name(), self.severity(), Vec::new())
    }
}

/// Ambiguous block association
pub struct AmbiguousBlockAssociation;

impl Cop for AmbiguousBlockAssociation {
    open spec fn spec_name(&self) -> Seq<char> {
        "Lint/AmbiguousBlockAssociation"@
    }

    open spec fn spec_category(&self) -> Category {
        Category::Lint
    }

    open spec fn spec_severity(&self) -> Severity {
        Severity::Warning
    }

    open spec fn spec_check(&self, src: SourceView) -> Seq<FindingView> {
        seq![]
    }

    fn name(&self) -> (r: &str) {
        "Lint/AmbiguousBlockAssociation"
    }

    fn category(&self) -> (r: Category) {
        Category::Lint
    }

    fn severity(&self) -> (r: Severity) {
        Severity::Warning
    }

    open spec fn spec_description(&self) -> Seq<char> {
        "Ambiguous block association"@
    }

    fn description(&self) -> (r: &str) {
        "Ambiguous block association"
    }

    fn check(&self, source: &SourceFile) -> (r: Vec<Offense>) {
        report(self.name(), self.severity(), Vec::new())
    }
}

/// Ambiguous precedence
pub struct AmbiguousOperatorPrecedence;

impl Cop for AmbiguousOperatorPrecedence {
    open spec fn spec_name(&self) -> Seq<char> {
        "Lint/AmbiguousOperatorPrecedence"@
    }

    open spec fn spec_category(&self) -> Category {
        Category::Lint
    }

    open spec fn spec_severity(&self) -> Severity {
        Severity::Warning
    }

    open spec fn spec_check(&self, src: SourceView) -> Seq<FindingView> {
        seq![]
    }

    fn name(&self) -> (r: &str) {
        "Lint/AmbiguousOperatorPrecedence"
    }

    fn category(&self) -> (r: Category) {
        Category::Lint
    }

    fn severity(&self) -> (r: Severity) {
        Severity::Warning
    }

    open spec fn spec_description(&self) -> Seq<char> {
        "Ambiguous precedence"@
    }

    fn description(&self) -> (r: &str) {
        "Ambiguous precedence"
    }

    fn check(&self, source: &SourceFile) -> (r: Vec<Offense>) {
        report(self.name(), self.severity(), Vec::new())
    }
}

/// Constant overwritten in rescue
pub struct ConstantOverwrittenInRescue;

impl Cop for ConstantOverwrittenInRescue {
    open spec fn spec_name(&self) -> Seq<char> {
        "Lint/ConstantOverwrittenInRescue"@
    }

    open spec fn spec_category(&self) -> Category {
        Category::Lint
    }

    open spec fn spec_severity(&self) -> Severity {
        Severity::Warning
    }

    open spec fn spec_check(&self, src: SourceView) -> Seq<FindingView> {
        seq![]
    }

    fn name(&self) -> (r: &str) {
        "Lint/ConstantOverwrittenInRescue"
    }

    fn category(&self) -> (r: Category) {
        Category::Lint
    }

    fn severity(&self) -> (r: Severity) {
        Severity::Warning
    }

    open spec fn spec_description(&self) -> Seq<char> {
        "Constant overwritten in rescue"@
    }

    fn description(&self) -> (r: &str) {
        "Constant overwritten in rescue"
    }

    fn check(&self, source: &SourceFile) -> (r: Vec<Offense>) {
        report(self.name(), self.severity(), Vec::new())
    }
}

/// Constant resolution style
pub struct ConstantResolution;

impl Cop for ConstantResolution {
    open spec fn spec_name(&self) -> Seq<char> {
        "Lint/ConstantResolution"@
    }

    open spec fn spec_category(&self) -> Category {
        Category::Lint
    }

    open spec fn spec_severity(&self) -> Severity {
        Severity::Warning
    }

    open spec fn spec_check(&self, src: SourceView) -> Seq<FindingView> {
        seq![]
    }

    fn name(&self) -> (r: &str) {
        "Lint/ConstantResolution"
    }

    fn category(&self) -> (r: Category) {
        Category::Lint
    }

    fn severity(&self) -> (r: Severity) {
        Severity::Warning
    }

    open spec fn spec_description(&self) -> Seq<char> {
        "Constant resolution style"@
    }

    fn description(&self) -> (r: &str) {
        "Constant resolution style"
    }

    fn check(&self, source: &SourceFile) -> (r: Vec<Offense>) {
        report(self.name(), self.severity(), Vec::new())
    }
}

/// Cop directive syntax
pub struct CopDirectiveSyntax;

impl Cop for CopDirectiveSyntax {
    open spec fn spec_name(&self) -> Seq<char> {
        "Lint/CopDirectiveSyntax"@
    }

    open spec fn spec_category(&self) -> Category {
        Category::Lint
    }

    open spec fn spec_severity(&self) -> Severity {
        Severity::Warning
    }

    open spec fn spec_check(&self, src: SourceView) -> Seq<FindingView> {
        seq![]
    }

    fn name(&self) -> (r: &str) {
        "Lint/CopDirectiveSyntax"
    }

    fn category(&self) -> (r: Category) {
        Category::Lint
    }

    fn severity(&self) -> (r: Severity) {
        Severity::Warning
    }

    open spec fn spec_description(&self) -> Seq<char> {
        "Cop directive syntax"@
    }

    fn description(&self) -> (r: &str) {
        "Cop directive syntax"
    }

    fn check(&self, source: &SourceFile) -> (r: Vec<Offense>) {
        report(self.name(), self.severity(), Vec::new())
    }
}

/// Wrong argument to each_with_object
pub struct EachWithObjectArgument;

impl Cop for EachWithObjectArgument {
    open spec fn spec_name(&self) -> Seq<char> {
        "Lint/EachWithObjectArgument"@
    }

    open spec fn spec_category(&self) -> Category {
        Category::Lint
    }

    open spec fn spec_severity(&self) -> Severity {
        Severity::Warning
    }

    open spec fn spec_check(&self, src: SourceView) -> Seq<FindingView> {
        seq![]
    }

    fn name(&self) -> (r: &str) {
        "Lint/EachWithObjectArgument"
    }

    fn category(&self) -> (r: Category) {
        Category::Lint
    }

    fn severity(&self) -> (r: Severity) {
        Severity::Warning
    }

    open spec fn spec_description(&self) -> Seq<char> {
        "Wrong argument to each_with_object"@
    }

    fn description(&self) -> (r: &str) {
        "Wrong argument to each_with_object"
    }

    fn check(&self, source: &SourceFile) -> (r: Vec<Offense>) {
        report(self.name(), self.severity(), Vec::new())
    }
}

/// else layout issue
pub struct ElseLayout;

impl Cop for ElseLayout {
    open spec fn spec_name(&self) -> Seq<char> {
        "Lint/ElseLayout"@
    }

    open spec fn spec_category(&self) -> Category {
        Category::Lint
    }

    open spec fn spec_severity(&self) -> Severity {
        Severity::Warning
    }

    open spec fn spec_check(&self, src: SourceView) -> Seq<FindingView> {
        seq![]
    }

    fn name(&self) -> (r: &str) {
        "Lint/ElseLayout"
    }

    fn category(&self) -> (r: Category) {
        Category::Lint
    }

    fn severity(&self) -> (r: Severity) {
        Severity::Warning
    }

    open spec fn spec_description(&self) -> Seq<char> {
        "else layout issue"@
    }

    fn description(&self) -> (r: &str) {
        "else layout issue"
    }

    fn check(&self, source: &SourceFile) -> (r: Vec<Offense>) {
        report(self.name(), self.severity(), Vec::new())
    }
}

/// Circular default arg
pub struct CircularArgumentReference;

impl Cop for CircularArgumentReference {
    open spec fn spec_name(&self) -> Seq<char> {
        "Lint/CircularArgumentReference"@
    }

    open spec fn spec_category(&self) -> Category {
        Category::Lint
    }

    open spec fn spec_severity(&self) -> Severity {
        Severity::Warning
    }

    open spec fn spec_check(&self, src: SourceView) -> Seq<FindingView> {
        seq![]
    }

    fn name(&self) -> (r: &str) {
        "Lint/CircularArgumentReference"
    }

    fn category(&self) -> (r: Category) {
        Category::Lint
    }

    fn severity(&self) -> (r: Severity) {
        Severity::Warning
    }

    open spec fn spec_description(&self) -> Seq<char> {
        "Circular default arg"@
    }

    fn description(&self) -> (r: &str) {
        "Circular default arg"
    }

    fn check(&self, source: &SourceFile) -> (r: Vec<Offense>) {
        report(self.name(), self.severity(), Vec::new())
    }
}

/// IO.select compat
pub struct IncompatibleIoSelectWithFiberScheduler;

impl Cop for IncompatibleIoSelectWithFiberScheduler {
    open spec fn spec_name(&self) -> Seq<char> {
        "Lint/IncompatibleIoSelectWithFiberScheduler"@
    }

    open spec fn spec_category(&self) -> Category {
        Category::Lint
    }

    open spec fn spec_severity(&self) -> Severity {
        Severity::Warning
    }

    open spec fn spec_check(&self, src: SourceView) -> Seq<FindingView> {
        seq![]
    }

    fn name(&self) -> (r: &str) {
        "Lint/IncompatibleIoSelectWithFiberScheduler"
    }

    fn category(&self) -> (r: Category) {
        Category::Lint
    }

    fn severity(&self) -> (r: Severity) {
        Severity::Warning
    }

    open spec fn spec_description(&self) -> Seq<char> {
        "IO.select compat"@
    }

    fn description(&self) -> (r: &str) {
        "IO.select compat"
    }

    fn check(&self, source: &SourceFile) -> (r: Vec<Offense>) {
        report(self.name(), self.severity(), Vec::new())
    }
}

/// Hash.new with kwargs
pub struct HashNewWithKeywordArgumentsAsDefault;

impl Cop for HashNewWithKeywordArgumentsAsDefault {
    open spec fn spec_name(&self) -> Seq<char> {
        "Lint/HashNewWithKeywordArgumentsAsDefault"@
    }

    open spec fn spec_category(&self) -> Category {
        Category::Lint
    }

    open spec fn spec_severity(&self) -> Severity {
        Severity::Warning
    }

    open spec fn spec_check(&self, src: SourceView) -> Seq<FindingView> {
        seq![]
    }

    fn name(&self) -> (r: &str) {
        "Lint/HashNewWithKeywordArgumentsAsDefault"
    }

    fn category(&self) -> (r: Category) {
        Category::Lint
    }

    fn severity(&self) -> (r: Severity) {
        Severity::Warning
    }

    open spec fn spec_description(&self) -> Seq<char> {
        "Hash.new with kwargs"@
    }

    fn description(&self) -> (r: &str) {
        "Hash.new with kwargs"
    }

    fn check(&self, source: &SourceFile) -> (r: Vec<Offense>) {
        report(self.name(), self.severity(), Vec::new())
    }
}

/// Dir.glob without sort
pub struct NonDeterministicRequireOrder;

impl Cop for NonDeterministicRequireOrder {
    open spec fn spec_name(&self) -> Seq<char> {
        "Lint/NonDeterministicRequireOrder"@
    }

    open spec fn spec_category(&self) -> Category {
        Category::Lint
    }

    open spec fn spec_severity(&self) -> Severity {
        Severity::Warning
    }

    open spec fn spec_check(&self, src: SourceView) -> Seq<FindingView> {
        seq![]
    }

    fn name(&self) -> (r: &str) {
        "Lint/NonDeterministicRequireOrder"
    }

    fn category(&self) -> (r: Category) {
        Category::Lint
    }

    fn severity(&self) -> (r: Severity) {
        Severity::Warning
    }

    open spec fn spec_description(&self) -> Seq<char> {
        "Dir.glob without sort"@
    }

    fn description(&self) -> (r: &str) {
        "Dir.glob without sort"
    }

    fn check(&self, source: &SourceFile) -> (r: Vec<Offense>) {
        report(self.name(), self.severity(), Vec::new())
    }
}

/// &.empty? issue
pub struct SafeNavigationWithEmpty;

impl Cop for SafeNavigationWithEmpty {
    open spec fn spec_name(&self) -> Seq<char> {
        "Lint/SafeNavigationWithEmpty"@
    }

    open spec fn spec_category(&self) -> Category {
        Category::Lint
    }

    open spec fn spec_severity(&self) -> Severity {
        Severity::Warning
    }

    open spec fn spec_check(&self, src: SourceView) -> Seq<FindingView> {
        seq![]
    }

    fn name(&self) -> (r: &str) {
        "Lint/SafeNavigationWithEmpty"
    }

    fn category(&self) -> (r: Category) {
        Category::Lint
    }

    fn severity(&self) -> (r: Severity) {
        Severity::Warning
    }

    open spec fn spec_description(&self) -> Seq<char> {
        "&.empty? issue"@
    }

    fn description(&self) -> (r: &str) {
        "&.empty? issue"
    }

    fn check(&self, source: &SourceFile) -> (r: Vec<Offense>) {
        report(self.name(), self.severity(), Vec::new())
    }
}

/// Array literal in regexp
pub struct ArrayLiteralInRegexp;

impl Cop for ArrayLiteralInRegexp {
    open spec fn spec_name(&self) -> Seq<char> {
        "Lint/ArrayLiteralInRegexp"@
    }

    open spec fn spec_category(&self) -> Category {
        Category::Lint
    }

    open spec fn spec_severity(&self) -> Severity {
        Severity::Warning
    }

    open spec fn spec_check(&self, src: SourceView) -> Seq<FindingView> {
        seq![]
    }

    fn name(&self) -> (r: &str) {
        "Lint/ArrayLiteralInRegexp"
    }

    fn category(&self) -> (r: Category) {
        Category::Lint
    }

    fn severity(&self) -> (r: Severity) {
        Severity::Warning
    }

    open spec fn spec_description(&self) -> Seq<char> {
        "Array literal in regexp"@
    }

    fn description(&self) -> (r: &str) {
        "Array literal in regexp"
    }

    fn check(&self, source: &SourceFile) -> (r: Vec<Offense>) {
        report(self.name(), self.severity(), Vec::new())
    }
}

/// Use of deprecated constants
pub struct DeprecatedConstants;

impl Cop for DeprecatedConstants {
    open spec fn spec_name(&self) -> Seq<char> {
        "Lint/DeprecatedConstants"@
    }

    open spec fn spec_category(&self) -> Category {
        Category::Lint
    }

    open spec fn spec_severity(&self) -> Severity {
        Severity::Warning
    }

    open spec fn spec_check(&self, src: SourceView) -> Seq<FindingView> {
        seq![]
    }

    fn name(&self) -> (r: &str) {
        "Lint/DeprecatedConstants"
    }

    fn category(&self) -> (r: Category) {
        Category::Lint
    }

    fn severity(&self) -> (r: Severity) {
        Severity::Warning
    }

    open spec fn spec_description(&self) -> Seq<char> {
        "Use of deprecated constants"@
    }

    fn description(&self) -> (r: &str) {
        "Use of deprecated constants"
    }

    fn check(&self, source: &SourceFile) -> (r: Vec<Offense>) {
        report(self.name(), self.severity(), Vec::new())
    }
}

/// Use of deprecated OpenSSL constants
pub struct DeprecatedOpenSSLConstant;

impl Cop for DeprecatedOpenSSLConstant {
    open spec fn spec_name(&self) -> Seq<char> {
        "Lint/DeprecatedOpenSSLConstant"@
    }

    open spec fn spec_category(&self) -> Category {
        Category::Lint
    }

    open spec fn spec_severity(&self) -> Severity {
        Severity::Warning
    }

    open spec fn spec_check(&self, src: SourceView) -> Seq<FindingView> {
        seq![]
    }

    fn name(&self) -> (r: &str) {
        "Lint/DeprecatedOpenSSLConstant"
    }

    fn category(&self) -> (r: Category) {
        Category::Lint
    }

    fn severity(&self) -> (r: Severity) {
        Severity::Warning
    }

    open spec fn spec_description(&self) -> Seq<char> {
        "Use of deprecated OpenSSL constants"@
    }

    fn description(&self) -> (r: &str) {
        "Use of deprecated OpenSSL constants"
    }

    fn check(&self, source: &SourceFile) -> (r: Vec<Offense>) {
        report(self.name(), self.severity(), Vec::new())
    }
}

/// Mixed named and numbered captures in regexp
pub struct MixedRegexpCaptureTypes;

impl Cop for MixedRegexpCaptureTypes {
    open spec fn spec_name(&self) -> Seq<char> {
        "Lint/MixedRegexpCaptureTypes"@
    }

    open spec fn spec_category(&self) -> Category {
        Category::Lint
    }

    open spec fn spec_severity(&self) -> Severity {
        Severity::Warning
    }

    open spec fn spec_check(&self, src: SourceView) -> Seq<FindingView> {
        seq![]
    }

    fn name(&self) -> (r: &str) {
        "Lint/MixedRegexpCaptureTypes"
    }

    fn category(&self) -> (r: Category) {
        Category::Lint
    }

    fn severity(&self) -> (r: Severity) {
        Severity::Warning
    }

    open spec fn spec_description(&self) -> Seq<char> {
        "Mixed named and numbered captures in regexp"@
    }

    fn description(&self) -> (r: &str) {
        "Mixed named and numbered captures in regexp"
    }

    fn check(&self, source: &SourceFile) -> (r: Vec<Offense>) {
        report(self.name(), self.severity(), Vec::new())
    }
}

/// Numeric operation with constant result
pub struct NumericOperationWithConstantResult;

impl Cop for NumericOperationWithConstantResult {
    open spec fn spec_name(&self) -> Seq<char> {
        "Lint/NumericOperationWithConstantResult"@
    }

    open spec fn spec_category(&self) -> Category {
        Category::Lint
    }

    open spec fn spec_severity(&self) -> Severity {
        Severity::Warning
    }

    open spec fn spec_check(&self, src: SourceView) -> Seq<FindingView> {
        seq![]
    }

    fn name(&self) -> (r: &str) {
        "Lint/NumericOperationWithConstantResult"
    }

    fn category(&self) -> (r: Category) {
        Category::Lint
    }

    fn severity(&self) -> (r: Severity) {
        Severity::Warning
    }

    open spec fn spec_description(&self) -> Seq<char> {
        "Numeric operation with constant result"@
    }

    fn description(&self) -> (r: &str) {
        "Numeric operation with constant result"
    }

    fn check(&self, source: &SourceFile) -> (r: Vec<Offense>) {
        report(self.name(), self.severity(), Vec::new())
    }
}

/// Redundant rubocop:enable directive
pub struct RedundantCopEnableDirective;

impl Cop for RedundantCopEnableDirective {
    open spec fn spec_name(&self) -> Seq<char> {
        "Lint/RedundantCopEnableDirective"@
    }

    open spec fn spec_category(&self) -> Category {
        Category::Lint
    }

    open spec fn spec_severity(&self) -> Severity {
        Severity::Warning
    }

    open spec fn spec_check(&self, src: SourceView) -> Seq<FindingView> {
        seq![]
    }

    fn name(&self) -> (r: &str) {
        "Lint/RedundantCopEnableDirective"
    }

    fn category(&self) -> (r: Category) {
        Category::Lint
    }

    fn severity(&self) -> (r: Severity) {
        Severity::Warning
    }

    open spec fn spec_description(&self) -> Seq<char> {
        "Redundant rubocop:enable directive"@
    }

    fn description(&self) -> (r: &str) {
        "Redundant rubocop:enable directive"
    }

    fn check(&self, source: &SourceFile) -> (r: Vec<Offense>) {
        report(self.name(), self.severity(), Vec::new())
    }
}

/// Unescaped bracket in regexp
pub struct UnescapedBracketInRegexp;

impl Cop for UnescapedBracketInRegexp {
    open spec fn spec_name(&self) -> Seq<char> {
        "Lint/UnescapedBracketInRegexp"@
    }

    open spec fn spec_category(&self) -> Category {
        Category::Lint
    }

    open spec fn spec_severity(&self) -> Severity {
        Severity::Warning
    }

    open spec fn spec_check(&self, src: SourceView) -> Seq<FindingView> {
        seq![]
    }

    fn name(&self) -> (r: &str) {
        "Lint/UnescapedBracketInRegexp"
    }

    fn category(&self) -> (r: Category) {
        Category::Lint
    }

    fn severity(&self) -> (r: Severity) {
        Severity::Warning
    }

    open spec fn spec_description(&self) -> Seq<char> {
        "Unescaped bracket in regexp"@
    }

    fn description(&self) -> (r: &str) {
        "Unescaped bracket in regexp"
    }

    fn check(&self, source: &SourceFile) -> (r: Vec<Offense>) {
        report(self.name(), self.severity(), Vec::new())
    }
}

/// Literal used as condition
pub struct LiteralAsCondition;

impl Cop for LiteralAsCondition {
    open spec fn spec_name(&self) -> Seq<char> {
        "Lint/LiteralAsCondition"@
    }

    open spec fn spec_category(&self) -> Category {
        Category::Lint
    }

    open spec fn spec_severity(&self) -> Severity {
        Severity::Warning
    }

    open spec fn spec_check(&self, src: SourceView) -> Seq<FindingView> {
        seq![]
    }

    fn name(&self) -> (r: &str) {
        "Lint/LiteralAsCondition"
    }

    fn category(&self) -> (r: Category) {
        Category::Lint
    }

    fn severity(&self) -> (r: Severity) {
        Severity::Warning
    }

    open spec fn spec_description(&self) -> Seq<char> {
        "Literal used as condition"@
    }

    fn description(&self) -> (r: &str) {
        "Literal used as condition"
    }

    fn check(&self, source: &SourceFile) -> (r: Vec<Offense>) {
        report(self.name(), self.severity(), Vec::new())
    }
}

/// Deprecated Derived cop
pub struct Derived;

impl Cop for Derived {
    open spec fn spec_name(&self) -> Seq<char> {
        "Lint/Derived"@
    }

    open spec fn spec_category(&self) -> Category {
        Category::Lint
    }

    open spec fn spec_severity(&self) -> Severity {
        Severity::Warning
    }

    open spec fn spec_check(&self, src: SourceView) -> Seq<FindingView> {
        seq![]
    }

    fn name(&self) -> (r: &str) {
        "Lint/Derived"
    }

    fn category(&self) -> (r: Category) {
        Category::Lint
    }

    fn severity(&self) -> (r: Severity) {
        Severity::Warning
    }

    open spec fn spec_description(&self) -> Seq<char> {
        "Deprecated Derived cop"@
    }

    fn description(&self) -> (r: &str) {
        "Deprecated Derived cop"
    }

    fn check(&self, source: &SourceFile) -> (r: Vec<Offense>) {
        report(self.name(), self.severity(), Vec::new())
    }
}

/// The additional lint cops, in the order `all_lint_extra_cops` returns them,
/// each by name, category and severity.
pub open spec fn lint_extra_cops(cops: Seq<Box<dyn Cop>>) -> bool {
    &&& cops.len() == 150
    &&& cop_at(cops, 0, "Lint/AmbiguousAssignment"@, Category::Lint, Severity::Warning)
    &&& cop_at(cops, 1, "Lint/AmbiguousOperator"@, Category::Lint, Severity::Warning)
    &&& cop_at(cops, 2, "Lint/AmbiguousRegexpLiteral"@, Category::Lint, Severity::Warning)
    &&& cop_at(cops, 3, "Lint/AmbiguousRange"@, Category::Lint, Severity::Warning)
    &&& cop_at(cops, 4, "Lint/AssignmentInCondition"@, Category::Lint, Severity::Warning)
    &&& cop_at(cops, 5, "Lint/BigDecimalNew"@, Category::Lint, Severity::Warning)
    &&& cop_at(cops, 6, "Lint/BinaryOperatorWithIdenticalOperands"@, Category::Lint, Severity::Warning)
    &&& cop_at(cops, 7, "Lint/BooleanSymbol"@, Category::Lint, Severity::Warning)
    &&& cop_at(cops, 8, "Lint/ConstantDefinitionInBlock"@, Category::Lint, Severity::Warning)
    &&& cop_at(cops, 9, "Lint/ConstantReassignment"@, Category::Lint, Severity::Warning)
    &&& cop_at(cops, 10, "Lint/DeprecatedClassMethods"@, Category::Lint, Severity::Warning)
    &&& cop_at(cops, 11, "Lint/EmptyBlock"@, Category::Lint, Severity::Warning)
    &&& cop_at(cops, 12, "Lint/EmptyFile"@, Category::Lint, Severity::Warning)
    &&& cop_at(cops, 13, "Lint/EmptyInterpolation"@, Category::Lint, Severity::Warning)
    &&& cop_at(cops, 14, "Lint/FloatComparison"@, Category::Lint, Severity::Warning)
    &&& cop_at(cops, 15, "Lint/Loop"@, Category::Lint, Severity::Warning)
    &&& cop_at(cops, 16, "Lint/RandOne"@, Category::Lint, Severity::Warning)
    &&& cop_at(cops, 17, "Lint/RedundantStringCoercion"@, Category::Lint, Severity::Warning)
    &&& cop_at(cops, 18, "Lint/RescueException"@, Category::Lint, Severity::Warning)
    &&& cop_at(cops, 19, "Lint/SelfAssignment"@, Category::Lint, Severity::Warning)
    &&& cop_at(cops, 20, "Lint/SuppressedException"@, Category::Lint, Severity::Warning)
    &&& cop_at(cops, 21, "Lint/Derived"@, Category::Lint, Severity::Warning)
    &&& cop_at(cops, 22, "Lint/DuplicateBranch"@, Category::Lint, Severity::Warning)
    &&& cop_at(cops, 23, "Lint/DuplicateCaseCondition"@, Category::Lint, Severity::Warning)
    &&& cop_at(cops, 24, "Lint/DuplicateElsifCondition"@, Category::Lint, Severity::Warning)
    &&& cop_at(cops, 25, "Lint/DuplicateHashKey"@, Category::Lint, Severity::Warning)
    &&& cop_at(cops, 26, "Lint/DuplicateMagicComment"@, Category::Lint, Severity::Warning)
    &&& cop_at(cops, 27, "Lint/DuplicateRequire"@, Category::Lint, Severity::Warning)
    &&& cop_at(cops, 28, "Lint/DuplicateRescueException"@, Category::Lint, Severity::Warning)
    &&& cop_at(cops, 29, "Lint/EmptyClass"@, Category::Lint, Severity::Warning)
    &&& cop_at(cops, 30, "Lint/EmptyConditionalBody"@, Category::Lint, Severity::Warning)
    &&& cop_at(cops, 31, "Lint/EmptyEnsure"@, Category::Lint, Severity::Warning)
    &&& cop_at(cops, 32, "Lint/EmptyWhen"@, Category::Lint, Severity::Warning)
    &&& cop_at(cops, 33, "Lint/EnsureReturn"@, Category::Lint, Severity::Warning)
    &&& cop_at(cops, 34, "Lint/FlipFlop"@, Category::Lint, Severity::Warning)
    &&& cop_at(cops, 35, "Lint/FloatOutOfRange"@, Category::Lint, Severity::Warning)
    &&& cop_at(cops, 36, "Lint/FormatParameterMismatch"@, Category::Lint, Severity::Warning)
    &&& cop_at(cops, 37, "Lint/IdentityComparison"@, Category::Lint, Severity::Warning)
    &&& cop_at(cops, 38, "Lint/ImplicitStringConcatenation"@, Category::Lint, Severity::Warning)
    &&& cop_at(cops, 39, "Lint/InheritException"@, Category::Lint, Severity::Warning)
    &&& cop_at(cops, 40, "Lint/LiteralInInterpolation"@, Category::Lint, Severity::Warning)
    &&& cop_at(cops, 41, "Lint/MissingSuper"@, Category::Lint, Severity::Warning)
    &&& cop_at(cops, 42, "Lint/NestedMethodDefinition"@, Category::Lint, Severity::Warning)
    &&& cop_at(cops, 43, "Lint/NestedPercentLiteral"@, Category::Lint, Severity::Warning)
    &&& cop_at(cops, 44, "Lint/NonLocalExitFromIterator"@, Category::Lint, Severity::Warning)
    &&& cop_at(cops, 45, "Lint/NumberConversion"@, Category::Lint, Severity::Warning)
    &&& cop_at(cops, 46, "Lint/OrAssignmentToConstant"@, Category::Lint, Severity::Warning)
    &&& cop_at(cops, 47, "Lint/OrderedMagicComments"@, Category::Lint, Severity::Warning)
    &&& cop_at(cops, 48, "Lint/ParenthesesAsGroupedExpression"@, Category::Lint, Severity::Warning)
    &&& cop_at(cops, 49, "Lint/PercentStringArray"@, Category::Lint, Severity::Warning)
    &&& cop_at(cops, 50, "Lint/PercentSymbolArray"@, Category::Lint, Severity::Warning)
    &&& cop_at(cops, 51, "Lint/RaiseException"@, Category::Lint, Severity::Warning)
    &&& cop_at(cops, 52, "Lint/RedundantCopDisableDirective"@, Category::Lint, Severity::Warning)
    &&& cop_at(cops, 53, "Lint/RedundantRequireStatement"@, Category::Lint, Severity::Warning)
    &&& cop_at(cops, 54, "Lint/RedundantWithIndex"@, Category::Lint, Severity::Warning)
    &&& cop_at(cops, 55, "Lint/RedundantWithObject"@, Category::Lint, Severity::Warning)
    &&& cop_at(cops, 56, "Lint/RegexpAsCondition"@, Category::Lint, Severity::Warning)
    &&& cop_at(cops, 57, "Lint/RescueType"@, Category::Lint, Severity::Warning)
    &&& cop_at(cops, 58, "Lint/ReturnInVoidContext"@, Category::Lint, Severity::Warning)
    &&& cop_at(cops, 59, "Lint/SafeNavigationChain"@, Category::Lint, Severity::Warning)
    &&& cop_at(cops, 60, "Lint/ScriptPermission"@, Category::Lint, Severity::Warning)
    &&& cop_at(cops, 61, "Lint/ShadowedException"@, Category::Lint, Severity::Warning)
    &&& cop_at(cops, 62, "Lint/ShadowingOuterLocalVariable"@, Category::Lint, Severity::Warning)
    &&& cop_at(cops, 63, "Lint/SymbolConversion"@, Category::Lint, Severity::Warning)
    &&& cop_at(cops, 64, "Lint/ToJSON"@, Category::Lint, Severity::Warning)
    &&& cop_at(cops, 65, "Lint/TopLevelReturnWithArgument"@, Category::Lint, Severity::Warning)
    &&& cop_at(cops, 66, "Lint/TrailingCommaInAttributeDeclaration"@, Category::Lint, Severity::Warning)
    &&& cop_at(cops, 67, "Lint/TripleQuotes"@, Category::Lint, Severity::Warning)
    &&& cop_at(cops, 68, "Lint/UnderscorePrefixedVariableName"@, Category::Lint, Severity::Warning)
    &&& cop_at(cops, 69, "Lint/UnifiedInteger"@, Category::Lint, Severity::Warning)
    &&& cop_at(cops, 70, "Lint/UnreachableCode"@, Category::Lint, Severity::Warning)
    &&& cop_at(cops, 71, "Lint/UnreachableLoop"@, Category::Lint, Severity::Warning)
    &&& cop_at(cops, 72, "Lint/UnusedBlockArgument"@, Category::Lint, Severity::Warning)
    &&& cop_at(cops, 73, "Lint/UnusedMethodArgument"@, Category::Lint, Severity::Warning)
    &&& cop_at(cops, 74, "Lint/UselessAssignment"@, Category::Lint, Severity::Warning)
    &&& cop_at(cops, 75, "Lint/UselessMethodDefinition"@, Category::Lint, Severity::Warning)
    &&& cop_at(cops, 76, "Lint/Void"@, Category::Lint, Severity::Warning)
    &&& cop_at(cops, 77, "Lint/LiteralAssignmentInCondition"@, Category::Lint, Severity::Warning)
    &&& cop_at(cops, 78, "Lint/SharedMutableDefault"@, Category::Lint, Severity::Warning)
    &&& cop_at(cops, 79, "Lint/MixedCaseRange"@, Category::Lint, Severity::Warning)
    &&& cop_at(cops, 80, "Lint/ItWithoutArgumentsInBlock"@, Category::Lint, Severity::Warning)
    &&& cop_at(cops, 81, "Lint/DuplicateSetElement"@, Category::Lint, Severity::Warning)
    &&& cop_at(cops, 82, "Lint/DuplicateMatchPattern"@, Category::Lint, Severity::Warning)
    &&& cop_at(cops, 83, "Lint/DuplicateRegexpCharacterClassElement"@, Category::Lint, Severity::Warning)
    &&& cop_at(cops, 84, "Lint/EmptyExpression"@, Category::Lint, Severity::Warning)
    &&& cop_at(cops, 85, "Lint/EmptyInPattern"@, Category::Lint, Severity::Warning)
    &&& cop_at(cops, 86, "Lint/HashCompareByIdentity"@, Category::Lint, Severity::Warning)
    &&& cop_at(cops, 87, "Lint/IneffectiveAccessModifier"@, Category::Lint, Severity::Warning)
    &&& cop_at(cops, 88, "Lint/InterpolationCheck"@, Category::Lint, Severity::Warning)
    &&& cop_at(cops, 89, "Lint/MissingCopEnableDirective"@, Category::Lint, Severity::Warning)
    &&& cop_at(cops, 90, "Lint/MultipleComparison"@, Category::Lint, Severity::Warning)
    &&& cop_at(cops, 91, "Lint/NextWithoutAccumulator"@, Category::Lint, Severity::Warning)
    &&& cop_at(cops, 92, "Lint/NoReturnInBeginEndBlocks"@, Category::Lint, Severity::Warning)
    &&& cop_at(cops, 93, "Lint/NonAtomicFileOperation"@, Category::Lint, Severity::Warning)
    &&& cop_at(cops, 94, "Lint/NumberedParameterAssignment"@, Category::Lint, Severity::Warning)
    &&& cop_at(cops, 95, "Lint/OutOfRangeRegexpRef"@, Category::Lint, Severity::Warning)
    &&& cop_at(cops, 96, "Lint/RedundantSafeNavigation"@, Category::Lint, Severity::Warning)
    &&& cop_at(cops, 97, "Lint/RedundantSplatExpansion"@, Category::Lint, Severity::Warning)
    &&& cop_at(cops, 98, "Lint/RequireParentheses"@, Category::Lint, Severity::Warning)
    &&& cop_at(cops, 99, "Lint/SafeNavigationConsistency"@, Category::Lint, Severity::Warning)
    &&& cop_at(cops, 100, "Lint/SendWithMixinArgument"@, Category::Lint, Severity::Warning)
    &&& cop_at(cops, 101, "Lint/ShadowedArgument"@, Category::Lint, Severity::Warning)
    &&& cop_at(cops, 102, "Lint/StructNewOverride"@, Category::Lint, Severity::Warning)
    &&& cop_at(cops, 103, "Lint/SuppressedExceptionInNumberConversion"@, Category::Lint, Severity::Warning)
    &&& cop_at(cops, 104, "Lint/Syntax"@, Category::Lint, Severity::Warning)
    &&& cop_at(cops, 105, "Lint/ToEnumArguments"@, Category::Lint, Severity::Warning)
    &&& cop_at(cops, 106, "Lint/UnexpectedBlockArity"@, Category::Lint, Severity::Warning)
    &&& cop_at(cops, 107, "Lint/UnmodifiedReduceAccumulator"@, Category::Lint, Severity::Warning)
    &&& cop_at(cops, 108, "Lint/UriEscapeUnescape"@, Category::Lint, Severity::Warning)
    &&& cop_at(cops, 109, "Lint/UriRegexp"@, Category::Lint, Severity::Warning)
    &&& cop_at(cops, 110, "Lint/UselessAccessModifier"@, Category::Lint, Severity::Warning)
    &&& cop_at(cops, 111, "Lint/UselessDefined"@, Category::Lint, Severity::Warning)
    &&& cop_at(cops, 112, "Lint/UselessElseWithoutRescue"@, Category::Lint, Severity::Warning)
    &&& cop_at(cops, 113, "Lint/UselessRescue"@, Category::Lint, Severity::Warning)
    &&& cop_at(cops, 114, "Lint/UselessSetterCall"@, Category::Lint, Severity::Warning)
    &&& cop_at(cops, 115, "Lint/UselessTimes"@, Category::Lint, Severity::Warning)
    &&& cop_at(cops, 116, "Lint/UselessOr"@, Category::Lint, Severity::Warning)
    &&& cop_at(cops, 117, "Lint/UselessConstantScoping"@, Category::Lint, Severity::Warning)
    &&& cop_at(cops, 118, "Lint/UselessDefaultValueArgument"@, Category::Lint, Severity::Warning)
    &&& cop_at(cops, 119, "Lint/UselessNumericOperation"@, Category::Lint, Severity::Warning)
    &&& cop_at(cops, 120, "Lint/UselessRuby2Keywords"@, Category::Lint, Severity::Warning)
    &&& cop_at(cops, 121, "Lint/RedundantDirGlobSort"@, Category::Lint, Severity::Warning)
    &&& cop_at(cops, 122, "Lint/RedundantRegexpQuantifiers"@, Category::Lint, Severity::Warning)
    &&& cop_at(cops, 123, "Lint/RedundantTypeConversion"@, Category::Lint, Severity::Warning)
    &&& cop_at(cops, 124, "Lint/RequireRangeParentheses"@, Category::Lint, Severity::Warning)
    &&& cop_at(cops, 125, "Lint/RequireRelativeSelfPath"@, Category::Lint, Severity::Warning)
    &&& cop_at(cops, 126, "Lint/RefinementImportMethods"@, Category::Lint, Severity::Warning)
    &&& cop_at(cops, 127, "Lint/LambdaWithoutLiteralBlock"@, Category::Lint, Severity::Warning)
    &&& cop_at(cops, 128, "Lint/HeredocMethodCallPosition"@, Category::Lint, Severity::Warning)
    &&& cop_at(cops, 129, "Lint/ErbNewArguments"@, Category::Lint, Severity::Warning)
    &&& cop_at(cops, 130, "Lint/AmbiguousBlockAssociation"@, Category::Lint, Severity::Warning)
    &&& cop_at(cops, 131, "Lint/AmbiguousOperatorPrecedence"@, Category::Lint, Severity::Warning)
    &&& cop_at(cops, 132, "Lint/ConstantOverwrittenInRescue"@, Category::Lint, Severity::Warning)
    &&& cop_at(cops, 133, "Lint/ConstantResolution"@, Category::Lint, Severity::Warning)
    &&& cop_at(cops, 134, "Lint/CopDirectiveSyntax"@, Category::Lint, Severity::Warning)
    &&& cop_at(cops, 135, "Lint/EachWithObjectArgument"@, Category::Lint, Severity::Warning)
    &&& cop_at(cops, 136, "Lint/ElseLayout"@, Category::Lint, Severity::Warning)
    &&& cop_at(cops, 137, "Lint/CircularArgumentReference"@, Category::Lint, Severity::Warning)
    &&& cop_at(cops, 138, "Lint/IncompatibleIoSelectWithFiberScheduler"@, Category::Lint, Severity::Warning)
    &&& cop_at(cops, 139, "Lint/HashNewWithKeywordArgumentsAsDefault"@, Category::Lint, Severity::Warning)
    &&& cop_at(cops, 140, "Lint/NonDeterministicRequireOrder"@, Category::Lint, Severity::Warning)
    &&& cop_at(cops, 141, "Lint/SafeNavigationWithEmpty"@, Category::Lint, Severity::Warning)
    &&& cop_at(cops, 142, "Lint/ArrayLiteralInRegexp"@, Category::Lint, Severity::Warning)
    &&& cop_at(cops, 143, "Lint/DeprecatedConstants"@, Category::Lint, Severity::Warning)
    &&& cop_at(cops, 144, "Lint/DeprecatedOpenSSLConstant"@, Category::Lint, Severity::Warning)
    &&& cop_at(cops, 145, "Lint/MixedRegexpCaptureTypes"@, Category::Lint, Severity::Warning)
    &&& cop_at(cops, 146, "Lint/NumericOperationWithConstantResult"@, Category::Lint, Severity::Warning)
    &&& cop_at(cops, 147, "Lint/RedundantCopEnableDirective"@, Category::Lint, Severity::Warning)
    &&& cop_at(cops, 148, "Lint/UnescapedBracketInRegexp"@, Category::Lint, Severity::Warning)
    &&& cop_at(cops, 149, "Lint/LiteralAsCondition"@, Category::Lint, Severity::Warning)
}

/// Returns all cops of this module as trait objects.
pub fn all_lint_extra_cops() -> (r: Vec<Box<dyn Cop>>)
    ensures
        lint_extra_cops(r@),
{
    let v: Vec<Box<dyn Cop>> = vec![
        Box::new(AmbiguousAssignment),
        Box::new(AmbiguousOperator),
        Box::new(AmbiguousRegexpLiteral),
        Box::new(AmbiguousRange),
        Box::new(AssignmentInCondition),
        Box::new(BigDecimalNew),
        Box::new(BinaryOperatorWithIdenticalOperands),
        Box::new(BooleanSymbol),
        Box::new(ConstantDefinitionInBlock),
        Box::new(ConstantReassignment),
        Box::new(DeprecatedClassMethods),
        Box::new(EmptyBlock),
        Box::new(EmptyFile),
        Box::new(EmptyInterpolation),
        Box::new(FloatComparison),
        Box::new(Loop),
        Box::new(RandOne),
        Box::new(RedundantStringCoercion),
        Box::new(RescueException),
        Box::new(SelfAssignment),
        Box::new(SuppressedException),
        Box::new(Derived),
        Box::new(DuplicateBranch),
        Box::new(DuplicateCaseCondition),
        Box::new(DuplicateElsifCondition),
        Box::new(DuplicateHashKey),
        Box::new(DuplicateMagicComment),
        Box::new(DuplicateRequire),
        Box::new(DuplicateRescueException),
        Box::new(EmptyClass),
        Box::new(EmptyConditionalBody),
        Box::new(EmptyEnsure),
        Box::new(EmptyWhen),
        Box::new(EnsureReturn),
        Box::new(FlipFlop),
        Box::new(FloatOutOfRange),
        Box::new(FormatParameterMismatch),
        Box::new(IdentityComparison),
        Box::new(ImplicitStringConcatenation),
        Box::new(InheritException),
        Box::new(LiteralInInterpolation),
        Box::new(MissingSuper),
        Box::new(NestedMethodDefinition),
        Box::new(NestedPercentLiteral),
        Box::new(NonLocalExitFromIterator),
        Box::new(NumberConversion),
        Box::new(OrAssignmentToConstant),
        Box::new(OrderedMagicComments),
        Box::new(ParenthesesAsGroupedExpression),
        Box::new(PercentStringArray),
        Box::new(PercentSymbolArray),
        Box::new(RaiseException),
        Box::new(RedundantCopDisableDirective),
        Box::new(RedundantRequireStatement),
        Box::new(RedundantWithIndex),
        Box::new(RedundantWithObject),
        Box::new(RegexpAsCondition),
        Box::new(RescueType),
        Box::new(ReturnInVoidContext),
        Box::new(SafeNavigationChain),
        Box::new(ScriptPermission),
        Box::new(ShadowedException),
        Box::new(ShadowingOuterLocalVariable),
        Box::new(SymbolConversion),
        Box::new(ToJSON),
        Box::new(TopLevelReturnWithArgument),
        Box::new(TrailingCommaInAttributeDeclaration),
        Box::new(TripleQuotes),
        Box::new(UnderscorePrefixedVariableName),
        Box::new(UnifiedInteger),
        Box::new(UnreachableCode),
        Box::new(UnreachableLoop),
        Box::new(UnusedBlockArgument),
        Box::new(UnusedMethodArgument),
        Box::new(UselessAssignment),
        Box::new(UselessMethodDefinition),
        Box::new(Void),
        Box::new(LiteralAssignmentInCondition),
        Box::new(SharedMutableDefault),
        Box::new(MixedCaseRange),
        Box::new(ItWithoutArgumentsInBlock),
        Box::new(DuplicateSetElement),
        Box::new(DuplicateMatchPattern),
        Box::new(DuplicateRegexpCharacterClassElement),
        Box::new(EmptyExpression),
        Box::new(EmptyInPattern),
        Box::new(HashCompareByIdentity),
        Box::new(IneffectiveAccessModifier),
        Box::new(InterpolationCheck),
        Box::new(MissingCopEnableDirective),
        Box::new(MultipleComparison),
        Box::new(NextWithoutAccumulator),
        Box::new(NoReturnInBeginEndBlocks),
        Box::new(NonAtomicFileOperation),
        Box::new(NumberedParameterAssignment),
        Box::new(OutOfRangeRegexpRef),
        Box::new(RedundantSafeNavigation),
        Box::new(RedundantSplatExpansion),
        Box::new(RequireParentheses),
        Box::new(SafeNavigationConsistency),
        Box::new(SendWithMixinArgument),
        Box::new(ShadowedArgument),
        Box::new(StructNewOverride),
        Box::new(SuppressedExceptionInNumberConversion),
        Box::new(Syntax),
        Box::new(ToEnumArguments),
        Box::new(UnexpectedBlockArity),
        Box::new(UnmodifiedReduceAccumulator),
        Box::new(UriEscapeUnescape),
        Box::new(UriRegexp),
        Box::new(UselessAccessModifier),
        Box::new(UselessDefined),
        Box::new(UselessElseWithoutRescue),
        Box::new(UselessRescue),
        Box::new(UselessSetterCall),
        Box::new(UselessTimes),
        Box::new(UselessOr),
        Box::new(UselessConstantScoping),
        Box::new(UselessDefaultValueArgument),
        Box::new(UselessNumericOperation),
        Box::new(UselessRuby2Keywords),
        Box::new(RedundantDirGlobSort),
        Box::new(RedundantRegexpQuantifiers),
        Box::new(RedundantTypeConversion),
        Box::new(RequireRangeParentheses),
        Box::new(RequireRelativeSelfPath),
        Box::new(RefinementImportMethods),
        Box::new(LambdaWithoutLiteralBlock),
        Box::new(HeredocMethodCallPosition),
        Box::new(ErbNewArguments),
        Box::new(AmbiguousBlockAssociation),
        Box::new(AmbiguousOperatorPrecedence),
        Box::new(ConstantOverwrittenInRescue),
        Box::new(ConstantResolution),
        Box::new(CopDirectiveSyntax),
        Box::new(EachWithObjectArgument),
        Box::new(ElseLayout),
        Box::new(CircularArgumentReference),
        Box::new(IncompatibleIoSelectWithFiberScheduler),
        Box::new(HashNewWithKeywordArgumentsAsDefault),
        Box::new(NonDeterministicRequireOrder),
        Box::new(SafeNavigationWithEmpty),
        Box::new(ArrayLiteralInRegexp),
        Box::new(DeprecatedConstants),
        Box::new(DeprecatedOpenSSLConstant),
        Box::new(MixedRegexpCaptureTypes),
        Box::new(NumericOperationWithConstantResult),
        Box::new(RedundantCopEnableDirective),
        Box::new(UnescapedBracketInRegexp),
        Box::new(LiteralAsCondition),
    ];
    v
}

} // verus!
