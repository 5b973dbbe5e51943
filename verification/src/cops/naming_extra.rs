//! Additional naming convention cops for Ruby code.

use vstd::prelude::*;

use crate::cop::{Category, Cop, Severity, cop_at};
use crate::offense::{Finding, FindingView, Message, Offense, finding, finding_views, report};
use crate::pattern::{captures_all, is_match, is_match_exec, regex_captures, whole, whole_exec};
use crate::rule::{LineRule, MatchRule, all_lines, all_matches, append_findings, one_if, push_if, run_lines, run_matches};
use crate::scan::{
    group_bytes, group_bytes_exec, line_matches_outside, line_matches_outside_exec, matches_outside,
    scan_matches_outside, whole_finding, whole_finding_exec,
};
use crate::source::{SourceFile, SourceView};
use crate::text::{bytes_of, ends_with, has_lower};
use crate::text::{bytes_eq, ends_with_str, eq_str, has_lower_exec};

verus! {

impl MatchRule for AccessorMethodName {
    /// A `get_` or `set_` method definition, outside strings and comments.
    open spec fn spec_match(&self, src: SourceView, i: int, m: Seq<Option<(int, int)>>) -> Seq<FindingView> {
        let l = src.lines[i];
        whole_finding(i, m, !src.in_string_or_comment(i + 1, whole(m).0 + 1), bytes_of("Use `") + group_bytes(l, m, 2) + bytes_of("` instead of `") + group_bytes(l, m, 1) + group_bytes(l, m, 2) + bytes_of("`"))
    }

    fn match_findings(&self, src: &SourceFile, i: usize, m: &Vec<Option<(usize, usize)>>) -> (r: Vec<Finding>) {
        let l = src.line_at(i);
        let (s, _e) = whole_exec(m, l.len());
        let hit = !src.in_string_or_comment(i + 1, s + 1);
        let mut msg = Message::from_str("Use `");
        msg.push_bytes(group_bytes_exec(l, m, 2));
        msg.push_str("` instead of `");
        msg.push_bytes(group_bytes_exec(l, m, 1));
        msg.push_bytes(group_bytes_exec(l, m, 2));
        msg.push_str("`");
        whole_finding_exec(i, m, l.len(), hit, msg)
    }
}

impl LineRule for AccessorMethodName {
    open spec fn spec_line(&self, src: SourceView, i: int) -> Seq<FindingView> {
        all_matches(self, src, i, regex_captures(r"^\s*def\s+(get_|set_)([a-z_][a-z0-9_]*)"@, src.lines[i]))
    }

    fn line_findings(&self, src: &SourceFile, i: usize) -> (r: Vec<Finding>) {
        let ms = captures_all(r"^\s*def\s+(get_|set_)([a-z_][a-z0-9_]*)", src.line_at(i));
        run_matches(self, src, i, &ms)
    }
}

/// Detects accessor method names with a `get_` or `set_` prefix.
pub struct AccessorMethodName;

impl Cop for AccessorMethodName {
    open spec fn spec_name(&self) -> Seq<char> {
        "Naming/AccessorMethodName"@
    }

    open spec fn spec_category(&self) -> Category {
        Category::Naming
    }

    open spec fn spec_severity(&self) -> Severity {
        Severity::Convention
    }

    open spec fn spec_check(&self, src: SourceView) -> Seq<FindingView> {
        all_lines(self, src)
    }

    fn name(&self) -> (r: &str) {
        "Naming/AccessorMethodName"
    }

    fn category(&self) -> (r: Category) {
        Category::Naming
    }

    fn severity(&self) -> (r: Severity) {
        Severity::Convention
    }

    open spec fn spec_description(&self) -> Seq<char> {
        "Accessor method names should not have get_/set_ prefix"@
    }

    fn description(&self) -> (r: &str) {
        "Accessor method names should not have get_/set_ prefix"
    }

    fn check(&self, source: &SourceFile) -> (r: Vec<Offense>) {
        report(self.name(), self.severity(), run_lines(self, source))
    }
}

impl MatchRule for AsciiIdentifiers {
    /// An identifier with a non-ASCII character, outside strings and comments.
    open spec fn spec_match(&self, src: SourceView, i: int, m: Seq<Option<(int, int)>>) -> Seq<FindingView> {
        let l = src.lines[i];
        whole_finding(i, m, is_match(r"[^\x00-\x7F]"@, group_bytes(l, m, 1)) && !src.in_string_or_comment(i + 1, whole(m).0 + 1), bytes_of("Use only ASCII characters in identifiers: `") + group_bytes(l, m, 1) + bytes_of("`"))
    }

    fn match_findings(&self, src: &SourceFile, i: usize, m: &Vec<Option<(usize, usize)>>) -> (r: Vec<Finding>) {
        let l = src.line_at(i);
        let (s, _e) = whole_exec(m, l.len());
        let hit = is_match_exec(r"[^\x00-\x7F]", group_bytes_exec(l, m, 1)) && !src.in_string_or_comment(i + 1, s + 1);
        let mut msg = Message::from_str("Use only ASCII characters in identifiers: `");
        msg.push_bytes(group_bytes_exec(l, m, 1));
        msg.push_str("`");
        whole_finding_exec(i, m, l.len(), hit, msg)
    }
}

impl LineRule for AsciiIdentifiers {
    open spec fn spec_line(&self, src: SourceView, i: int) -> Seq<FindingView> {
        all_matches(self, src, i, regex_captures(r"\b([a-zA-Z_\u{0080}-\u{FFFF}][a-zA-Z0-9_\u{0080}-\u{FFFF}]*)\b"@, src.lines[i]))
    }

    fn line_findings(&self, src: &SourceFile, i: usize) -> (r: Vec<Finding>) {
        let ms = captures_all(r"\b([a-zA-Z_\u{0080}-\u{FFFF}][a-zA-Z0-9_\u{0080}-\u{FFFF}]*)\b", src.line_at(i));
        run_matches(self, src, i, &ms)
    }
}

/// Detects identifiers with non-ASCII characters.
pub struct AsciiIdentifiers;

impl Cop for AsciiIdentifiers {
    open spec fn spec_name(&self) -> Seq<char> {
        "Naming/AsciiIdentifiers"@
    }

    open spec fn spec_category(&self) -> Category {
        Category::Naming
    }

    open spec fn spec_severity(&self) -> Severity {
        Severity::Convention
    }

    open spec fn spec_check(&self, src: SourceView) -> Seq<FindingView> {
        all_lines(self, src)
    }

    fn name(&self) -> (r: &str) {
        "Naming/AsciiIdentifiers"
    }

    fn category(&self) -> (r: Category) {
        Category::Naming
    }

    fn severity(&self) -> (r: Severity) {
        Severity::Convention
    }

    open spec fn spec_description(&self) -> Seq<char> {
        "Use only ASCII characters in identifiers"@
    }

    fn description(&self) -> (r: &str) {
        "Use only ASCII characters in identifiers"
    }

    fn check(&self, source: &SourceFile) -> (r: Vec<Offense>) {
        report(self.name(), self.severity(), run_lines(self, source))
    }
}

impl MatchRule for BinaryOperatorParameterName {
    /// A binary operator definition whose parameter is not `other`, outside strings and comments.
    open spec fn spec_match(&self, src: SourceView, i: int, m: Seq<Option<(int, int)>>) -> Seq<FindingView> {
        let l = src.lines[i];
        whole_finding(i, m, group_bytes(l, m, 2) != bytes_of("other") && !src.in_string_or_comment(i + 1, whole(m).0 + 1), bytes_of("Use `other` as parameter name for binary operators, not `") + group_bytes(l, m, 2) + bytes_of("`"))
    }

    fn match_findings(&self, src: &SourceFile, i: usize, m: &Vec<Option<(usize, usize)>>) -> (r: Vec<Finding>) {
        let l = src.line_at(i);
        let (s, _e) = whole_exec(m, l.len());
        let hit = !eq_str(group_bytes_exec(l, m, 2), "other") && !src.in_string_or_comment(i + 1, s + 1);
        let mut msg = Message::from_str("Use `other` as parameter name for binary operators, not `");
        msg.push_bytes(group_bytes_exec(l, m, 2));
        msg.push_str("`");
        whole_finding_exec(i, m, l.len(), hit, msg)
    }
}

impl LineRule for BinaryOperatorParameterName {
    open spec fn spec_line(&self, src: SourceView, i: int) -> Seq<FindingView> {
        all_matches(self, src, i, regex_captures(r"^\s*def\s+(\+|-|\*|/|%|==|!=|<|>|<=|>=|<=>|&|\||\^|<<|>>)\s*\(\s*([a-z_][a-z0-9_]*)\s*\)"@, src.lines[i]))
    }

    fn line_findings(&self, src: &SourceFile, i: usize) -> (r: Vec<Finding>) {
        let ms = captures_all(r"^\s*def\s+(\+|-|\*|/|%|==|!=|<|>|<=|>=|<=>|&|\||\^|<<|>>)\s*\(\s*([a-z_][a-z0-9_]*)\s*\)", src.line_at(i));
        run_matches(self, src, i, &ms)
    }
}

/// Checks that binary operator methods name their parameter `other`.
pub struct BinaryOperatorParameterName;

impl Cop for BinaryOperatorParameterName {
    open spec fn spec_name(&self) -> Seq<char> {
        "Naming/BinaryOperatorParameterName"@
    }

    open spec fn spec_category(&self) -> Category {
        Category::Naming
    }

    open spec fn spec_severity(&self) -> Severity {
        Severity::Convention
    }

    open spec fn spec_check(&self, src: SourceView) -> Seq<FindingView> {
        all_lines(self, src)
    }

    fn name(&self) -> (r: &str) {
        "Naming/BinaryOperatorParameterName"
    }

    fn category(&self) -> (r: Category) {
        Category::Naming
    }

    fn severity(&self) -> (r: Severity) {
        Severity::Convention
    }

    open spec fn spec_description(&self) -> Seq<char> {
        "Binary operator methods should use `other` for parameter name"@
    }

    fn description(&self) -> (r: &str) {
        "Binary operator methods should use `other` for parameter name"
    }

    fn check(&self, source: &SourceFile) -> (r: Vec<Offense>) {
        report(self.name(), self.severity(), run_lines(self, source))
    }
}

/// Detects methods that forward a block by the name `&block`.
pub struct BlockForwarding;

impl Cop for BlockForwarding {
    open spec fn spec_name(&self) -> Seq<char> {
        "Naming/BlockForwarding"@
    }

    open spec fn spec_category(&self) -> Category {
        Category::Naming
    }

    open spec fn spec_severity(&self) -> Severity {
        Severity::Convention
    }

    open spec fn spec_check(&self, src: SourceView) -> Seq<FindingView> {
        matches_outside(src, r"def\s+\w+\([^)]*&block\)"@, None, bytes_of("Use `&` for anonymous block forwarding instead of `&block`"))
    }

    fn name(&self) -> (r: &str) {
        "Naming/BlockForwarding"
    }

    fn category(&self) -> (r: Category) {
        Category::Naming
    }

    fn severity(&self) -> (r: Severity) {
        Severity::Convention
    }

    open spec fn spec_description(&self) -> Seq<char> {
        "Use anonymous block forwarding"@
    }

    fn description(&self) -> (r: &str) {
        "Use anonymous block forwarding"
    }

    fn check(&self, source: &SourceFile) -> (r: Vec<Offense>) {
        let fs = scan_matches_outside(source, r"def\s+\w+\([^)]*&block\)", None, "Use `&` for anonymous block forwarding instead of `&block`");
        report(self.name(), self.severity(), fs)
    }
}

impl MatchRule for BlockParameterName {
    /// A one-letter block parameter in braces, outside strings and comments.
    open spec fn spec_match(&self, src: SourceView, i: int, m: Seq<Option<(int, int)>>) -> Seq<FindingView> {
        let l = src.lines[i];
        whole_finding(i, m, group_bytes(l, m, 1).len() == 1 && group_bytes(l, m, 1) != bytes_of("_") && !src.in_string_or_comment(i + 1, whole(m).0 + 1), bytes_of("Block parameter `") + group_bytes(l, m, 1) + bytes_of("` is too short. Use descriptive names."))
    }

    fn match_findings(&self, src: &SourceFile, i: usize, m: &Vec<Option<(usize, usize)>>) -> (r: Vec<Finding>) {
        let l = src.line_at(i);
        let (s, _e) = whole_exec(m, l.len());
        let hit = group_bytes_exec(l, m, 1).len() == 1 && !eq_str(group_bytes_exec(l, m, 1), "_") && !src.in_string_or_comment(i + 1, s + 1);
        let mut msg = Message::from_str("Block parameter `");
        msg.push_bytes(group_bytes_exec(l, m, 1));
        msg.push_str("` is too short. Use descriptive names.");
        whole_finding_exec(i, m, l.len(), hit, msg)
    }
}

impl LineRule for BlockParameterName {
    open spec fn spec_line(&self, src: SourceView, i: int) -> Seq<FindingView> {
        all_matches(self, src, i, regex_captures(r"\{\s*\|([a-z])\|"@, src.lines[i]))
    }

    fn line_findings(&self, src: &SourceFile, i: usize) -> (r: Vec<Finding>) {
        let ms = captures_all(r"\{\s*\|([a-z])\|", src.line_at(i));
        run_matches(self, src, i, &ms)
    }
}

/// Detects one-letter parameters of brace blocks.
pub struct BlockParameterName;

impl Cop for BlockParameterName {
    open spec fn spec_name(&self) -> Seq<char> {
        "Naming/BlockParameterName"@
    }

    open spec fn spec_category(&self) -> Category {
        Category::Naming
    }

    open spec fn spec_severity(&self) -> Severity {
        Severity::Convention
    }

    open spec fn spec_check(&self, src: SourceView) -> Seq<FindingView> {
        all_lines(self, src)
    }

    fn name(&self) -> (r: &str) {
        "Naming/BlockParameterName"
    }

    fn category(&self) -> (r: Category) {
        Category::Naming
    }

    fn severity(&self) -> (r: Severity) {
        Severity::Convention
    }

    open spec fn spec_description(&self) -> Seq<char> {
        "Block parameter names should be descriptive"@
    }

    fn description(&self) -> (r: &str) {
        "Block parameter names should be descriptive"
    }

    fn check(&self, source: &SourceFile) -> (r: Vec<Offense>) {
        report(self.name(), self.severity(), run_lines(self, source))
    }
}

impl MatchRule for ClassAndModuleCamelCase {
    /// A class or module whose name starts in lowercase, outside strings and comments.
    open spec fn spec_match(&self, src: SourceView, i: int, m: Seq<Option<(int, int)>>) -> Seq<FindingView> {
        let l = src.lines[i];
        whole_finding(i, m, !src.in_string_or_comment(i + 1, whole(m).0 + 1), bytes_of("Class/Module name `") + group_bytes(l, m, 2) + bytes_of("` should use CamelCase"))
    }

    fn match_findings(&self, src: &SourceFile, i: usize, m: &Vec<Option<(usize, usize)>>) -> (r: Vec<Finding>) {
        let l = src.line_at(i);
        let (s, _e) = whole_exec(m, l.len());
        let hit = !src.in_string_or_comment(i + 1, s + 1);
        let mut msg = Message::from_str("Class/Module name `");
        msg.push_bytes(group_bytes_exec(l, m, 2));
        msg.push_str("` should use CamelCase");
        whole_finding_exec(i, m, l.len(), hit, msg)
    }
}

impl LineRule for ClassAndModuleCamelCase {
    open spec fn spec_line(&self, src: SourceView, i: int) -> Seq<FindingView> {
        all_matches(self, src, i, regex_captures(r"^\s*(class|module)\s+([a-z_][a-zA-Z0-9_]*)"@, src.lines[i]))
    }

    fn line_findings(&self, src: &SourceFile, i: usize) -> (r: Vec<Finding>) {
        let ms = captures_all(r"^\s*(class|module)\s+([a-z_][a-zA-Z0-9_]*)", src.line_at(i));
        run_matches(self, src, i, &ms)
    }
}

/// Checks that class and module names use CamelCase.
pub struct ClassAndModuleCamelCase;

impl Cop for ClassAndModuleCamelCase {
    open spec fn spec_name(&self) -> Seq<char> {
        "Naming/ClassAndModuleCamelCase"@
    }

    open spec fn spec_category(&self) -> Category {
        Category::Naming
    }

    open spec fn spec_severity(&self) -> Severity {
        Severity::Convention
    }

    open spec fn spec_check(&self, src: SourceView) -> Seq<FindingView> {
        all_lines(self, src)
    }

    fn name(&self) -> (r: &str) {
        "Naming/ClassAndModuleCamelCase"
    }

    fn category(&self) -> (r: Category) {
        Category::Naming
    }

    fn severity(&self) -> (r: Severity) {
        Severity::Convention
    }

    open spec fn spec_description(&self) -> Seq<char> {
        "Class and module names should use CamelCase"@
    }

    fn description(&self) -> (r: &str) {
        "Class and module names should use CamelCase"
    }

    fn check(&self, source: &SourceFile) -> (r: Vec<Offense>) {
        report(self.name(), self.severity(), run_lines(self, source))
    }
}

/// A file name ending in `.rb` that is not snake_case, reported at line 1.
pub open spec fn file_name_at(src: SourceView) -> Seq<FindingView> {
    match src.file_name_lossy {
        Some(nm) => one_if(
            !is_match(r"^[a-z][a-z0-9_]*\.rb$"@, nm) && ends_with(nm, bytes_of(".rb")),
            finding(1, 1, 0, bytes_of("File name `") + nm + bytes_of("` should use snake_case")),
        ),
        None => seq![],
    }
}

/// Checks that Ruby file names use snake_case.
pub struct FileName;

impl Cop for FileName {
    open spec fn spec_name(&self) -> Seq<char> {
        "Naming/FileName"@
    }

    open spec fn spec_category(&self) -> Category {
        Category::Naming
    }

    open spec fn spec_severity(&self) -> Severity {
        Severity::Convention
    }

    open spec fn spec_check(&self, src: SourceView) -> Seq<FindingView> {
        file_name_at(src)
    }

    fn name(&self) -> (r: &str) {
        "Naming/FileName"
    }

    fn category(&self) -> (r: Category) {
        Category::Naming
    }

    fn severity(&self) -> (r: Severity) {
        Severity::Convention
    }

    open spec fn spec_description(&self) -> Seq<char> {
        "File names should use snake_case"@
    }

    fn description(&self) -> (r: &str) {
        "File names should use snake_case"
    }

    fn check(&self, source: &SourceFile) -> (r: Vec<Offense>) {
        let mut out: Vec<Finding> = Vec::new();
        match source.file_name_lossy() {
            Some(nm) => {
                let bad = !is_match_exec(r"^[a-z][a-z0-9_]*\.rb$", nm) && ends_with_str(nm, ".rb");
                let mut msg = Message::from_str("File name `");
                msg.push_bytes(nm);
                msg.push_str("` should use snake_case");
                push_if(&mut out, bad, Finding::new(1, 1, 0, msg));
            },
            None => {},
        }
        report(self.name(), self.severity(), out)
    }
}

impl MatchRule for HeredocDelimiterCase {
    /// A heredoc delimiter with a lowercase letter.
    open spec fn spec_match(&self, src: SourceView, i: int, m: Seq<Option<(int, int)>>) -> Seq<FindingView> {
        let l = src.lines[i];
        whole_finding(i, m, has_lower(group_bytes(l, m, 1)), bytes_of("Heredoc delimiter `") + group_bytes(l, m, 1) + bytes_of("` should use SCREAMING_SNAKE_CASE"))
    }

    fn match_findings(&self, src: &SourceFile, i: usize, m: &Vec<Option<(usize, usize)>>) -> (r: Vec<Finding>) {
        let l = src.line_at(i);
        let (s, _e) = whole_exec(m, l.len());
        let hit = has_lower_exec(group_bytes_exec(l, m, 1));
        let mut msg = Message::from_str("Heredoc delimiter `");
        msg.push_bytes(group_bytes_exec(l, m, 1));
        msg.push_str("` should use SCREAMING_SNAKE_CASE");
        whole_finding_exec(i, m, l.len(), hit, msg)
    }
}

impl LineRule for HeredocDelimiterCase {
    open spec fn spec_line(&self, src: SourceView, i: int) -> Seq<FindingView> {
        all_matches(self, src, i, regex_captures(r"<<[-~]?([A-Za-z_][A-Za-z0-9_]*)"@, src.lines[i]))
    }

    fn line_findings(&self, src: &SourceFile, i: usize) -> (r: Vec<Finding>) {
        let ms = captures_all(r"<<[-~]?([A-Za-z_][A-Za-z0-9_]*)", src.line_at(i));
        run_matches(self, src, i, &ms)
    }
}

/// Checks that heredoc delimiters use SCREAMING_SNAKE_CASE.
pub struct HeredocDelimiterCase;

impl Cop for HeredocDelimiterCase {
    open spec fn spec_name(&self) -> Seq<char> {
        "Naming/HeredocDelimiterCase"@
    }

    open spec fn spec_category(&self) -> Category {
        Category::Naming
    }

    open spec fn spec_severity(&self) -> Severity {
        Severity::Convention
    }

    open spec fn spec_check(&self, src: SourceView) -> Seq<FindingView> {
        all_lines(self, src)
    }

    fn name(&self) -> (r: &str) {
        "Naming/HeredocDelimiterCase"
    }

    fn category(&self) -> (r: Category) {
        Category::Naming
    }

    fn severity(&self) -> (r: Severity) {
        Severity::Convention
    }

    open spec fn spec_description(&self) -> Seq<char> {
        "Heredoc delimiters should use SCREAMING_SNAKE_CASE"@
    }

    fn description(&self) -> (r: &str) {
        "Heredoc delimiters should use SCREAMING_SNAKE_CASE"
    }

    fn check(&self, source: &SourceFile) -> (r: Vec<Offense>) {
        report(self.name(), self.severity(), run_lines(self, source))
    }
}

impl MatchRule for HeredocDelimiterNaming {
    /// A heredoc delimiter that is `EOS`, `EOF` or shorter than three characters.
    open spec fn spec_match(&self, src: SourceView, i: int, m: Seq<Option<(int, int)>>) -> Seq<FindingView> {
        let l = src.lines[i];
        whole_finding(i, m, group_bytes(l, m, 1) == bytes_of("EOS") || group_bytes(l, m, 1) == bytes_of("EOF") || group_bytes(l, m, 1).len() < 3, bytes_of("Use meaningful heredoc delimiter instead of `") + group_bytes(l, m, 1) + bytes_of("`"))
    }

    fn match_findings(&self, src: &SourceFile, i: usize, m: &Vec<Option<(usize, usize)>>) -> (r: Vec<Finding>) {
        let l = src.line_at(i);
        let (s, _e) = whole_exec(m, l.len());
        let hit = eq_str(group_bytes_exec(l, m, 1), "EOS") || eq_str(group_bytes_exec(l, m, 1), "EOF") || group_bytes_exec(l, m, 1).len() < 3;
        let mut msg = Message::from_str("Use meaningful heredoc delimiter instead of `");
        msg.push_bytes(group_bytes_exec(l, m, 1));
        msg.push_str("`");
        whole_finding_exec(i, m, l.len(), hit, msg)
    }
}

impl LineRule for HeredocDelimiterNaming {
    open spec fn spec_line(&self, src: SourceView, i: int) -> Seq<FindingView> {
        all_matches(self, src, i, regex_captures(r"<<[-~]?([A-Za-z_][A-Za-z0-9_]*)"@, src.lines[i]))
    }

    fn line_findings(&self, src: &SourceFile, i: usize) -> (r: Vec<Finding>) {
        let ms = captures_all(r"<<[-~]?([A-Za-z_][A-Za-z0-9_]*)", src.line_at(i));
        run_matches(self, src, i, &ms)
    }
}

/// Checks that heredoc delimiters are meaningful.
pub struct HeredocDelimiterNaming;

impl Cop for HeredocDelimiterNaming {
    open spec fn spec_name(&self) -> Seq<char> {
        "Naming/HeredocDelimiterNaming"@
    }

    open spec fn spec_category(&self) -> Category {
        Category::Naming
    }

    open spec fn spec_severity(&self) -> Severity {
        Severity::Convention
    }

    open spec fn spec_check(&self, src: SourceView) -> Seq<FindingView> {
        all_lines(self, src)
    }

    fn name(&self) -> (r: &str) {
        "Naming/HeredocDelimiterNaming"
    }

    fn category(&self) -> (r: Category) {
        Category::Naming
    }

    fn severity(&self) -> (r: Severity) {
        Severity::Convention
    }

    open spec fn spec_description(&self) -> Seq<char> {
        "Heredoc delimiters should be meaningful"@
    }

    fn description(&self) -> (r: &str) {
        "Heredoc delimiters should be meaningful"
    }

    fn check(&self, source: &SourceFile) -> (r: Vec<Offense>) {
        report(self.name(), self.severity(), run_lines(self, source))
    }
}

/// Each use of a non-inclusive term on line `i`, term by term, outside strings and comments.
pub open spec fn inclusive_line(src: SourceView, i: int) -> Seq<FindingView> {
    line_matches_outside(src, i, r"\bwhitelist\b"@, None, bytes_of("Use `allowlist` instead of `whitelist`")) + line_matches_outside(src, i, r"\bblacklist\b"@, None, bytes_of("Use `denylist` instead of `blacklist`")) + line_matches_outside(src, i, r"\bslave\b"@, None, bytes_of("Use `replica` instead of `slave`")) + line_matches_outside(src, i, r"\bmaster\b"@, None, bytes_of("Use `primary` instead of `master`"))
}

fn inclusive_line_exec(src: &SourceFile, i: usize) -> (r: Vec<Finding>)
    requires
        i < src@.lines.len(),
    ensures
        finding_views(r@) == inclusive_line(src@, i as int),
{
    let mut out: Vec<Finding> = Vec::new();
    let fs = line_matches_outside_exec(src, i, r"\bwhitelist\b", None, "Use `allowlist` instead of `whitelist`");
    append_findings(&mut out, fs);
    let fs = line_matches_outside_exec(src, i, r"\bblacklist\b", None, "Use `denylist` instead of `blacklist`");
    append_findings(&mut out, fs);
    let fs = line_matches_outside_exec(src, i, r"\bslave\b", None, "Use `replica` instead of `slave`");
    append_findings(&mut out, fs);
    let fs = line_matches_outside_exec(src, i, r"\bmaster\b", None, "Use `primary` instead of `master`");
    append_findings(&mut out, fs);
    out
}

impl LineRule for InclusiveLanguage {
    open spec fn spec_line(&self, src: SourceView, i: int) -> Seq<FindingView> {
        inclusive_line(src, i)
    }

    fn line_findings(&self, src: &SourceFile, i: usize) -> (r: Vec<Finding>) {
        inclusive_line_exec(src, i)
    }
}

/// Detects the terms whitelist, blacklist, slave and master.
pub struct InclusiveLanguage;

impl Cop for InclusiveLanguage {
    open spec fn spec_name(&self) -> Seq<char> {
        "Naming/InclusiveLanguage"@
    }

    open spec fn spec_category(&self) -> Category {
        Category::Naming
    }

    open spec fn spec_severity(&self) -> Severity {
        Severity::Convention
    }

    open spec fn spec_check(&self, src: SourceView) -> Seq<FindingView> {
        all_lines(self, src)
    }

    fn name(&self) -> (r: &str) {
        "Naming/InclusiveLanguage"
    }

    fn category(&self) -> (r: Category) {
        Category::Naming
    }

    fn severity(&self) -> (r: Severity) {
        Severity::Convention
    }

    open spec fn spec_description(&self) -> Seq<char> {
        "Use inclusive terminology"@
    }

    fn description(&self) -> (r: &str) {
        "Use inclusive terminology"
    }

    fn check(&self, source: &SourceFile) -> (r: Vec<Offense>) {
        report(self.name(), self.severity(), run_lines(self, source))
    }
}

impl MatchRule for MemoizedInstanceVariableName {
    /// A one-line method that memoizes into an instance variable named otherwise.
    open spec fn spec_match(&self, src: SourceView, i: int, m: Seq<Option<(int, int)>>) -> Seq<FindingView> {
        let l = src.lines[i];
        whole_finding(i, m, group_bytes(l, m, 1) != group_bytes(l, m, 2), bytes_of("Memoized variable `@") + group_bytes(l, m, 2) + bytes_of("` should match method name `") + group_bytes(l, m, 1) + bytes_of("`"))
    }

    fn match_findings(&self, src: &SourceFile, i: usize, m: &Vec<Option<(usize, usize)>>) -> (r: Vec<Finding>) {
        let l = src.line_at(i);
        let (s, _e) = whole_exec(m, l.len());
        let hit = !bytes_eq(group_bytes_exec(l, m, 1), group_bytes_exec(l, m, 2));
        let mut msg = Message::from_str("Memoized variable `@");
        msg.push_bytes(group_bytes_exec(l, m, 2));
        msg.push_str("` should match method name `");
        msg.push_bytes(group_bytes_exec(l, m, 1));
        msg.push_str("`");
        whole_finding_exec(i, m, l.len(), hit, msg)
    }
}

impl LineRule for MemoizedInstanceVariableName {
    open spec fn spec_line(&self, src: SourceView, i: int) -> Seq<FindingView> {
        all_matches(self, src, i, regex_captures(r"def\s+([a-z_][a-z0-9_]*)\s.*@([a-z_][a-z0-9_]*)\s*\|\|="@, src.lines[i]))
    }

    fn line_findings(&self, src: &SourceFile, i: usize) -> (r: Vec<Finding>) {
        let ms = captures_all(r"def\s+([a-z_][a-z0-9_]*)\s.*@([a-z_][a-z0-9_]*)\s*\|\|=", src.line_at(i));
        run_matches(self, src, i, &ms)
    }
}

/// Checks that a memoized instance variable matches its method name.
pub struct MemoizedInstanceVariableName;

impl Cop for MemoizedInstanceVariableName {
    open spec fn spec_name(&self) -> Seq<char> {
        "Naming/MemoizedInstanceVariableName"@
    }

    open spec fn spec_category(&self) -> Category {
        Category::Naming
    }

    open spec fn spec_severity(&self) -> Severity {
        Severity::Convention
    }

    open spec fn spec_check(&self, src: SourceView) -> Seq<FindingView> {
        all_lines(self, src)
    }

    fn name(&self) -> (r: &str) {
        "Naming/MemoizedInstanceVariableName"
    }

    fn category(&self) -> (r: Category) {
        Category::Naming
    }

    fn severity(&self) -> (r: Severity) {
        Severity::Convention
    }

    open spec fn spec_description(&self) -> Seq<char> {
        "Memoized instance variable should match method name"@
    }

    fn description(&self) -> (r: &str) {
        "Memoized instance variable should match method name"
    }

    fn check(&self, source: &SourceFile) -> (r: Vec<Offense>) {
        report(self.name(), self.severity(), run_lines(self, source))
    }
}

impl MatchRule for MethodParameterName {
    /// A method whose single parameter has one letter, outside strings and comments.
    open spec fn spec_match(&self, src: SourceView, i: int, m: Seq<Option<(int, int)>>) -> Seq<FindingView> {
        let l = src.lines[i];
        whole_finding(i, m, group_bytes(l, m, 1).len() == 1 && group_bytes(l, m, 1) != bytes_of("_") && !src.in_string_or_comment(i + 1, whole(m).0 + 1), bytes_of("Parameter `") + group_bytes(l, m, 1) + bytes_of("` is too short. Use at least 2 characters."))
    }

    fn match_findings(&self, src: &SourceFile, i: usize, m: &Vec<Option<(usize, usize)>>) -> (r: Vec<Finding>) {
        let l = src.line_at(i);
        let (s, _e) = whole_exec(m, l.len());
        let hit = group_bytes_exec(l, m, 1).len() == 1 && !eq_str(group_bytes_exec(l, m, 1), "_") && !src.in_string_or_comment(i + 1, s + 1);
        let mut msg = Message::from_str("Parameter `");
        msg.push_bytes(group_bytes_exec(l, m, 1));
        msg.push_str("` is too short. Use at least 2 characters.");
        whole_finding_exec(i, m, l.len(), hit, msg)
    }
}

impl LineRule for MethodParameterName {
    open spec fn spec_line(&self, src: SourceView, i: int) -> Seq<FindingView> {
        all_matches(self, src, i, regex_captures(r"def\s+\w+\(([a-z])\)"@, src.lines[i]))
    }

    fn line_findings(&self, src: &SourceFile, i: usize) -> (r: Vec<Finding>) {
        let ms = captures_all(r"def\s+\w+\(([a-z])\)", src.line_at(i));
        run_matches(self, src, i, &ms)
    }
}

/// Detects one-letter method parameters.
pub struct MethodParameterName;

impl Cop for MethodParameterName {
    open spec fn spec_name(&self) -> Seq<char> {
        "Naming/MethodParameterName"@
    }

    open spec fn spec_category(&self) -> Category {
        Category::Naming
    }

    open spec fn spec_severity(&self) -> Severity {
        Severity::Convention
    }

    open spec fn spec_check(&self, src: SourceView) -> Seq<FindingView> {
        all_lines(self, src)
    }

    fn name(&self) -> (r: &str) {
        "Naming/MethodParameterName"
    }

    fn category(&self) -> (r: Category) {
        Category::Naming
    }

    fn severity(&self) -> (r: Severity) {
        Severity::Convention
    }

    open spec fn spec_description(&self) -> Seq<char> {
        "Method parameter names should be at least 2 characters"@
    }

    fn description(&self) -> (r: &str) {
        "Method parameter names should be at least 2 characters"
    }

    fn check(&self, source: &SourceFile) -> (r: Vec<Offense>) {
        report(self.name(), self.severity(), run_lines(self, source))
    }
}

/// Detects predicate-like method names that do not end with `?`.
pub struct PredicateMethod;

impl Cop for PredicateMethod {
    open spec fn spec_name(&self) -> Seq<char> {
        "Naming/PredicateMethod"@
    }

    open spec fn spec_category(&self) -> Category {
        Category::Naming
    }

    open spec fn spec_severity(&self) -> Severity {
        Severity::Convention
    }

    open spec fn spec_check(&self, src: SourceView) -> Seq<FindingView> {
        matches_outside(src, r"def\s+(is|has|should|can|will)_[a-z_][a-z0-9_]*\b"@, None, bytes_of("Predicate methods should end with `?`"))
    }

    fn name(&self) -> (r: &str) {
        "Naming/PredicateMethod"
    }

    fn category(&self) -> (r: Category) {
        Category::Naming
    }

    fn severity(&self) -> (r: Severity) {
        Severity::Convention
    }

    open spec fn spec_description(&self) -> Seq<char> {
        "Predicate methods should end with ?"@
    }

    fn description(&self) -> (r: &str) {
        "Predicate methods should end with ?"
    }

    fn check(&self, source: &SourceFile) -> (r: Vec<Offense>) {
        let fs = scan_matches_outside(source, r"def\s+(is|has|should|can|will)_[a-z_][a-z0-9_]*\b", None, "Predicate methods should end with `?`");
        report(self.name(), self.severity(), fs)
    }
}

impl MatchRule for PredicatePrefix {
    /// A predicate method with an `is_`, `has_` or `have_` prefix, outside strings and comments.
    open spec fn spec_match(&self, src: SourceView, i: int, m: Seq<Option<(int, int)>>) -> Seq<FindingView> {
        let l = src.lines[i];
        whole_finding(i, m, !src.in_string_or_comment(i + 1, whole(m).0 + 1), bytes_of("Avoid `") + group_bytes(l, m, 1) + bytes_of("` prefix. Use `") + group_bytes(l, m, 2) + bytes_of("?` instead of `") + group_bytes(l, m, 1) + group_bytes(l, m, 2) + bytes_of("?`"))
    }

    fn match_findings(&self, src: &SourceFile, i: usize, m: &Vec<Option<(usize, usize)>>) -> (r: Vec<Finding>) {
        let l = src.line_at(i);
        let (s, _e) = whole_exec(m, l.len());
        let hit = !src.in_string_or_comment(i + 1, s + 1);
        let mut msg = Message::from_str("Avoid `");
        msg.push_bytes(group_bytes_exec(l, m, 1));
        msg.push_str("` prefix. Use `");
        msg.push_bytes(group_bytes_exec(l, m, 2));
        msg.push_str("?` instead of `");
        msg.push_bytes(group_bytes_exec(l, m, 1));
        msg.push_bytes(group_bytes_exec(l, m, 2));
        msg.push_str("?`");
        whole_finding_exec(i, m, l.len(), hit, msg)
    }
}

impl LineRule for PredicatePrefix {
    open spec fn spec_line(&self, src: SourceView, i: int) -> Seq<FindingView> {
        all_matches(self, src, i, regex_captures(r"^\s*def\s+(is_|has_|have_)([a-z_][a-z0-9_]*)\?"@, src.lines[i]))
    }

    fn line_findings(&self, src: &SourceFile, i: usize) -> (r: Vec<Finding>) {
        let ms = captures_all(r"^\s*def\s+(is_|has_|have_)([a-z_][a-z0-9_]*)\?", src.line_at(i));
        run_matches(self, src, i, &ms)
    }
}

/// Detects `is_`, `has_` and `have_` prefixes on predicate methods.
pub struct PredicatePrefix;

impl Cop for PredicatePrefix {
    open spec fn spec_name(&self) -> Seq<char> {
        "Naming/PredicatePrefix"@
    }

    open spec fn spec_category(&self) -> Category {
        Category::Naming
    }

    open spec fn spec_severity(&self) -> Severity {
        Severity::Convention
    }

    open spec fn spec_check(&self, src: SourceView) -> Seq<FindingView> {
        all_lines(self, src)
    }

    fn name(&self) -> (r: &str) {
        "Naming/PredicatePrefix"
    }

    fn category(&self) -> (r: Category) {
        Category::Naming
    }

    fn severity(&self) -> (r: Severity) {
        Severity::Convention
    }

    open spec fn spec_description(&self) -> Seq<char> {
        "Avoid is_/has_ prefix on predicate methods"@
    }

    fn description(&self) -> (r: &str) {
        "Avoid is_/has_ prefix on predicate methods"
    }

    fn check(&self, source: &SourceFile) -> (r: Vec<Offense>) {
        report(self.name(), self.severity(), run_lines(self, source))
    }
}

impl MatchRule for RescuedExceptionsVariableName {
    /// A rescued exception bound to a name other than `e` or `_`, outside strings and comments.
    open spec fn spec_match(&self, src: SourceView, i: int, m: Seq<Option<(int, int)>>) -> Seq<FindingView> {
        let l = src.lines[i];
        whole_finding(i, m, group_bytes(l, m, 1) != bytes_of("e") && group_bytes(l, m, 1) != bytes_of("_") && !src.in_string_or_comment(i + 1, whole(m).0 + 1), bytes_of("Use `=> e` instead of `=> ") + group_bytes(l, m, 1) + bytes_of("` for rescued exception"))
    }

    fn match_findings(&self, src: &SourceFile, i: usize, m: &Vec<Option<(usize, usize)>>) -> (r: Vec<Finding>) {
        let l = src.line_at(i);
        let (s, _e) = whole_exec(m, l.len());
        let hit = !eq_str(group_bytes_exec(l, m, 1), "e") && !eq_str(group_bytes_exec(l, m, 1), "_") && !src.in_string_or_comment(i + 1, s + 1);
        let mut msg = Message::from_str("Use `=> e` instead of `=> ");
        msg.push_bytes(group_bytes_exec(l, m, 1));
        msg.push_str("` for rescued exception");
        whole_finding_exec(i, m, l.len(), hit, msg)
    }
}

impl LineRule for RescuedExceptionsVariableName {
    open spec fn spec_line(&self, src: SourceView, i: int) -> Seq<FindingView> {
        all_matches(self, src, i, regex_captures(r"\brescue\s+\S+\s*=>\s*([a-z_][a-z0-9_]*)"@, src.lines[i]))
    }

    fn line_findings(&self, src: &SourceFile, i: usize) -> (r: Vec<Finding>) {
        let ms = captures_all(r"\brescue\s+\S+\s*=>\s*([a-z_][a-z0-9_]*)", src.line_at(i));
        run_matches(self, src, i, &ms)
    }
}

/// Checks that rescued exceptions are bound to `e`.
pub struct RescuedExceptionsVariableName;

impl Cop for RescuedExceptionsVariableName {
    open spec fn spec_name(&self) -> Seq<char> {
        "Naming/RescuedExceptionsVariableName"@
    }

    open spec fn spec_category(&self) -> Category {
        Category::Naming
    }

    open spec fn spec_severity(&self) -> Severity {
        Severity::Convention
    }

    open spec fn spec_check(&self, src: SourceView) -> Seq<FindingView> {
        all_lines(self, src)
    }

    fn name(&self) -> (r: &str) {
        "Naming/RescuedExceptionsVariableName"
    }

    fn category(&self) -> (r: Category) {
        Category::Naming
    }

    fn severity(&self) -> (r: Severity) {
        Severity::Convention
    }

    open spec fn spec_description(&self) -> Seq<char> {
        "Use `e` for rescued exception variable"@
    }

    fn description(&self) -> (r: &str) {
        "Use `e` for rescued exception variable"
    }

    fn check(&self, source: &SourceFile) -> (r: Vec<Offense>) {
        report(self.name(), self.severity(), run_lines(self, source))
    }
}

impl MatchRule for VariableNumber {
    /// An identifier with digits between letters, outside strings and comments.
    open spec fn spec_match(&self, src: SourceView, i: int, m: Seq<Option<(int, int)>>) -> Seq<FindingView> {
        let l = src.lines[i];
        whole_finding(i, m, !src.in_string_or_comment(i + 1, whole(m).0 + 1), bytes_of("Variable `") + group_bytes(l, m, 1) + bytes_of("` has poor number placement"))
    }

    fn match_findings(&self, src: &SourceFile, i: usize, m: &Vec<Option<(usize, usize)>>) -> (r: Vec<Finding>) {
        let l = src.line_at(i);
        let (s, _e) = whole_exec(m, l.len());
        let hit = !src.in_string_or_comment(i + 1, s + 1);
        let mut msg = Message::from_str("Variable `");
        msg.push_bytes(group_bytes_exec(l, m, 1));
        msg.push_str("` has poor number placement");
        whole_finding_exec(i, m, l.len(), hit, msg)
    }
}

impl LineRule for VariableNumber {
    open spec fn spec_line(&self, src: SourceView, i: int) -> Seq<FindingView> {
        all_matches(self, src, i, regex_captures(r"\b([a-z_][a-z_]*[0-9]+[a-z_][a-z0-9_]*)\b"@, src.lines[i]))
    }

    fn line_findings(&self, src: &SourceFile, i: usize) -> (r: Vec<Finding>) {
        let ms = captures_all(r"\b([a-z_][a-z_]*[0-9]+[a-z_][a-z0-9_]*)\b", src.line_at(i));
        run_matches(self, src, i, &ms)
    }
}

/// Detects identifiers with digits between letters.
pub struct VariableNumber;

impl Cop for VariableNumber {
    open spec fn spec_name(&self) -> Seq<char> {
        "Naming/VariableNumber"@
    }

    open spec fn spec_category(&self) -> Category {
        Category::Naming
    }

    open spec fn spec_severity(&self) -> Severity {
        Severity::Convention
    }

    open spec fn spec_check(&self, src: SourceView) -> Seq<FindingView> {
        all_lines(self, src)
    }

    fn name(&self) -> (r: &str) {
        "Naming/VariableNumber"
    }

    fn category(&self) -> (r: Category) {
        Category::Naming
    }

    fn severity(&self) -> (r: Severity) {
        Severity::Convention
    }

    open spec fn spec_description(&self) -> Seq<char> {
        "Variable numbers should follow style conventions"@
    }

    fn description(&self) -> (r: &str) {
        "Variable numbers should follow style conventions"
    }

    fn check(&self, source: &SourceFile) -> (r: Vec<Offense>) {
        report(self.name(), self.severity(), run_lines(self, source))
    }
}

/// The additional naming cops, in the order `all_naming_extra_cops` returns
/// them, each by name, category and severity.
pub open spec fn naming_extra_cops(cops: Seq<Box<dyn Cop>>) -> bool {
    &&& cops.len() == 16
    &&& cop_at(cops, 0, "Naming/AccessorMethodName"@, Category::Naming, Severity::Convention)
    &&& cop_at(cops, 1, "Naming/AsciiIdentifiers"@, Category::Naming, Severity::Convention)
    &&& cop_at(cops, 2, "Naming/BinaryOperatorParameterName"@, Category::Naming, Severity::Convention)
    &&& cop_at(cops, 3, "Naming/BlockForwarding"@, Category::Naming, Severity::Convention)
    &&& cop_at(cops, 4, "Naming/BlockParameterName"@, Category::Naming, Severity::Convention)
    &&& cop_at(cops, 5, "Naming/ClassAndModuleCamelCase"@, Category::Naming, Severity::Convention)
    &&& cop_at(cops, 6, "Naming/FileName"@, Category::Naming, Severity::Convention)
    &&& cop_at(cops, 7, "Naming/HeredocDelimiterCase"@, Category::Naming, Severity::Convention)
    &&& cop_at(cops, 8, "Naming/HeredocDelimiterNaming"@, Category::Naming, Severity::Convention)
    &&& cop_at(cops, 9, "Naming/InclusiveLanguage"@, Category::Naming, Severity::Convention)
    &&& cop_at(cops, 10, "Naming/MemoizedInstanceVariableName"@, Category::Naming, Severity::Convention)
    &&& cop_at(cops, 11, "Naming/MethodParameterName"@, Category::Naming, Severity::Convention)
    &&& cop_at(cops, 12, "Naming/PredicateMethod"@, Category::Naming, Severity::Convention)
    &&& cop_at(cops, 13, "Naming/PredicatePrefix"@, Category::Naming, Severity::Convention)
    &&& cop_at(cops, 14, "Naming/RescuedExceptionsVariableName"@, Category::Naming, Severity::Convention)
    &&& cop_at(cops, 15, "Naming/VariableNumber"@, Category::Naming, Severity::Convention)
}

/// Returns all cops of this module as trait objects.
pub fn all_naming_extra_cops() -> (r: Vec<Box<dyn Cop>>)
    ensures
        naming_extra_cops(r@),
{
    let v: Vec<Box<dyn Cop>> = vec![
        Box::new(AccessorMethodName),
        Box::new(AsciiIdentifiers),
        Box::new(BinaryOperatorParameterName),
        Box::new(BlockForwarding),
        Box::new(BlockParameterName),
        Box::new(ClassAndModuleCamelCase),
        Box::new(FileName),
        Box::new(HeredocDelimiterCase),
        Box::new(HeredocDelimiterNaming),
        Box::new(InclusiveLanguage),
        Box::new(MemoizedInstanceVariableName),
        Box::new(MethodParameterName),
        Box::new(PredicateMethod),
        Box::new(PredicatePrefix),
        Box::new(RescuedExceptionsVariableName),
        Box::new(VariableNumber),
    ];
    v
}

} // verus!
