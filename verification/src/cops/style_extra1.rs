//! Additional style cops for Ruby code formatting and conventions.

use vstd::prelude::*;

use crate::cop::{Category, Cop, Severity, cop_at};
use crate::offense::{Finding, FindingView, Message, Offense, finding, finding_views, report};
use crate::pattern::{
    captures_all, first_match, first_match_exec, group, group_exec, groups_view, is_match, is_match_exec,
    regex_captures, whole, whole_exec,
};
use crate::rule::{LineRule, MatchRule, all_lines, all_matches, append_findings, gather, one_if, push_if, run_lines, run_matches};
use crate::scan::{
    MatchCond, cond_matches, first_text_outside, first_text_outside_exec, firsts_outside, group_bytes,
    group_bytes_exec, line_matches_outside, line_matches_outside_exec, matches_outside, scan_cond_matches,
    scan_firsts_outside, scan_matches_outside, whole_finding, whole_finding_exec,
};
use crate::source::{SourceFile, SourceView, fits};
use crate::text::{
    bytes_of, contains, count_byte, ends_with, find, find_byte, has_byte, is_ascii, lower_bytes, starts_with, trim,
};
use crate::text::{
    bytes_eq, contains_str, count_byte_exec, ends_with_str, eq_str, find_byte_exec, find_str, has_byte_exec,
    is_ascii_exec, lemma_find_byte_from_spec, lemma_find_from_spec, lower_bytes_exec, starts_with_str, trim_exec,
};

verus! {

/// The trimmed text of the 1-based line `n`, if the file has that line.
pub open spec fn trimmed_line(src: SourceView, n: int) -> Option<Seq<u8>> {
    match src.line(n) {
        Some(l) => Some(trim(l)),
        None => None,
    }
}

fn trimmed_line_exec(src: &SourceFile, n: usize) -> (r: Option<&[u8]>)
    ensures
        match r {
            Some(t) => trimmed_line(src@, n as int) == Some(t@),
            None => trimmed_line(src@, n as int) is None,
        },
{
    match src.line(n) {
        Some(l) => Some(trim_exec(l)),
        None => None,
    }
}

/// Whether the 1-based line `n` exists and trims to `t`.
fn trimmed_line_is(src: &SourceFile, n: usize, t: &str) -> (r: bool)
    ensures
        r == (trimmed_line(src@, n as int) == Some(bytes_of(t))),
{
    match trimmed_line_exec(src, n) {
        Some(x) => eq_str(x, t),
        None => false,
    }
}

/// A finding over the whole of line `i`, when `hit` holds.
pub open spec fn whole_line(src: SourceView, i: int, hit: bool, msg: Seq<u8>) -> Seq<FindingView> {
    one_if(hit, finding(i + 1, 1, src.lines[i].len() as int, msg))
}

fn whole_line_exec(src: &SourceFile, i: usize, hit: bool, msg: &str) -> (r: Vec<Finding>)
    requires
        i < src@.lines.len(),
    ensures
        finding_views(r@) == whole_line(src@, i as int, hit, bytes_of(msg)),
{
    let l = src.line_at(i);
    let mut out: Vec<Finding> = Vec::new();
    push_if(&mut out, hit, Finding::text(i + 1, 1, l.len(), msg));
    out
}

/// The operator that replaces a word operator.
pub open spec fn and_or_replacement(word: Seq<u8>) -> Seq<u8> {
    if word == bytes_of("and") {
        bytes_of("&&")
    } else {
        bytes_of("||")
    }
}

impl MatchRule for AndOr {
    /// The word `and` or `or`, outside strings and comments, with its replacement.
    open spec fn spec_match(&self, src: SourceView, i: int, m: Seq<Option<(int, int)>>) -> Seq<FindingView> {
        let l = src.lines[i];
        match group(m, 1) {
            Some(g) => {
                let word = l.subrange(g.0, g.1);
                one_if(
                    !src.in_string_or_comment(i + 1, g.0 + 1),
                    finding(
                        i + 1,
                        g.0 + 1,
                        g.1 - g.0,
                        bytes_of("Use `") + and_or_replacement(word) + bytes_of("` instead of `") + word + bytes_of("`"),
                    ),
                )
            },
            None => seq![],
        }
    }

    fn match_findings(&self, src: &SourceFile, i: usize, m: &Vec<Option<(usize, usize)>>) -> (r: Vec<Finding>) {
        let l = src.line_at(i);
        let mut out: Vec<Finding> = Vec::new();
        match group_exec(m, 1) {
            Some(g) => {
                assert(groups_view(m@)[1] == Some((g.0 as int, g.1 as int)));
                let word = &l[g.0..g.1];
                let mut msg = Message::from_str("Use `");
                if eq_str(word, "and") {
                    msg.push_str("&&");
                } else {
                    msg.push_str("||");
                }
                msg.push_str("` instead of `");
                msg.push_bytes(word);
                msg.push_str("`");
                push_if(&mut out, !src.in_string_or_comment(i + 1, g.0 + 1), Finding::new(i + 1, g.0 + 1, g.1 - g.0, msg));
            },
            None => {},
        }
        out
    }
}

impl LineRule for AndOr {
    open spec fn spec_line(&self, src: SourceView, i: int) -> Seq<FindingView> {
        all_matches(self, src, i, regex_captures(r#"\b(and|or)\b"#@, src.lines[i]))
    }

    fn line_findings(&self, src: &SourceFile, i: usize) -> (r: Vec<Finding>) {
        let ms = captures_all(r#"\b(and|or)\b"#, src.line_at(i));
        run_matches(self, src, i, &ms)
    }
}

/// Use && and || instead of and and or
pub struct AndOr;

impl Cop for AndOr {
    open spec fn spec_name(&self) -> Seq<char> {
        "Style/AndOr"@
    }

    open spec fn spec_category(&self) -> Category {
        Category::Style
    }

    open spec fn spec_severity(&self) -> Severity {
        Severity::Convention
    }

    open spec fn spec_check(&self, src: SourceView) -> Seq<FindingView> {
        all_lines(self, src)
    }

    fn name(&self) -> (r: &str) {
        "Style/AndOr"
    }

    fn category(&self) -> (r: Category) {
        Category::Style
    }

    fn severity(&self) -> (r: Severity) {
        Severity::Convention
    }

    open spec fn spec_description(&self) -> Seq<char> {
        "Use && and || instead of and and or"@
    }

    fn description(&self) -> (r: &str) {
        "Use && and || instead of and and or"
    }

    fn check(&self, source: &SourceFile) -> (r: Vec<Offense>) {
        report(self.name(), self.severity(), run_lines(self, source))
    }
}

impl LineRule for AsciiComments {
    /// From the first `#` to the end of the line, when that text is not all ASCII.
    open spec fn spec_line(&self, src: SourceView, i: int) -> Seq<FindingView> {
        let l = src.lines[i];
        match find_byte(l, 35u8) {
            Some(p) => one_if(
                !is_ascii(l.skip(p)),
                finding(i + 1, p + 1, l.len() - p, bytes_of("Use only ASCII characters in comments")),
            ),
            None => seq![],
        }
    }

    fn line_findings(&self, src: &SourceFile, i: usize) -> (r: Vec<Finding>) {
        let l = src.line_at(i);
        let mut out: Vec<Finding> = Vec::new();
        match find_byte_exec(l, 35u8) {
            Some(p) => {
                proof {
                    lemma_find_byte_from_spec(l@, 35u8, 0);
                }
                let comment = &l[p..l.len()];
                assert(comment@ =~= l@.skip(p as int));
                push_if(&mut out, !is_ascii_exec(comment), Finding::text(i + 1, p + 1, l.len() - p, "Use only ASCII characters in comments"));
            },
            None => {},
        }
        out
    }
}

/// Use only ASCII characters in comments
pub struct AsciiComments;

impl Cop for AsciiComments {
    open spec fn spec_name(&self) -> Seq<char> {
        "Style/AsciiComments"@
    }

    open spec fn spec_category(&self) -> Category {
        Category::Style
    }

    open spec fn spec_severity(&self) -> Severity {
        Severity::Convention
    }

    open spec fn spec_check(&self, src: SourceView) -> Seq<FindingView> {
        all_lines(self, src)
    }

    fn name(&self) -> (r: &str) {
        "Style/AsciiComments"
    }

    fn category(&self) -> (r: Category) {
        Category::Style
    }

    fn severity(&self) -> (r: Severity) {
        Severity::Convention
    }

    open spec fn spec_description(&self) -> Seq<char> {
        "Use only ASCII characters in comments"@
    }

    fn description(&self) -> (r: &str) {
        "Use only ASCII characters in comments"
    }

    fn check(&self, source: &SourceFile) -> (r: Vec<Offense>) {
        report(self.name(), self.severity(), run_lines(self, source))
    }
}

/// Use attr_reader or attr_writer instead of attr
pub struct Attr;

impl Cop for Attr {
    open spec fn spec_name(&self) -> Seq<char> {
        "Style/Attr"@
    }

    open spec fn spec_category(&self) -> Category {
        Category::Style
    }

    open spec fn spec_severity(&self) -> Severity {
        Severity::Convention
    }

    open spec fn spec_check(&self, src: SourceView) -> Seq<FindingView> {
        matches_outside(src, r#"\battr\s+:"#@, None, bytes_of("Use `attr_reader` or `attr_writer` instead of `attr`"))
    }

    fn name(&self) -> (r: &str) {
        "Style/Attr"
    }

    fn category(&self) -> (r: Category) {
        Category::Style
    }

    fn severity(&self) -> (r: Severity) {
        Severity::Convention
    }

    open spec fn spec_description(&self) -> Seq<char> {
        "Use attr_reader or attr_writer instead of attr"@
    }

    fn description(&self) -> (r: &str) {
        "Use attr_reader or attr_writer instead of attr"
    }

    fn check(&self, source: &SourceFile) -> (r: Vec<Offense>) {
        let fs = scan_matches_outside(source, r#"\battr\s+:"#, None, "Use `attr_reader` or `attr_writer` instead of `attr`");
        report(self.name(), self.severity(), fs)
    }
}

/// Use %q or %Q for percent literals instead of bare %
pub struct BarePercentLiterals;

impl Cop for BarePercentLiterals {
    open spec fn spec_name(&self) -> Seq<char> {
        "Style/BarePercentLiterals"@
    }

    open spec fn spec_category(&self) -> Category {
        Category::Style
    }

    open spec fn spec_severity(&self) -> Severity {
        Severity::Convention
    }

    open spec fn spec_check(&self, src: SourceView) -> Seq<FindingView> {
        matches_outside(src, r#"%[(\{\[<]"#@, None, bytes_of("Use `%q` or `%Q` for percent string literals"))
    }

    fn name(&self) -> (r: &str) {
        "Style/BarePercentLiterals"
    }

    fn category(&self) -> (r: Category) {
        Category::Style
    }

    fn severity(&self) -> (r: Severity) {
        Severity::Convention
    }

    open spec fn spec_description(&self) -> Seq<char> {
        "Use %q or %Q for percent literals instead of bare %"@
    }

    fn description(&self) -> (r: &str) {
        "Use %q or %Q for percent literals instead of bare %"
    }

    fn check(&self, source: &SourceFile) -> (r: Vec<Offense>) {
        let fs = scan_matches_outside(source, r#"%[(\{\[<]"#, None, "Use `%q` or `%Q` for percent string literals");
        report(self.name(), self.severity(), fs)
    }
}

/// Avoid using BEGIN blocks
pub struct BeginBlock;

impl Cop for BeginBlock {
    open spec fn spec_name(&self) -> Seq<char> {
        "Style/BeginBlock"@
    }

    open spec fn spec_category(&self) -> Category {
        Category::Style
    }

    open spec fn spec_severity(&self) -> Severity {
        Severity::Convention
    }

    open spec fn spec_check(&self, src: SourceView) -> Seq<FindingView> {
        firsts_outside(src, r#"^\s*BEGIN\s*\{"#@, None, bytes_of("Avoid using BEGIN blocks"))
    }

    fn name(&self) -> (r: &str) {
        "Style/BeginBlock"
    }

    fn category(&self) -> (r: Category) {
        Category::Style
    }

    fn severity(&self) -> (r: Severity) {
        Severity::Convention
    }

    open spec fn spec_description(&self) -> Seq<char> {
        "Avoid using BEGIN blocks"@
    }

    fn description(&self) -> (r: &str) {
        "Avoid using BEGIN blocks"
    }

    fn check(&self, source: &SourceFile) -> (r: Vec<Offense>) {
        let fs = scan_firsts_outside(source, r#"^\s*BEGIN\s*\{"#, None, "Avoid using BEGIN blocks");
        report(self.name(), self.severity(), fs)
    }
}

impl LineRule for BlockComments {
    /// A line that is `=begin` or `=end`.
    open spec fn spec_line(&self, src: SourceView, i: int) -> Seq<FindingView> {
        let l = src.lines[i];
        whole_line(src, i, trim(l) == bytes_of("=begin") || trim(l) == bytes_of("=end"), bytes_of("Use `#` for comments instead of block comments"))
    }

    fn line_findings(&self, src: &SourceFile, i: usize) -> (r: Vec<Finding>) {
        let l = src.line_at(i);
        let hit = eq_str(trim_exec(l), "=begin") || eq_str(trim_exec(l), "=end");
        whole_line_exec(src, i, hit, "Use `#` for comments instead of block comments")
    }
}

/// Use # for comments instead of =begin/=end
pub struct BlockComments;

impl Cop for BlockComments {
    open spec fn spec_name(&self) -> Seq<char> {
        "Style/BlockComments"@
    }

    open spec fn spec_category(&self) -> Category {
        Category::Style
    }

    open spec fn spec_severity(&self) -> Severity {
        Severity::Convention
    }

    open spec fn spec_check(&self, src: SourceView) -> Seq<FindingView> {
        all_lines(self, src)
    }

    fn name(&self) -> (r: &str) {
        "Style/BlockComments"
    }

    fn category(&self) -> (r: Category) {
        Category::Style
    }

    fn severity(&self) -> (r: Severity) {
        Severity::Convention
    }

    open spec fn spec_description(&self) -> Seq<char> {
        "Use # for comments instead of =begin/=end"@
    }

    fn description(&self) -> (r: &str) {
        "Use # for comments instead of =begin/=end"
    }

    fn check(&self, source: &SourceFile) -> (r: Vec<Offense>) {
        report(self.name(), self.severity(), run_lines(self, source))
    }
}

impl LineRule for CaseEquality {
    /// The first occurrence on the line, where it starts outside strings and comments.
    open spec fn spec_line(&self, src: SourceView, i: int) -> Seq<FindingView> {
        first_text_outside(src, i, bytes_of("==="), 3, bytes_of("Avoid using the case equality operator `===`"))
    }

    fn line_findings(&self, src: &SourceFile, i: usize) -> (r: Vec<Finding>) {
        first_text_outside_exec(src, i, "===", 3, "Avoid using the case equality operator `===`")
    }
}

/// Avoid using the case equality operator ===
pub struct CaseEquality;

impl Cop for CaseEquality {
    open spec fn spec_name(&self) -> Seq<char> {
        "Style/CaseEquality"@
    }

    open spec fn spec_category(&self) -> Category {
        Category::Style
    }

    open spec fn spec_severity(&self) -> Severity {
        Severity::Convention
    }

    open spec fn spec_check(&self, src: SourceView) -> Seq<FindingView> {
        all_lines(self, src)
    }

    fn name(&self) -> (r: &str) {
        "Style/CaseEquality"
    }

    fn category(&self) -> (r: Category) {
        Category::Style
    }

    fn severity(&self) -> (r: Severity) {
        Severity::Convention
    }

    open spec fn spec_description(&self) -> Seq<char> {
        "Avoid using the case equality operator ==="@
    }

    fn description(&self) -> (r: &str) {
        "Avoid using the case equality operator ==="
    }

    fn check(&self, source: &SourceFile) -> (r: Vec<Offense>) {
        report(self.name(), self.severity(), run_lines(self, source))
    }
}

/// Use string literal instead of character literal
pub struct CharacterLiteral;

impl Cop for CharacterLiteral {
    open spec fn spec_name(&self) -> Seq<char> {
        "Style/CharacterLiteral"@
    }

    open spec fn spec_category(&self) -> Category {
        Category::Style
    }

    open spec fn spec_severity(&self) -> Severity {
        Severity::Convention
    }

    open spec fn spec_check(&self, src: SourceView) -> Seq<FindingView> {
        matches_outside(src, r#"\?[a-zA-Z]"#@, None, bytes_of("Use string literal instead of character literal"))
    }

    fn name(&self) -> (r: &str) {
        "Style/CharacterLiteral"
    }

    fn category(&self) -> (r: Category) {
        Category::Style
    }

    fn severity(&self) -> (r: Severity) {
        Severity::Convention
    }

    open spec fn spec_description(&self) -> Seq<char> {
        "Use string literal instead of character literal"@
    }

    fn description(&self) -> (r: &str) {
        "Use string literal instead of character literal"
    }

    fn check(&self, source: &SourceFile) -> (r: Vec<Offense>) {
        let fs = scan_matches_outside(source, r#"\?[a-zA-Z]"#, None, "Use string literal instead of character literal");
        report(self.name(), self.severity(), fs)
    }
}

/// Use is_a? instead of kind_of?
pub struct ClassCheck;

impl Cop for ClassCheck {
    open spec fn spec_name(&self) -> Seq<char> {
        "Style/ClassCheck"@
    }

    open spec fn spec_category(&self) -> Category {
        Category::Style
    }

    open spec fn spec_severity(&self) -> Severity {
        Severity::Convention
    }

    open spec fn spec_check(&self, src: SourceView) -> Seq<FindingView> {
        matches_outside(src, r#"\.kind_of\?"#@, None, bytes_of("Use `is_a?` instead of `kind_of?`"))
    }

    fn name(&self) -> (r: &str) {
        "Style/ClassCheck"
    }

    fn category(&self) -> (r: Category) {
        Category::Style
    }

    fn severity(&self) -> (r: Severity) {
        Severity::Convention
    }

    open spec fn spec_description(&self) -> Seq<char> {
        "Use is_a? instead of kind_of?"@
    }

    fn description(&self) -> (r: &str) {
        "Use is_a? instead of kind_of?"
    }

    fn check(&self, source: &SourceFile) -> (r: Vec<Offense>) {
        let fs = scan_matches_outside(source, r#"\.kind_of\?"#, None, "Use `is_a?` instead of `kind_of?`");
        report(self.name(), self.severity(), fs)
    }
}

/// Avoid using class variables (@@)
pub struct ClassVars;

impl Cop for ClassVars {
    open spec fn spec_name(&self) -> Seq<char> {
        "Style/ClassVars"@
    }

    open spec fn spec_category(&self) -> Category {
        Category::Style
    }

    open spec fn spec_severity(&self) -> Severity {
        Severity::Convention
    }

    open spec fn spec_check(&self, src: SourceView) -> Seq<FindingView> {
        matches_outside(src, r#"@@[a-zA-Z_]\w*"#@, None, bytes_of("Avoid using class variables"))
    }

    fn name(&self) -> (r: &str) {
        "Style/ClassVars"
    }

    fn category(&self) -> (r: Category) {
        Category::Style
    }

    fn severity(&self) -> (r: Severity) {
        Severity::Convention
    }

    open spec fn spec_description(&self) -> Seq<char> {
        "Avoid using class variables (@@)"@
    }

    fn description(&self) -> (r: &str) {
        "Avoid using class variables (@@)"
    }

    fn check(&self, source: &SourceFile) -> (r: Vec<Offense>) {
        let fs = scan_matches_outside(source, r#"@@[a-zA-Z_]\w*"#, None, "Avoid using class variables");
        report(self.name(), self.severity(), fs)
    }
}

/// Use . instead of :: for method calls
pub struct ColonMethodCall;

impl Cop for ColonMethodCall {
    open spec fn spec_name(&self) -> Seq<char> {
        "Style/ColonMethodCall"@
    }

    open spec fn spec_category(&self) -> Category {
        Category::Style
    }

    open spec fn spec_severity(&self) -> Severity {
        Severity::Convention
    }

    open spec fn spec_check(&self, src: SourceView) -> Seq<FindingView> {
        matches_outside(src, r#"::[a-z_]\w*[?!]?\s*\("#@, Some(2), bytes_of("Use `.` instead of `::` for method calls"))
    }

    fn name(&self) -> (r: &str) {
        "Style/ColonMethodCall"
    }

    fn category(&self) -> (r: Category) {
        Category::Style
    }

    fn severity(&self) -> (r: Severity) {
        Severity::Convention
    }

    open spec fn spec_description(&self) -> Seq<char> {
        "Use . instead of :: for method calls"@
    }

    fn description(&self) -> (r: &str) {
        "Use . instead of :: for method calls"
    }

    fn check(&self, source: &SourceFile) -> (r: Vec<Offense>) {
        let fs = scan_matches_outside(source, r#"::[a-z_]\w*[?!]?\s*\("#, Some(2), "Use `.` instead of `::` for method calls");
        report(self.name(), self.severity(), fs)
    }
}

/// Use def self.method instead of def self::method
pub struct ColonMethodDefinition;

impl Cop for ColonMethodDefinition {
    open spec fn spec_name(&self) -> Seq<char> {
        "Style/ColonMethodDefinition"@
    }

    open spec fn spec_category(&self) -> Category {
        Category::Style
    }

    open spec fn spec_severity(&self) -> Severity {
        Severity::Convention
    }

    open spec fn spec_check(&self, src: SourceView) -> Seq<FindingView> {
        firsts_outside(src, r#"\bdef\s+\w+::\w+"#@, None, bytes_of("Use `def self.method` instead of `def self::method`"))
    }

    fn name(&self) -> (r: &str) {
        "Style/ColonMethodDefinition"
    }

    fn category(&self) -> (r: Category) {
        Category::Style
    }

    fn severity(&self) -> (r: Severity) {
        Severity::Convention
    }

    open spec fn spec_description(&self) -> Seq<char> {
        "Use def self.method instead of def self::method"@
    }

    fn description(&self) -> (r: &str) {
        "Use def self.method instead of def self::method"
    }

    fn check(&self, source: &SourceFile) -> (r: Vec<Offense>) {
        let fs = scan_firsts_outside(source, r#"\bdef\s+\w+::\w+"#, None, "Use `def self.method` instead of `def self::method`");
        report(self.name(), self.severity(), fs)
    }
}

/// Use backticks for command literals instead of %x
pub struct CommandLiteral;

impl Cop for CommandLiteral {
    open spec fn spec_name(&self) -> Seq<char> {
        "Style/CommandLiteral"@
    }

    open spec fn spec_category(&self) -> Category {
        Category::Style
    }

    open spec fn spec_severity(&self) -> Severity {
        Severity::Convention
    }

    open spec fn spec_check(&self, src: SourceView) -> Seq<FindingView> {
        matches_outside(src, r#"%x[{(\[<]"#@, None, bytes_of("Use backticks for command literals instead of `%x`"))
    }

    fn name(&self) -> (r: &str) {
        "Style/CommandLiteral"
    }

    fn category(&self) -> (r: Category) {
        Category::Style
    }

    fn severity(&self) -> (r: Severity) {
        Severity::Convention
    }

    open spec fn spec_description(&self) -> Seq<char> {
        "Use backticks for command literals instead of %x"@
    }

    fn description(&self) -> (r: &str) {
        "Use backticks for command literals instead of %x"
    }

    fn check(&self, source: &SourceFile) -> (r: Vec<Offense>) {
        let fs = scan_matches_outside(source, r#"%x[{(\[<]"#, None, "Use backticks for command literals instead of `%x`");
        report(self.name(), self.severity(), fs)
    }
}

impl MatchCond for CommentAnnotation {
    /// Every match counts.
    open spec fn spec_ok(&self, src: SourceView, i: int, m: Seq<Option<(int, int)>>) -> bool {
        true
    }

    fn ok(&self, src: &SourceFile, i: usize, m: &Vec<Option<(usize, usize)>>) -> (r: bool) {
        true
    }
}

/// Comment annotations should be formatted correctly
pub struct CommentAnnotation;

impl Cop for CommentAnnotation {
    open spec fn spec_name(&self) -> Seq<char> {
        "Style/CommentAnnotation"@
    }

    open spec fn spec_category(&self) -> Category {
        Category::Style
    }

    open spec fn spec_severity(&self) -> Severity {
        Severity::Convention
    }

    open spec fn spec_check(&self, src: SourceView) -> Seq<FindingView> {
        cond_matches(self, src, r#"#\s*(TODO|FIXME|OPTIMIZE|HACK|REVIEW|NOTE)([^:]|\s*$)"#@, None, bytes_of("Annotation keywords should be followed by a colon and space"))
    }

    fn name(&self) -> (r: &str) {
        "Style/CommentAnnotation"
    }

    fn category(&self) -> (r: Category) {
        Category::Style
    }

    fn severity(&self) -> (r: Severity) {
        Severity::Convention
    }

    open spec fn spec_description(&self) -> Seq<char> {
        "Comment annotations should be formatted correctly"@
    }

    fn description(&self) -> (r: &str) {
        "Comment annotations should be formatted correctly"
    }

    fn check(&self, source: &SourceFile) -> (r: Vec<Offense>) {
        let fs = scan_cond_matches(self, source, r#"#\s*(TODO|FIXME|OPTIMIZE|HACK|REVIEW|NOTE)([^:]|\s*$)"#, None, "Annotation keywords should be followed by a colon and space");
        report(self.name(), self.severity(), fs)
    }
}

impl LineRule for CommentedKeyword {
    /// A comment after a lone `end` or `begin`, from the `#` to the end of the line.
    open spec fn spec_line(&self, src: SourceView, i: int) -> Seq<FindingView> {
        let l = src.lines[i];
        match find_byte(l, 35u8) {
            Some(p) => {
                let before = trim(l.take(p));
                if before == bytes_of("end") {
                    seq![finding(i + 1, p + 1, l.len() - p, bytes_of("Do not place comments on the same line as the `end` keyword"))]
                } else if before == bytes_of("begin") {
                    seq![finding(i + 1, p + 1, l.len() - p, bytes_of("Do not place comments on the same line as the `begin` keyword"))]
                } else {
                    seq![]
                }
            },
            None => seq![],
        }
    }

    fn line_findings(&self, src: &SourceFile, i: usize) -> (r: Vec<Finding>) {
        let l = src.line_at(i);
        let mut out: Vec<Finding> = Vec::new();
        match find_byte_exec(l, 35u8) {
            Some(p) => {
                proof {
                    lemma_find_byte_from_spec(l@, 35u8, 0);
                }
                let before_slice = &l[0..p];
                assert(before_slice@ =~= l@.take(p as int));
                let before = trim_exec(before_slice);
                if eq_str(before, "end") {
                    push_if(&mut out, true, Finding::text(i + 1, p + 1, l.len() - p, "Do not place comments on the same line as the `end` keyword"));
                } else if eq_str(before, "begin") {
                    push_if(&mut out, true, Finding::text(i + 1, p + 1, l.len() - p, "Do not place comments on the same line as the `begin` keyword"));
                }
            },
            None => {},
        }
        out
    }
}

/// Do not place comments on the same line as keywords
pub struct CommentedKeyword;

impl Cop for CommentedKeyword {
    open spec fn spec_name(&self) -> Seq<char> {
        "Style/CommentedKeyword"@
    }

    open spec fn spec_category(&self) -> Category {
        Category::Style
    }

    open spec fn spec_severity(&self) -> Severity {
        Severity::Convention
    }

    open spec fn spec_check(&self, src: SourceView) -> Seq<FindingView> {
        all_lines(self, src)
    }

    fn name(&self) -> (r: &str) {
        "Style/CommentedKeyword"
    }

    fn category(&self) -> (r: Category) {
        Category::Style
    }

    fn severity(&self) -> (r: Severity) {
        Severity::Convention
    }

    open spec fn spec_description(&self) -> Seq<char> {
        "Do not place comments on the same line as keywords"@
    }

    fn description(&self) -> (r: &str) {
        "Do not place comments on the same line as keywords"
    }

    fn check(&self, source: &SourceFile) -> (r: Vec<Offense>) {
        report(self.name(), self.severity(), run_lines(self, source))
    }
}

/// One of the first five lines mentions "copyright", in any ASCII case.
pub open spec fn has_copyright(src: SourceView) -> bool {
    exists|k: int| 0 <= k < 5 && k < src.lines.len() && contains(lower_bytes(#[trigger] src.lines[k]), bytes_of("copyright"))
}

/// Include a copyright notice at the top of the file
pub struct Copyright;

impl Cop for Copyright {
    open spec fn spec_name(&self) -> Seq<char> {
        "Style/Copyright"@
    }

    open spec fn spec_category(&self) -> Category {
        Category::Style
    }

    open spec fn spec_severity(&self) -> Severity {
        Severity::Convention
    }

    open spec fn spec_check(&self, src: SourceView) -> Seq<FindingView> {
        one_if(src.content.len() > 0 && !has_copyright(src), finding(1, 1, 1, bytes_of("Include a copyright notice at the top of the file")))
    }

    fn name(&self) -> (r: &str) {
        "Style/Copyright"
    }

    fn category(&self) -> (r: Category) {
        Category::Style
    }

    fn severity(&self) -> (r: Severity) {
        Severity::Convention
    }

    open spec fn spec_description(&self) -> Seq<char> {
        "Include a copyright notice at the top of the file"@
    }

    fn description(&self) -> (r: &str) {
        "Include a copyright notice at the top of the file"
    }

    fn check(&self, source: &SourceFile) -> (r: Vec<Offense>) {
        let n = source.line_count();
        let top: usize = if n < 5 {
            n
        } else {
            5
        };
        let mut found = false;
        let mut k: usize = 0;
        while k < top
            invariant_except_break
                !found,
            invariant
                k <= top,
                top == (if n < 5 {
                    n
                } else {
                    5
                }),
                n == source@.lines.len(),
                forall|j: int| 0 <= j < k ==> !contains(lower_bytes(#[trigger] source@.lines[j]), bytes_of("copyright")),
            ensures
                found == has_copyright(source@),
            decreases top - k,
        {
            let low = lower_bytes_exec(source.line_at(k));
            if contains_str(low.as_slice(), "copyright") {
                found = true;
                break;
            }
            k = k + 1;
        }
        let mut out: Vec<Finding> = Vec::new();
        push_if(&mut out, !source.is_empty() && !found, Finding::text(1, 1, 1, "Include a copyright notice at the top of the file"));
        report(self.name(), self.severity(), out)
    }
}

/// Use Time instead of DateTime
pub struct DateTime;

impl Cop for DateTime {
    open spec fn spec_name(&self) -> Seq<char> {
        "Style/DateTime"@
    }

    open spec fn spec_category(&self) -> Category {
        Category::Style
    }

    open spec fn spec_severity(&self) -> Severity {
        Severity::Convention
    }

    open spec fn spec_check(&self, src: SourceView) -> Seq<FindingView> {
        matches_outside(src, r#"\bDateTime\b"#@, None, bytes_of("Use `Time` instead of `DateTime`"))
    }

    fn name(&self) -> (r: &str) {
        "Style/DateTime"
    }

    fn category(&self) -> (r: Category) {
        Category::Style
    }

    fn severity(&self) -> (r: Severity) {
        Severity::Convention
    }

    open spec fn spec_description(&self) -> Seq<char> {
        "Use Time instead of DateTime"@
    }

    fn description(&self) -> (r: &str) {
        "Use Time instead of DateTime"
    }

    fn check(&self, source: &SourceFile) -> (r: Vec<Offense>) {
        let fs = scan_matches_outside(source, r#"\bDateTime\b"#, None, "Use `Time` instead of `DateTime`");
        report(self.name(), self.severity(), fs)
    }
}

/// Use parentheses in method definitions with parameters
pub struct DefWithParentheses;

impl Cop for DefWithParentheses {
    open spec fn spec_name(&self) -> Seq<char> {
        "Style/DefWithParentheses"@
    }

    open spec fn spec_category(&self) -> Category {
        Category::Style
    }

    open spec fn spec_severity(&self) -> Severity {
        Severity::Convention
    }

    open spec fn spec_check(&self, src: SourceView) -> Seq<FindingView> {
        firsts_outside(src, r#"\bdef\s+\w+\s+[a-zA-Z_]"#@, None, bytes_of("Use parentheses in method definitions with parameters"))
    }

    fn name(&self) -> (r: &str) {
        "Style/DefWithParentheses"
    }

    fn category(&self) -> (r: Category) {
        Category::Style
    }

    fn severity(&self) -> (r: Severity) {
        Severity::Convention
    }

    open spec fn spec_description(&self) -> Seq<char> {
        "Use parentheses in method definitions with parameters"@
    }

    fn description(&self) -> (r: &str) {
        "Use parentheses in method definitions with parameters"
    }

    fn check(&self, source: &SourceFile) -> (r: Vec<Offense>) {
        let fs = scan_firsts_outside(source, r#"\bdef\s+\w+\s+[a-zA-Z_]"#, None, "Use parentheses in method definitions with parameters");
        report(self.name(), self.severity(), fs)
    }
}

impl LineRule for DoubleNegation {
    /// The first occurrence on the line, where it starts outside strings and comments.
    open spec fn spec_line(&self, src: SourceView, i: int) -> Seq<FindingView> {
        first_text_outside(src, i, bytes_of("!!"), 2, bytes_of("Avoid using double negation `!!`"))
    }

    fn line_findings(&self, src: &SourceFile, i: usize) -> (r: Vec<Finding>) {
        first_text_outside_exec(src, i, "!!", 2, "Avoid using double negation `!!`")
    }
}

/// Avoid using double negation (!!)
pub struct DoubleNegation;

impl Cop for DoubleNegation {
    open spec fn spec_name(&self) -> Seq<char> {
        "Style/DoubleNegation"@
    }

    open spec fn spec_category(&self) -> Category {
        Category::Style
    }

    open spec fn spec_severity(&self) -> Severity {
        Severity::Convention
    }

    open spec fn spec_check(&self, src: SourceView) -> Seq<FindingView> {
        all_lines(self, src)
    }

    fn name(&self) -> (r: &str) {
        "Style/DoubleNegation"
    }

    fn category(&self) -> (r: Category) {
        Category::Style
    }

    fn severity(&self) -> (r: Severity) {
        Severity::Convention
    }

    open spec fn spec_description(&self) -> Seq<char> {
        "Avoid using double negation (!!)"@
    }

    fn description(&self) -> (r: &str) {
        "Avoid using double negation (!!)"
    }

    fn check(&self, source: &SourceFile) -> (r: Vec<Offense>) {
        report(self.name(), self.severity(), run_lines(self, source))
    }
}

/// Use Integer#times instead of each on a range
pub struct EachForSimpleLoop;

impl Cop for EachForSimpleLoop {
    open spec fn spec_name(&self) -> Seq<char> {
        "Style/EachForSimpleLoop"@
    }

    open spec fn spec_category(&self) -> Category {
        Category::Style
    }

    open spec fn spec_severity(&self) -> Severity {
        Severity::Convention
    }

    open spec fn spec_check(&self, src: SourceView) -> Seq<FindingView> {
        matches_outside(src, r#"\(0\.\.\.?\d+\)\.each"#@, None, bytes_of("Use `Integer#times` instead of `each` on a range"))
    }

    fn name(&self) -> (r: &str) {
        "Style/EachForSimpleLoop"
    }

    fn category(&self) -> (r: Category) {
        Category::Style
    }

    fn severity(&self) -> (r: Severity) {
        Severity::Convention
    }

    open spec fn spec_description(&self) -> Seq<char> {
        "Use Integer#times instead of each on a range"@
    }

    fn description(&self) -> (r: &str) {
        "Use Integer#times instead of each on a range"
    }

    fn check(&self, source: &SourceFile) -> (r: Vec<Offense>) {
        let fs = scan_matches_outside(source, r#"\(0\.\.\.?\d+\)\.each"#, None, "Use `Integer#times` instead of `each` on a range");
        report(self.name(), self.severity(), fs)
    }
}

/// Remove empty block parameters
pub struct EmptyBlockParameter;

impl Cop for EmptyBlockParameter {
    open spec fn spec_name(&self) -> Seq<char> {
        "Style/EmptyBlockParameter"@
    }

    open spec fn spec_category(&self) -> Category {
        Category::Style
    }

    open spec fn spec_severity(&self) -> Severity {
        Severity::Convention
    }

    open spec fn spec_check(&self, src: SourceView) -> Seq<FindingView> {
        matches_outside(src, r#"\{\s*\|\|"#@, None, bytes_of("Remove empty block parameters"))
    }

    fn name(&self) -> (r: &str) {
        "Style/EmptyBlockParameter"
    }

    fn category(&self) -> (r: Category) {
        Category::Style
    }

    fn severity(&self) -> (r: Severity) {
        Severity::Convention
    }

    open spec fn spec_description(&self) -> Seq<char> {
        "Remove empty block parameters"@
    }

    fn description(&self) -> (r: &str) {
        "Remove empty block parameters"
    }

    fn check(&self, source: &SourceFile) -> (r: Vec<Offense>) {
        let fs = scan_matches_outside(source, r#"\{\s*\|\|"#, None, "Remove empty block parameters");
        report(self.name(), self.severity(), fs)
    }
}

impl LineRule for EmptyCaseCondition {
    /// A `case` with nothing after it.
    open spec fn spec_line(&self, src: SourceView, i: int) -> Seq<FindingView> {
        let l = src.lines[i];
        whole_line(src, i, is_match(r#"^\s*case\s*$"#@, l), bytes_of("Avoid `case` without a condition"))
    }

    fn line_findings(&self, src: &SourceFile, i: usize) -> (r: Vec<Finding>) {
        let l = src.line_at(i);
        let hit = is_match_exec(r#"^\s*case\s*$"#, l);
        whole_line_exec(src, i, hit, "Avoid `case` without a condition")
    }
}

/// Avoid case without condition
pub struct EmptyCaseCondition;

impl Cop for EmptyCaseCondition {
    open spec fn spec_name(&self) -> Seq<char> {
        "Style/EmptyCaseCondition"@
    }

    open spec fn spec_category(&self) -> Category {
        Category::Style
    }

    open spec fn spec_severity(&self) -> Severity {
        Severity::Convention
    }

    open spec fn spec_check(&self, src: SourceView) -> Seq<FindingView> {
        all_lines(self, src)
    }

    fn name(&self) -> (r: &str) {
        "Style/EmptyCaseCondition"
    }

    fn category(&self) -> (r: Category) {
        Category::Style
    }

    fn severity(&self) -> (r: Severity) {
        Severity::Convention
    }

    open spec fn spec_description(&self) -> Seq<char> {
        "Avoid case without condition"@
    }

    fn description(&self) -> (r: &str) {
        "Avoid case without condition"
    }

    fn check(&self, source: &SourceFile) -> (r: Vec<Offense>) {
        report(self.name(), self.severity(), run_lines(self, source))
    }
}

impl LineRule for EmptyElse {
    /// An `else` directly followed by `end`.
    open spec fn spec_line(&self, src: SourceView, i: int) -> Seq<FindingView> {
        let l = src.lines[i];
        whole_line(src, i, trim(l) == bytes_of("else") && trimmed_line(src, i + 2) == Some(bytes_of("end")), bytes_of("Remove empty `else` clause"))
    }

    fn line_findings(&self, src: &SourceFile, i: usize) -> (r: Vec<Finding>) {
        let l = src.line_at(i);
        let hit = eq_str(trim_exec(l), "else") && trimmed_line_is(src, i + 2, "end");
        whole_line_exec(src, i, hit, "Remove empty `else` clause")
    }
}

/// Remove empty else clause
pub struct EmptyElse;

impl Cop for EmptyElse {
    open spec fn spec_name(&self) -> Seq<char> {
        "Style/EmptyElse"@
    }

    open spec fn spec_category(&self) -> Category {
        Category::Style
    }

    open spec fn spec_severity(&self) -> Severity {
        Severity::Convention
    }

    open spec fn spec_check(&self, src: SourceView) -> Seq<FindingView> {
        all_lines(self, src)
    }

    fn name(&self) -> (r: &str) {
        "Style/EmptyElse"
    }

    fn category(&self) -> (r: Category) {
        Category::Style
    }

    fn severity(&self) -> (r: Severity) {
        Severity::Convention
    }

    open spec fn spec_description(&self) -> Seq<char> {
        "Remove empty else clause"@
    }

    fn description(&self) -> (r: &str) {
        "Remove empty else clause"
    }

    fn check(&self, source: &SourceFile) -> (r: Vec<Offense>) {
        report(self.name(), self.severity(), run_lines(self, source))
    }
}

impl LineRule for EmptyHeredoc {
    /// A heredoc whose next line is already its delimiter.
    open spec fn spec_line(&self, src: SourceView, i: int) -> Seq<FindingView> {
        let l = src.lines[i];
        match first_match(r#"<<[-~]?([A-Z_]+)"#@, l) {
            Some(m) => match group(m, 1) {
                Some(g) => whole_line(src, i, trimmed_line(src, i + 2) == Some(l.subrange(g.0, g.1)), bytes_of("Avoid empty heredoc")),
                None => seq![],
            },
            None => seq![],
        }
    }

    fn line_findings(&self, src: &SourceFile, i: usize) -> (r: Vec<Finding>) {
        let l = src.line_at(i);
        match first_match_exec(r#"<<[-~]?([A-Z_]+)"#, l) {
            Some(m) => {
                match group_exec(&m, 1) {
                    Some(g) => {
                        assert(groups_view(m@)[1] == Some((g.0 as int, g.1 as int)));
                        let delim = &l[g.0..g.1];
                        let hit = match trimmed_line_exec(src, i + 2) {
                            Some(t) => bytes_eq(t, delim),
                            None => false,
                        };
                        whole_line_exec(src, i, hit, "Avoid empty heredoc")
                    },
                    None => Vec::new(),
                }
            },
            None => Vec::new(),
        }
    }
}

/// Avoid empty heredocs
pub struct EmptyHeredoc;

impl Cop for EmptyHeredoc {
    open spec fn spec_name(&self) -> Seq<char> {
        "Style/EmptyHeredoc"@
    }

    open spec fn spec_category(&self) -> Category {
        Category::Style
    }

    open spec fn spec_severity(&self) -> Severity {
        Severity::Convention
    }

    open spec fn spec_check(&self, src: SourceView) -> Seq<FindingView> {
        all_lines(self, src)
    }

    fn name(&self) -> (r: &str) {
        "Style/EmptyHeredoc"
    }

    fn category(&self) -> (r: Category) {
        Category::Style
    }

    fn severity(&self) -> (r: Severity) {
        Severity::Convention
    }

    open spec fn spec_description(&self) -> Seq<char> {
        "Avoid empty heredocs"@
    }

    fn description(&self) -> (r: &str) {
        "Avoid empty heredocs"
    }

    fn check(&self, source: &SourceFile) -> (r: Vec<Offense>) {
        report(self.name(), self.severity(), run_lines(self, source))
    }
}

/// Remove empty lambda parameters
pub struct EmptyLambdaParameter;

impl Cop for EmptyLambdaParameter {
    open spec fn spec_name(&self) -> Seq<char> {
        "Style/EmptyLambdaParameter"@
    }

    open spec fn spec_category(&self) -> Category {
        Category::Style
    }

    open spec fn spec_severity(&self) -> Severity {
        Severity::Convention
    }

    open spec fn spec_check(&self, src: SourceView) -> Seq<FindingView> {
        matches_outside(src, r#"->\s*\(\s*\)"#@, None, bytes_of("Remove empty lambda parameters"))
    }

    fn name(&self) -> (r: &str) {
        "Style/EmptyLambdaParameter"
    }

    fn category(&self) -> (r: Category) {
        Category::Style
    }

    fn severity(&self) -> (r: Severity) {
        Severity::Convention
    }

    open spec fn spec_description(&self) -> Seq<char> {
        "Remove empty lambda parameters"@
    }

    fn description(&self) -> (r: &str) {
        "Remove empty lambda parameters"
    }

    fn check(&self, source: &SourceFile) -> (r: Vec<Offense>) {
        let fs = scan_matches_outside(source, r#"->\s*\(\s*\)"#, None, "Remove empty lambda parameters");
        report(self.name(), self.severity(), fs)
    }
}

/// Each `Array.new`, then each `Hash.new`, on line `i`, outside strings and comments.
pub open spec fn empty_literal_line(src: SourceView, i: int) -> Seq<FindingView> {
    line_matches_outside(src, i, r#"\bArray\.new\b"#@, None, bytes_of("Use `[]` instead of `Array.new`")) + line_matches_outside(src, i, r#"\bHash\.new\b"#@, None, bytes_of("Use `{}` instead of `Hash.new`"))
}

fn empty_literal_line_exec(src: &SourceFile, i: usize) -> (r: Vec<Finding>)
    requires
        i < src@.lines.len(),
    ensures
        finding_views(r@) == empty_literal_line(src@, i as int),
{
    let mut out: Vec<Finding> = Vec::new();
    let fs = line_matches_outside_exec(src, i, r#"\bArray\.new\b"#, None, "Use `[]` instead of `Array.new`");
    append_findings(&mut out, fs);
    let fs = line_matches_outside_exec(src, i, r#"\bHash\.new\b"#, None, "Use `{}` instead of `Hash.new`");
    append_findings(&mut out, fs);
    out
}

impl LineRule for EmptyLiteral {
    open spec fn spec_line(&self, src: SourceView, i: int) -> Seq<FindingView> {
        empty_literal_line(src, i)
    }

    fn line_findings(&self, src: &SourceFile, i: usize) -> (r: Vec<Finding>) {
        empty_literal_line_exec(src, i)
    }
}

/// Use literal syntax for empty arrays and hashes
pub struct EmptyLiteral;

impl Cop for EmptyLiteral {
    open spec fn spec_name(&self) -> Seq<char> {
        "Style/EmptyLiteral"@
    }

    open spec fn spec_category(&self) -> Category {
        Category::Style
    }

    open spec fn spec_severity(&self) -> Severity {
        Severity::Convention
    }

    open spec fn spec_check(&self, src: SourceView) -> Seq<FindingView> {
        all_lines(self, src)
    }

    fn name(&self) -> (r: &str) {
        "Style/EmptyLiteral"
    }

    fn category(&self) -> (r: Category) {
        Category::Style
    }

    fn severity(&self) -> (r: Severity) {
        Severity::Convention
    }

    open spec fn spec_description(&self) -> Seq<char> {
        "Use literal syntax for empty arrays and hashes"@
    }

    fn description(&self) -> (r: &str) {
        "Use literal syntax for empty arrays and hashes"
    }

    fn check(&self, source: &SourceFile) -> (r: Vec<Offense>) {
        report(self.name(), self.severity(), run_lines(self, source))
    }
}

/// The line mentions `coding:` or `encoding:`.
pub open spec fn mentions_encoding(l: Seq<u8>) -> bool {
    contains(l, bytes_of("coding:")) || contains(l, bytes_of("encoding:"))
}

/// The 1-based line `n`, or empty text where there is none.
pub open spec fn line_or_empty(src: SourceView, n: int) -> Seq<u8> {
    match src.line(n) {
        Some(l) => l,
        None => seq![],
    }
}

fn line_or_empty_exec(src: &SourceFile, n: usize) -> (r: &[u8])
    ensures
        r@ == line_or_empty(src@, n as int),
{
    match src.line(n) {
        Some(l) => l,
        None => {
            let c = src.content();
            assert(c@.subrange(0, 0) =~= Seq::<u8>::empty());
            &c[0..0]
        },
    }
}

/// Use UTF-8 encoding comment when necessary
pub struct Encoding;

impl Cop for Encoding {
    open spec fn spec_name(&self) -> Seq<char> {
        "Style/Encoding"@
    }

    open spec fn spec_category(&self) -> Category {
        Category::Style
    }

    open spec fn spec_severity(&self) -> Severity {
        Severity::Convention
    }

    open spec fn spec_check(&self, src: SourceView) -> Seq<FindingView> {
        one_if(
            src.content.len() > 0 && !(mentions_encoding(line_or_empty(src, 1)) || mentions_encoding(line_or_empty(src, 2)))
                && !is_ascii(src.content),
            finding(1, 1, 1, bytes_of("Add encoding comment for non-ASCII characters")),
        )
    }

    fn name(&self) -> (r: &str) {
        "Style/Encoding"
    }

    fn category(&self) -> (r: Category) {
        Category::Style
    }

    fn severity(&self) -> (r: Severity) {
        Severity::Convention
    }

    open spec fn spec_description(&self) -> Seq<char> {
        "Use UTF-8 encoding comment when necessary"@
    }

    fn description(&self) -> (r: &str) {
        "Use UTF-8 encoding comment when necessary"
    }

    fn check(&self, source: &SourceFile) -> (r: Vec<Offense>) {
        let first = line_or_empty_exec(source, 1);
        let second = line_or_empty_exec(source, 2);
        let has_encoding = contains_str(first, "coding:") || contains_str(first, "encoding:") || contains_str(second, "coding:")
            || contains_str(second, "encoding:");
        let hit = !source.is_empty() && !has_encoding && !is_ascii_exec(source.content());
        let mut out: Vec<Finding> = Vec::new();
        push_if(&mut out, hit, Finding::text(1, 1, 1, "Add encoding comment for non-ASCII characters"));
        report(self.name(), self.severity(), out)
    }
}

/// Avoid using END blocks
pub struct EndBlock;

impl Cop for EndBlock {
    open spec fn spec_name(&self) -> Seq<char> {
        "Style/EndBlock"@
    }

    open spec fn spec_category(&self) -> Category {
        Category::Style
    }

    open spec fn spec_severity(&self) -> Severity {
        Severity::Convention
    }

    open spec fn spec_check(&self, src: SourceView) -> Seq<FindingView> {
        firsts_outside(src, r#"^\s*END\s*\{"#@, None, bytes_of("Avoid using END blocks"))
    }

    fn name(&self) -> (r: &str) {
        "Style/EndBlock"
    }

    fn category(&self) -> (r: Category) {
        Category::Style
    }

    fn severity(&self) -> (r: Severity) {
        Severity::Convention
    }

    open spec fn spec_description(&self) -> Seq<char> {
        "Avoid using END blocks"@
    }

    fn description(&self) -> (r: &str) {
        "Avoid using END blocks"
    }

    fn check(&self, source: &SourceFile) -> (r: Vec<Offense>) {
        let fs = scan_firsts_outside(source, r#"^\s*END\s*\{"#, None, "Avoid using END blocks");
        report(self.name(), self.severity(), fs)
    }
}

/// Use Integer#even? or Integer#odd? instead of % 2
pub struct EvenOdd;

impl Cop for EvenOdd {
    open spec fn spec_name(&self) -> Seq<char> {
        "Style/EvenOdd"@
    }

    open spec fn spec_category(&self) -> Category {
        Category::Style
    }

    open spec fn spec_severity(&self) -> Severity {
        Severity::Convention
    }

    open spec fn spec_check(&self, src: SourceView) -> Seq<FindingView> {
        matches_outside(src, r#"%\s*2\s*==\s*[01]"#@, None, bytes_of("Use `Integer#even?` or `Integer#odd?` instead of `% 2`"))
    }

    fn name(&self) -> (r: &str) {
        "Style/EvenOdd"
    }

    fn category(&self) -> (r: Category) {
        Category::Style
    }

    fn severity(&self) -> (r: Severity) {
        Severity::Convention
    }

    open spec fn spec_description(&self) -> Seq<char> {
        "Use Integer#even? or Integer#odd? instead of % 2"@
    }

    fn description(&self) -> (r: &str) {
        "Use Integer#even? or Integer#odd? instead of % 2"
    }

    fn check(&self, source: &SourceFile) -> (r: Vec<Offense>) {
        let fs = scan_matches_outside(source, r#"%\s*2\s*==\s*[01]"#, None, "Use `Integer#even?` or `Integer#odd?` instead of `% 2`");
        report(self.name(), self.severity(), fs)
    }
}

/// Use each instead of for
pub struct For;

impl Cop for For {
    open spec fn spec_name(&self) -> Seq<char> {
        "Style/For"@
    }

    open spec fn spec_category(&self) -> Category {
        Category::Style
    }

    open spec fn spec_severity(&self) -> Severity {
        Severity::Convention
    }

    open spec fn spec_check(&self, src: SourceView) -> Seq<FindingView> {
        firsts_outside(src, r#"^\s*for\s+\w+\s+in\s+"#@, None, bytes_of("Use `each` instead of `for`"))
    }

    fn name(&self) -> (r: &str) {
        "Style/For"
    }

    fn category(&self) -> (r: Category) {
        Category::Style
    }

    fn severity(&self) -> (r: Severity) {
        Severity::Convention
    }

    open spec fn spec_description(&self) -> Seq<char> {
        "Use each instead of for"@
    }

    fn description(&self) -> (r: &str) {
        "Use each instead of for"
    }

    fn check(&self, source: &SourceFile) -> (r: Vec<Offense>) {
        let fs = scan_firsts_outside(source, r#"^\s*for\s+\w+\s+in\s+"#, None, "Use `each` instead of `for`");
        report(self.name(), self.severity(), fs)
    }
}

impl LineRule for FormatString {
    /// The first `sprintf` on the line, where it starts outside strings and comments.
    open spec fn spec_line(&self, src: SourceView, i: int) -> Seq<FindingView> {
        first_text_outside(src, i, bytes_of("sprintf"), 7, bytes_of("Prefer `format` over `sprintf`"))
    }

    fn line_findings(&self, src: &SourceFile, i: usize) -> (r: Vec<Finding>) {
        first_text_outside_exec(src, i, "sprintf", 7, "Prefer `format` over `sprintf`")
    }
}

/// Use consistent format string style
pub struct FormatString;

impl Cop for FormatString {
    open spec fn spec_name(&self) -> Seq<char> {
        "Style/FormatString"@
    }

    open spec fn spec_category(&self) -> Category {
        Category::Style
    }

    open spec fn spec_severity(&self) -> Severity {
        Severity::Convention
    }

    open spec fn spec_check(&self, src: SourceView) -> Seq<FindingView> {
        all_lines(self, src)
    }

    fn name(&self) -> (r: &str) {
        "Style/FormatString"
    }

    fn category(&self) -> (r: Category) {
        Category::Style
    }

    fn severity(&self) -> (r: Severity) {
        Severity::Convention
    }

    open spec fn spec_description(&self) -> Seq<char> {
        "Use consistent format string style"@
    }

    fn description(&self) -> (r: &str) {
        "Use consistent format string style"
    }

    fn check(&self, source: &SourceFile) -> (r: Vec<Offense>) {
        report(self.name(), self.severity(), run_lines(self, source))
    }
}

impl MatchRule for GlobalStdStream {
    /// A standard stream constant, outside strings and comments, with its global variable.
    open spec fn spec_match(&self, src: SourceView, i: int, m: Seq<Option<(int, int)>>) -> Seq<FindingView> {
        let l = src.lines[i];
        match group(m, 1) {
            Some(g) => {
                let name = l.subrange(g.0, g.1);
                one_if(
                    !src.in_string_or_comment(i + 1, g.0 + 1),
                    finding(
                        i + 1,
                        g.0 + 1,
                        g.1 - g.0,
                        bytes_of("Use `$") + lower_bytes(name) + bytes_of("` instead of `") + name + bytes_of("`"),
                    ),
                )
            },
            None => seq![],
        }
    }

    fn match_findings(&self, src: &SourceFile, i: usize, m: &Vec<Option<(usize, usize)>>) -> (r: Vec<Finding>) {
        let l = src.line_at(i);
        let mut out: Vec<Finding> = Vec::new();
        match group_exec(m, 1) {
            Some(g) => {
                assert(groups_view(m@)[1] == Some((g.0 as int, g.1 as int)));
                let name = &l[g.0..g.1];
                let low = lower_bytes_exec(name);
                let mut msg = Message::from_str("Use `$");
                msg.push_bytes(low.as_slice());
                msg.push_str("` instead of `");
                msg.push_bytes(name);
                msg.push_str("`");
                push_if(&mut out, !src.in_string_or_comment(i + 1, g.0 + 1), Finding::new(i + 1, g.0 + 1, g.1 - g.0, msg));
            },
            None => {},
        }
        out
    }
}

impl LineRule for GlobalStdStream {
    open spec fn spec_line(&self, src: SourceView, i: int) -> Seq<FindingView> {
        all_matches(self, src, i, regex_captures(r#"\b(STDOUT|STDERR|STDIN)\b"#@, src.lines[i]))
    }

    fn line_findings(&self, src: &SourceFile, i: usize) -> (r: Vec<Finding>) {
        let ms = captures_all(r#"\b(STDOUT|STDERR|STDIN)\b"#, src.line_at(i));
        run_matches(self, src, i, &ms)
    }
}

/// Use $stdout/$stderr/$stdin instead of STDOUT/STDERR/STDIN
pub struct GlobalStdStream;

impl Cop for GlobalStdStream {
    open spec fn spec_name(&self) -> Seq<char> {
        "Style/GlobalStdStream"@
    }

    open spec fn spec_category(&self) -> Category {
        Category::Style
    }

    open spec fn spec_severity(&self) -> Severity {
        Severity::Convention
    }

    open spec fn spec_check(&self, src: SourceView) -> Seq<FindingView> {
        all_lines(self, src)
    }

    fn name(&self) -> (r: &str) {
        "Style/GlobalStdStream"
    }

    fn category(&self) -> (r: Category) {
        Category::Style
    }

    fn severity(&self) -> (r: Severity) {
        Severity::Convention
    }

    open spec fn spec_description(&self) -> Seq<char> {
        "Use $stdout/$stderr/$stdin instead of STDOUT/STDERR/STDIN"@
    }

    fn description(&self) -> (r: &str) {
        "Use $stdout/$stderr/$stdin instead of STDOUT/STDERR/STDIN"
    }

    fn check(&self, source: &SourceFile) -> (r: Vec<Offense>) {
        report(self.name(), self.severity(), run_lines(self, source))
    }
}

impl MatchRule for GlobalVars {
    /// A global variable other than `$stdout`, `$stderr`, `$stdin` and `$LOAD_PATH`, outside strings and comments.
    open spec fn spec_match(&self, src: SourceView, i: int, m: Seq<Option<(int, int)>>) -> Seq<FindingView> {
        let l = src.lines[i];
        whole_finding(i, m, !(group_bytes(l, m, 0) == bytes_of("$stdout") || group_bytes(l, m, 0) == bytes_of("$stderr") || group_bytes(l, m, 0) == bytes_of("$stdin") || group_bytes(l, m, 0) == bytes_of("$LOAD_PATH")) && !src.in_string_or_comment(i + 1, whole(m).0 + 1), bytes_of("Avoid using global variables"))
    }

    fn match_findings(&self, src: &SourceFile, i: usize, m: &Vec<Option<(usize, usize)>>) -> (r: Vec<Finding>) {
        let l = src.line_at(i);
        let (s, _e) = whole_exec(m, l.len());
        let hit = !(eq_str(group_bytes_exec(l, m, 0), "$stdout") || eq_str(group_bytes_exec(l, m, 0), "$stderr") || eq_str(group_bytes_exec(l, m, 0), "$stdin") || eq_str(group_bytes_exec(l, m, 0), "$LOAD_PATH")) && !src.in_string_or_comment(i + 1, s + 1);
        let mut msg = Message::from_str("Avoid using global variables");
        whole_finding_exec(i, m, l.len(), hit, msg)
    }
}

impl LineRule for GlobalVars {
    open spec fn spec_line(&self, src: SourceView, i: int) -> Seq<FindingView> {
        all_matches(self, src, i, regex_captures(r#"\$[a-zA-Z_]\w*"#@, src.lines[i]))
    }

    fn line_findings(&self, src: &SourceFile, i: usize) -> (r: Vec<Finding>) {
        let ms = captures_all(r#"\$[a-zA-Z_]\w*"#, src.line_at(i));
        run_matches(self, src, i, &ms)
    }
}

/// Avoid using global variables
pub struct GlobalVars;

impl Cop for GlobalVars {
    open spec fn spec_name(&self) -> Seq<char> {
        "Style/GlobalVars"@
    }

    open spec fn spec_category(&self) -> Category {
        Category::Style
    }

    open spec fn spec_severity(&self) -> Severity {
        Severity::Convention
    }

    open spec fn spec_check(&self, src: SourceView) -> Seq<FindingView> {
        all_lines(self, src)
    }

    fn name(&self) -> (r: &str) {
        "Style/GlobalVars"
    }

    fn category(&self) -> (r: Category) {
        Category::Style
    }

    fn severity(&self) -> (r: Severity) {
        Severity::Convention
    }

    open spec fn spec_description(&self) -> Seq<char> {
        "Avoid using global variables"@
    }

    fn description(&self) -> (r: &str) {
        "Avoid using global variables"
    }

    fn check(&self, source: &SourceFile) -> (r: Vec<Offense>) {
        report(self.name(), self.severity(), run_lines(self, source))
    }
}

/// The first 1-based line in `[k, hi]` that trims to `end`.
pub open spec fn first_end(src: SourceView, k: int, hi: int) -> Option<int>
    decreases hi + 1 - k,
{
    if k > hi {
        None
    } else if trimmed_line(src, k) == Some(bytes_of("end")) {
        Some(k)
    } else {
        first_end(src, k + 1, hi)
    }
}

/// A method whose first line opens an `if` or `unless` that is closed within
/// the next ten lines by an `end` directly followed by the method's `end`;
/// reported at the conditional's line.
pub open spec fn guard_clause_at(src: SourceView, i: int) -> Seq<FindingView> {
    let ln = i + 1;
    let n = src.lines.len() as int;
    if is_match(r#"^\s*def\s+"#@, src.lines[i]) {
        match src.line(ln + 1) {
            Some(nl) => if starts_with(trim(nl), bytes_of("if ")) || starts_with(trim(nl), bytes_of("unless ")) {
                let hi = if ln + 10 < n {
                    ln + 10
                } else {
                    n
                };
                match first_end(src, ln + 2, hi) {
                    Some(k) => one_if(
                        trimmed_line(src, k + 1) == Some(bytes_of("end")),
                        finding(ln + 1, 1, nl.len() as int, bytes_of("Use a guard clause instead of wrapping the entire method body")),
                    ),
                    None => seq![],
                }
            } else {
                seq![]
            },
            None => seq![],
        }
    } else {
        seq![]
    }
}

impl LineRule for GuardClause {
    open spec fn spec_line(&self, src: SourceView, i: int) -> Seq<FindingView> {
        guard_clause_at(src, i)
    }

    fn line_findings(&self, src: &SourceFile, i: usize) -> (r: Vec<Finding>) {
        let n = src.line_count();
        let ln = i + 1;
        let mut out: Vec<Finding> = Vec::new();
        if !is_match_exec(r#"^\s*def\s+"#, src.line_at(i)) {
            return out;
        }
        let nl = match src.line(ln + 1) {
            Some(x) => x,
            None => {
                return out;
            },
        };
        let t = trim_exec(nl);
        if !(starts_with_str(t, "if ") || starts_with_str(t, "unless ")) {
            return out;
        }
        let hi = if ln + 10 < n {
            ln + 10
        } else {
            n
        };
        let mut k = ln + 2;
        while k <= hi
            invariant
                ln + 2 <= k,
                hi <= n,
                n == src@.lines.len(),
                n <= isize::MAX,
                i < n,
                ln == i + 1,
                src@.line(ln + 1) == Some(nl@),
                is_match(r#"^\s*def\s+"#@, src@.lines[i as int]),
                starts_with(trim(nl@), bytes_of("if ")) || starts_with(trim(nl@), bytes_of("unless ")),
                hi as int == (if ln + 10 < n {
                    ln + 10
                } else {
                    n as int
                }),
                first_end(src@, ln + 2, hi as int) == first_end(src@, k as int, hi as int),
                out@.len() == 0,
            decreases hi + 1 - k,
        {
            if trimmed_line_is(src, k, "end") {
                let hit = trimmed_line_is(src, k + 1, "end");
                push_if(&mut out, hit, Finding::text(ln + 1, 1, nl.len(), "Use a guard clause instead of wrapping the entire method body"));
                return out;
            }
            k = k + 1;
        }
        out
    }
}

/// Use guard clause instead of wrapping method body in conditional
pub struct GuardClause;

impl Cop for GuardClause {
    open spec fn spec_name(&self) -> Seq<char> {
        "Style/GuardClause"@
    }

    open spec fn spec_category(&self) -> Category {
        Category::Style
    }

    open spec fn spec_severity(&self) -> Severity {
        Severity::Convention
    }

    open spec fn spec_check(&self, src: SourceView) -> Seq<FindingView> {
        all_lines(self, src)
    }

    fn name(&self) -> (r: &str) {
        "Style/GuardClause"
    }

    fn category(&self) -> (r: Category) {
        Category::Style
    }

    fn severity(&self) -> (r: Severity) {
        Severity::Convention
    }

    open spec fn spec_description(&self) -> Seq<char> {
        "Use guard clause instead of wrapping method body in conditional"@
    }

    fn description(&self) -> (r: &str) {
        "Use guard clause instead of wrapping method body in conditional"
    }

    fn check(&self, source: &SourceFile) -> (r: Vec<Offense>) {
        report(self.name(), self.severity(), run_lines(self, source))
    }
}

/// Use Ruby 1.9 hash syntax
pub struct HashSyntax;

impl Cop for HashSyntax {
    open spec fn spec_name(&self) -> Seq<char> {
        "Style/HashSyntax"@
    }

    open spec fn spec_category(&self) -> Category {
        Category::Style
    }

    open spec fn spec_severity(&self) -> Severity {
        Severity::Convention
    }

    open spec fn spec_check(&self, src: SourceView) -> Seq<FindingView> {
        matches_outside(src, r#":([a-zA-Z_]\w*)\s*=>"#@, None, bytes_of("Use Ruby 1.9 hash syntax"))
    }

    fn name(&self) -> (r: &str) {
        "Style/HashSyntax"
    }

    fn category(&self) -> (r: Category) {
        Category::Style
    }

    fn severity(&self) -> (r: Severity) {
        Severity::Convention
    }

    open spec fn spec_description(&self) -> Seq<char> {
        "Use Ruby 1.9 hash syntax"@
    }

    fn description(&self) -> (r: &str) {
        "Use Ruby 1.9 hash syntax"
    }

    fn check(&self, source: &SourceFile) -> (r: Vec<Offense>) {
        let fs = scan_matches_outside(source, r#":([a-zA-Z_]\w*)\s*=>"#, None, "Use Ruby 1.9 hash syntax");
        report(self.name(), self.severity(), fs)
    }
}

impl LineRule for IdenticalConditionalBranches {
    /// An `if` whose one-line branch equals its one-line `else` branch.
    open spec fn spec_line(&self, src: SourceView, i: int) -> Seq<FindingView> {
        let l = src.lines[i];
        whole_line(src, i, starts_with(trim(l), bytes_of("if ")) && match trimmed_line(src, i + 2) {
            Some(a) => trimmed_line(src, i + 3) == Some(bytes_of("else")) && match trimmed_line(src, i + 4) {
                Some(b) => b == a && a.len() > 0,
                None => false,
            },
            None => false,
        }, bytes_of("Identical code in both branches of conditional"))
    }

    fn line_findings(&self, src: &SourceFile, i: usize) -> (r: Vec<Finding>) {
        let l = src.line_at(i);
        let hit = starts_with_str(trim_exec(l), "if ") && match trimmed_line_exec(src, i + 2) {
            Some(a) => trimmed_line_is(src, i + 3, "else") && match trimmed_line_exec(src, i + 4) {
                Some(b) => bytes_eq(b, a) && a.len() > 0,
                None => false,
            },
            None => false,
        };
        whole_line_exec(src, i, hit, "Identical code in both branches of conditional")
    }
}

/// Avoid identical code in conditional branches
pub struct IdenticalConditionalBranches;

impl Cop for IdenticalConditionalBranches {
    open spec fn spec_name(&self) -> Seq<char> {
        "Style/IdenticalConditionalBranches"@
    }

    open spec fn spec_category(&self) -> Category {
        Category::Style
    }

    open spec fn spec_severity(&self) -> Severity {
        Severity::Convention
    }

    open spec fn spec_check(&self, src: SourceView) -> Seq<FindingView> {
        all_lines(self, src)
    }

    fn name(&self) -> (r: &str) {
        "Style/IdenticalConditionalBranches"
    }

    fn category(&self) -> (r: Category) {
        Category::Style
    }

    fn severity(&self) -> (r: Severity) {
        Severity::Convention
    }

    open spec fn spec_description(&self) -> Seq<char> {
        "Avoid identical code in conditional branches"@
    }

    fn description(&self) -> (r: &str) {
        "Avoid identical code in conditional branches"
    }

    fn check(&self, source: &SourceFile) -> (r: Vec<Offense>) {
        report(self.name(), self.severity(), run_lines(self, source))
    }
}

impl LineRule for IfInsideElse {
    /// An `if` on the line after an `else`, reported at the `if`.
    open spec fn spec_line(&self, src: SourceView, i: int) -> Seq<FindingView> {
        let l = src.lines[i];
        if trim(l) == bytes_of("else") {
            match src.line(i + 2) {
                Some(nl) => one_if(
                    starts_with(trim(nl), bytes_of("if ")),
                    finding(i + 2, 1, nl.len() as int, bytes_of("Use `elsif` instead of `if` nested in `else`")),
                ),
                None => seq![],
            }
        } else {
            seq![]
        }
    }

    fn line_findings(&self, src: &SourceFile, i: usize) -> (r: Vec<Finding>) {
        let l = src.line_at(i);
        let mut out: Vec<Finding> = Vec::new();
        if eq_str(trim_exec(l), "else") {
            match src.line(i + 2) {
                Some(nl) => {
                    push_if(&mut out, starts_with_str(trim_exec(nl), "if "), Finding::text(i + 2, 1, nl.len(), "Use `elsif` instead of `if` nested in `else`"));
                },
                None => {},
            }
        }
        out
    }
}

/// Use elsif instead of if nested in else
pub struct IfInsideElse;

impl Cop for IfInsideElse {
    open spec fn spec_name(&self) -> Seq<char> {
        "Style/IfInsideElse"@
    }

    open spec fn spec_category(&self) -> Category {
        Category::Style
    }

    open spec fn spec_severity(&self) -> Severity {
        Severity::Convention
    }

    open spec fn spec_check(&self, src: SourceView) -> Seq<FindingView> {
        all_lines(self, src)
    }

    fn name(&self) -> (r: &str) {
        "Style/IfInsideElse"
    }

    fn category(&self) -> (r: Category) {
        Category::Style
    }

    fn severity(&self) -> (r: Severity) {
        Severity::Convention
    }

    open spec fn spec_description(&self) -> Seq<char> {
        "Use elsif instead of if nested in else"@
    }

    fn description(&self) -> (r: &str) {
        "Use elsif instead of if nested in else"
    }

    fn check(&self, source: &SourceFile) -> (r: Vec<Offense>) {
        report(self.name(), self.severity(), run_lines(self, source))
    }
}

impl LineRule for IfUnlessModifier {
    /// An `if` or `unless` with a one-line body.
    open spec fn spec_line(&self, src: SourceView, i: int) -> Seq<FindingView> {
        let l = src.lines[i];
        whole_line(src, i, is_match(r#"^\s*(if|unless)\s+"#@, l) && !contains(l, bytes_of(" then ")) && match trimmed_line(src, i + 2) {
            Some(a) => match trimmed_line(src, i + 3) {
                Some(b) => a.len() > 0 && b == bytes_of("end"),
                None => false,
            },
            None => false,
        }, bytes_of("Use modifier form for single-line conditionals"))
    }

    fn line_findings(&self, src: &SourceFile, i: usize) -> (r: Vec<Finding>) {
        let l = src.line_at(i);
        let hit = is_match_exec(r#"^\s*(if|unless)\s+"#, l) && !contains_str(l, " then ") && match trimmed_line_exec(src, i + 2) {
            Some(a) => match trimmed_line_exec(src, i + 3) {
                Some(b) => a.len() > 0 && eq_str(b, "end"),
                None => false,
            },
            None => false,
        };
        whole_line_exec(src, i, hit, "Use modifier form for single-line conditionals")
    }
}

/// Use modifier form for single-line conditionals
pub struct IfUnlessModifier;

impl Cop for IfUnlessModifier {
    open spec fn spec_name(&self) -> Seq<char> {
        "Style/IfUnlessModifier"@
    }

    open spec fn spec_category(&self) -> Category {
        Category::Style
    }

    open spec fn spec_severity(&self) -> Severity {
        Severity::Convention
    }

    open spec fn spec_check(&self, src: SourceView) -> Seq<FindingView> {
        all_lines(self, src)
    }

    fn name(&self) -> (r: &str) {
        "Style/IfUnlessModifier"
    }

    fn category(&self) -> (r: Category) {
        Category::Style
    }

    fn severity(&self) -> (r: Severity) {
        Severity::Convention
    }

    open spec fn spec_description(&self) -> Seq<char> {
        "Use modifier form for single-line conditionals"@
    }

    fn description(&self) -> (r: &str) {
        "Use modifier form for single-line conditionals"
    }

    fn check(&self, source: &SourceFile) -> (r: Vec<Offense>) {
        report(self.name(), self.severity(), run_lines(self, source))
    }
}

impl LineRule for IfWithBooleanLiteralBranches {
    /// A conditional whose branches are boolean literals.
    open spec fn spec_line(&self, src: SourceView, i: int) -> Seq<FindingView> {
        let l = src.lines[i];
        whole_line(src, i, is_match(r#"(if|unless)\s+.+\s+then\s+(true|false)\s+else\s+(true|false)"#@, l), bytes_of("This conditional expression returns a boolean literal; use the condition directly"))
    }

    fn line_findings(&self, src: &SourceFile, i: usize) -> (r: Vec<Finding>) {
        let l = src.line_at(i);
        let hit = is_match_exec(r#"(if|unless)\s+.+\s+then\s+(true|false)\s+else\s+(true|false)"#, l);
        whole_line_exec(src, i, hit, "This conditional expression returns a boolean literal; use the condition directly")
    }
}

/// Avoid if/else with boolean literal branches
pub struct IfWithBooleanLiteralBranches;

impl Cop for IfWithBooleanLiteralBranches {
    open spec fn spec_name(&self) -> Seq<char> {
        "Style/IfWithBooleanLiteralBranches"@
    }

    open spec fn spec_category(&self) -> Category {
        Category::Style
    }

    open spec fn spec_severity(&self) -> Severity {
        Severity::Convention
    }

    open spec fn spec_check(&self, src: SourceView) -> Seq<FindingView> {
        all_lines(self, src)
    }

    fn name(&self) -> (r: &str) {
        "Style/IfWithBooleanLiteralBranches"
    }

    fn category(&self) -> (r: Category) {
        Category::Style
    }

    fn severity(&self) -> (r: Severity) {
        Severity::Convention
    }

    open spec fn spec_description(&self) -> Seq<char> {
        "Avoid if/else with boolean literal branches"@
    }

    fn description(&self) -> (r: &str) {
        "Avoid if/else with boolean literal branches"
    }

    fn check(&self, source: &SourceFile) -> (r: Vec<Offense>) {
        report(self.name(), self.severity(), run_lines(self, source))
    }
}

/// Do not use semicolons in if/unless/while/until
pub struct IfWithSemicolon;

impl Cop for IfWithSemicolon {
    open spec fn spec_name(&self) -> Seq<char> {
        "Style/IfWithSemicolon"@
    }

    open spec fn spec_category(&self) -> Category {
        Category::Style
    }

    open spec fn spec_severity(&self) -> Severity {
        Severity::Convention
    }

    open spec fn spec_check(&self, src: SourceView) -> Seq<FindingView> {
        firsts_outside(src, r#"(if|unless)\s+[^;]+;"#@, None, bytes_of("Do not use `if/unless` with semicolons"))
    }

    fn name(&self) -> (r: &str) {
        "Style/IfWithSemicolon"
    }

    fn category(&self) -> (r: Category) {
        Category::Style
    }

    fn severity(&self) -> (r: Severity) {
        Severity::Convention
    }

    open spec fn spec_description(&self) -> Seq<char> {
        "Do not use semicolons in if/unless/while/until"@
    }

    fn description(&self) -> (r: &str) {
        "Do not use semicolons in if/unless/while/until"
    }

    fn check(&self, source: &SourceFile) -> (r: Vec<Offense>) {
        let fs = scan_firsts_outside(source, r#"(if|unless)\s+[^;]+;"#, None, "Do not use `if/unless` with semicolons");
        report(self.name(), self.severity(), fs)
    }
}

/// Use loop instead of while true
pub struct InfiniteLoop;

impl Cop for InfiniteLoop {
    open spec fn spec_name(&self) -> Seq<char> {
        "Style/InfiniteLoop"@
    }

    open spec fn spec_category(&self) -> Category {
        Category::Style
    }

    open spec fn spec_severity(&self) -> Severity {
        Severity::Convention
    }

    open spec fn spec_check(&self, src: SourceView) -> Seq<FindingView> {
        matches_outside(src, r#"\bwhile\s+true\b"#@, None, bytes_of("Use `loop` instead of `while true`"))
    }

    fn name(&self) -> (r: &str) {
        "Style/InfiniteLoop"
    }

    fn category(&self) -> (r: Category) {
        Category::Style
    }

    fn severity(&self) -> (r: Severity) {
        Severity::Convention
    }

    open spec fn spec_description(&self) -> Seq<char> {
        "Use loop instead of while true"@
    }

    fn description(&self) -> (r: &str) {
        "Use loop instead of while true"
    }

    fn check(&self, source: &SourceFile) -> (r: Vec<Offense>) {
        let fs = scan_matches_outside(source, r#"\bwhile\s+true\b"#, None, "Use `loop` instead of `while true`");
        report(self.name(), self.severity(), fs)
    }
}

impl LineRule for InlineComment {
    /// A comment after code, from the first `#` to the end of the line.
    open spec fn spec_line(&self, src: SourceView, i: int) -> Seq<FindingView> {
        let l = src.lines[i];
        match find_byte(l, 35u8) {
            Some(p) => one_if(
                trim(l.take(p)).len() > 0 && p > 0,
                finding(i + 1, p + 1, l.len() - p, bytes_of("Avoid inline comments")),
            ),
            None => seq![],
        }
    }

    fn line_findings(&self, src: &SourceFile, i: usize) -> (r: Vec<Finding>) {
        let l = src.line_at(i);
        let mut out: Vec<Finding> = Vec::new();
        match find_byte_exec(l, 35u8) {
            Some(p) => {
                proof {
                    lemma_find_byte_from_spec(l@, 35u8, 0);
                }
                let before_slice = &l[0..p];
                assert(before_slice@ =~= l@.take(p as int));
                let hit = trim_exec(before_slice).len() > 0 && p > 0;
                push_if(&mut out, hit, Finding::text(i + 1, p + 1, l.len() - p, "Avoid inline comments"));
            },
            None => {},
        }
        out
    }
}

/// Avoid inline comments
pub struct InlineComment;

impl Cop for InlineComment {
    open spec fn spec_name(&self) -> Seq<char> {
        "Style/InlineComment"@
    }

    open spec fn spec_category(&self) -> Category {
        Category::Style
    }

    open spec fn spec_severity(&self) -> Severity {
        Severity::Convention
    }

    open spec fn spec_check(&self, src: SourceView) -> Seq<FindingView> {
        all_lines(self, src)
    }

    fn name(&self) -> (r: &str) {
        "Style/InlineComment"
    }

    fn category(&self) -> (r: Category) {
        Category::Style
    }

    fn severity(&self) -> (r: Severity) {
        Severity::Convention
    }

    open spec fn spec_description(&self) -> Seq<char> {
        "Avoid inline comments"@
    }

    fn description(&self) -> (r: &str) {
        "Avoid inline comments"
    }

    fn check(&self, source: &SourceFile) -> (r: Vec<Offense>) {
        report(self.name(), self.severity(), run_lines(self, source))
    }
}

/// Use -> for lambda literals
pub struct Lambda;

impl Cop for Lambda {
    open spec fn spec_name(&self) -> Seq<char> {
        "Style/Lambda"@
    }

    open spec fn spec_category(&self) -> Category {
        Category::Style
    }

    open spec fn spec_severity(&self) -> Severity {
        Severity::Convention
    }

    open spec fn spec_check(&self, src: SourceView) -> Seq<FindingView> {
        matches_outside(src, r#"\blambda\s*\{"#@, None, bytes_of("Use `->` for lambda literals"))
    }

    fn name(&self) -> (r: &str) {
        "Style/Lambda"
    }

    fn category(&self) -> (r: Category) {
        Category::Style
    }

    fn severity(&self) -> (r: Severity) {
        Severity::Convention
    }

    open spec fn spec_description(&self) -> Seq<char> {
        "Use -> for lambda literals"@
    }

    fn description(&self) -> (r: &str) {
        "Use -> for lambda literals"
    }

    fn check(&self, source: &SourceFile) -> (r: Vec<Offense>) {
        let fs = scan_matches_outside(source, r#"\blambda\s*\{"#, None, "Use `->` for lambda literals");
        report(self.name(), self.severity(), fs)
    }
}

/// Use call instead of .() for lambda invocation
pub struct LambdaCall;

impl Cop for LambdaCall {
    open spec fn spec_name(&self) -> Seq<char> {
        "Style/LambdaCall"@
    }

    open spec fn spec_category(&self) -> Category {
        Category::Style
    }

    open spec fn spec_severity(&self) -> Severity {
        Severity::Convention
    }

    open spec fn spec_check(&self, src: SourceView) -> Seq<FindingView> {
        matches_outside(src, r#"\.\("#@, None, bytes_of("Use `call` instead of `.()` for lambda invocation"))
    }

    fn name(&self) -> (r: &str) {
        "Style/LambdaCall"
    }

    fn category(&self) -> (r: Category) {
        Category::Style
    }

    fn severity(&self) -> (r: Severity) {
        Severity::Convention
    }

    open spec fn spec_description(&self) -> Seq<char> {
        "Use call instead of .() for lambda invocation"@
    }

    fn description(&self) -> (r: &str) {
        "Use call instead of .() for lambda invocation"
    }

    fn check(&self, source: &SourceFile) -> (r: Vec<Offense>) {
        let fs = scan_matches_outside(source, r#"\.\("#, None, "Use `call` instead of `.()` for lambda invocation");
        report(self.name(), self.severity(), fs)
    }
}

/// A magic encoding comment on line `i` written without the space after `#`.
pub open spec fn magic_comment_at(src: SourceView, i: int) -> Seq<FindingView> {
    let l = src.lines[i];
    whole_line(
        src,
        i,
        (contains(l, bytes_of("coding:")) || contains(l, bytes_of("encoding:"))) && !contains(l, bytes_of("# frozen_string_literal:"))
            && !starts_with(l, bytes_of("#!")) && !starts_with(l, bytes_of("# ")),
        bytes_of("Magic comment should have space after #"),
    )
}

/// The number of leading lines that may hold magic comments: at most three.
pub open spec fn magic_lines(src: SourceView) -> int {
    if src.lines.len() < 3 {
        src.lines.len() as int
    } else {
        3
    }
}

/// Use consistent magic comment format
pub struct MagicCommentFormat;

impl Cop for MagicCommentFormat {
    open spec fn spec_name(&self) -> Seq<char> {
        "Style/MagicCommentFormat"@
    }

    open spec fn spec_category(&self) -> Category {
        Category::Style
    }

    open spec fn spec_severity(&self) -> Severity {
        Severity::Convention
    }

    open spec fn spec_check(&self, src: SourceView) -> Seq<FindingView> {
        gather(magic_lines(src), |i: int| magic_comment_at(src, i))
    }

    fn name(&self) -> (r: &str) {
        "Style/MagicCommentFormat"
    }

    fn category(&self) -> (r: Category) {
        Category::Style
    }

    fn severity(&self) -> (r: Severity) {
        Severity::Convention
    }

    open spec fn spec_description(&self) -> Seq<char> {
        "Use consistent magic comment format"@
    }

    fn description(&self) -> (r: &str) {
        "Use consistent magic comment format"
    }

    fn check(&self, source: &SourceFile) -> (r: Vec<Offense>) {
        let n = source.line_count();
        let top: usize = if n < 3 {
            n
        } else {
            3
        };
        let mut out: Vec<Finding> = Vec::new();
        let mut i: usize = 0;
        while i < top
            invariant
                i <= top,
                top <= n,
                n == source@.lines.len(),
                top == magic_lines(source@),
                finding_views(out@) == gather(i as int, |k: int| magic_comment_at(source@, k)),
            decreases top - i,
        {
            let l = source.line_at(i);
            let hit = (contains_str(l, "coding:") || contains_str(l, "encoding:")) && !contains_str(l, "# frozen_string_literal:")
                && !starts_with_str(l, "#!") && !starts_with_str(l, "# ");
            let fs = whole_line_exec(source, i, hit, "Magic comment should have space after #");
            append_findings(&mut out, fs);
            i = i + 1;
        }
        report(self.name(), self.severity(), out)
    }
}

/// Do not use parentheses for method calls with no arguments
pub struct MethodCallWithoutArgsParentheses;

impl Cop for MethodCallWithoutArgsParentheses {
    open spec fn spec_name(&self) -> Seq<char> {
        "Style/MethodCallWithoutArgsParentheses"@
    }

    open spec fn spec_category(&self) -> Category {
        Category::Style
    }

    open spec fn spec_severity(&self) -> Severity {
        Severity::Convention
    }

    open spec fn spec_check(&self, src: SourceView) -> Seq<FindingView> {
        matches_outside(src, r#"\.\w+\(\)"#@, None, bytes_of("Do not use parentheses for method calls with no arguments"))
    }

    fn name(&self) -> (r: &str) {
        "Style/MethodCallWithoutArgsParentheses"
    }

    fn category(&self) -> (r: Category) {
        Category::Style
    }

    fn severity(&self) -> (r: Severity) {
        Severity::Convention
    }

    open spec fn spec_description(&self) -> Seq<char> {
        "Do not use parentheses for method calls with no arguments"@
    }

    fn description(&self) -> (r: &str) {
        "Do not use parentheses for method calls with no arguments"
    }

    fn check(&self, source: &SourceFile) -> (r: Vec<Offense>) {
        let fs = scan_matches_outside(source, r#"\.\w+\(\)"#, None, "Do not use parentheses for method calls with no arguments");
        report(self.name(), self.severity(), fs)
    }
}

impl LineRule for MethodDefParentheses {
    /// A method definition without a parameter list.
    open spec fn spec_line(&self, src: SourceView, i: int) -> Seq<FindingView> {
        let l = src.lines[i];
        whole_line(src, i, is_match(r#"\bdef\s+\w+\s*$"#@, l) && !has_byte(l, 40u8) && !ends_with(trim(l), bytes_of(")")), bytes_of("Use parentheses in method definitions"))
    }

    fn line_findings(&self, src: &SourceFile, i: usize) -> (r: Vec<Finding>) {
        let l = src.line_at(i);
        let hit = is_match_exec(r#"\bdef\s+\w+\s*$"#, l) && !has_byte_exec(l, 40u8) && !ends_with_str(trim_exec(l), ")");
        whole_line_exec(src, i, hit, "Use parentheses in method definitions")
    }
}

/// Use parentheses in method definitions
pub struct MethodDefParentheses;

impl Cop for MethodDefParentheses {
    open spec fn spec_name(&self) -> Seq<char> {
        "Style/MethodDefParentheses"@
    }

    open spec fn spec_category(&self) -> Category {
        Category::Style
    }

    open spec fn spec_severity(&self) -> Severity {
        Severity::Convention
    }

    open spec fn spec_check(&self, src: SourceView) -> Seq<FindingView> {
        all_lines(self, src)
    }

    fn name(&self) -> (r: &str) {
        "Style/MethodDefParentheses"
    }

    fn category(&self) -> (r: Category) {
        Category::Style
    }

    fn severity(&self) -> (r: Severity) {
        Severity::Convention
    }

    open spec fn spec_description(&self) -> Seq<char> {
        "Use parentheses in method definitions"@
    }

    fn description(&self) -> (r: &str) {
        "Use parentheses in method definitions"
    }

    fn check(&self, source: &SourceFile) -> (r: Vec<Offense>) {
        report(self.name(), self.severity(), run_lines(self, source))
    }
}

/// After the first `n` lines: whether a class is open, the line of the class
/// that opened it, and the depth of `class`, `def` and `module` lines against
/// the `end`s seen inside it.
pub open spec fn mixin_state(src: SourceView, n: int) -> (bool, int, int)
    decreases n,
{
    if n <= 0 {
        (false, 0, 0)
    } else {
        let prev = mixin_state(src, n - 1);
        let t = trim(src.lines[n - 1]);
        if starts_with(t, bytes_of("class ")) {
            (
                true,
                if prev.0 {
                    prev.1
                } else {
                    n
                },
                prev.2 + 1,
            )
        } else {
            let d = if starts_with(t, bytes_of("def ")) || starts_with(t, bytes_of("module ")) {
                prev.2 + 1
            } else {
                prev.2
            };
            if t == bytes_of("end") && prev.0 {
                (d - 1 != 0, prev.1, d - 1)
            } else {
                (prev.0, prev.1, d)
            }
        }
    }
}

/// A mixin line more than ten lines below the line of the open class.
pub open spec fn mixin_at(src: SourceView, i: int) -> Seq<FindingView> {
    let l = src.lines[i];
    let st = mixin_state(src, i);
    whole_line(
        src,
        i,
        !starts_with(trim(l), bytes_of("class ")) && st.0 && is_match(r#"^\s+(include|extend|prepend)\s+\w+"#@, l) && i + 1 - st.1 > 10,
        bytes_of("Use `include`/`extend`/`prepend` at the top of the class"),
    )
}

proof fn lemma_mixin_bounds(src: SourceView, n: int)
    requires
        0 <= n,
    ensures
        -n <= mixin_state(src, n).2 <= n,
        0 <= mixin_state(src, n).1 <= n,
    decreases n,
{
    if n > 0 {
        lemma_mixin_bounds(src, n - 1);
    }
}

/// Use include/extend/prepend at the top of the class
pub struct MixinUsage;

impl Cop for MixinUsage {
    open spec fn spec_name(&self) -> Seq<char> {
        "Style/MixinUsage"@
    }

    open spec fn spec_category(&self) -> Category {
        Category::Style
    }

    open spec fn spec_severity(&self) -> Severity {
        Severity::Convention
    }

    open spec fn spec_check(&self, src: SourceView) -> Seq<FindingView> {
        gather(src.lines.len() as int, |i: int| mixin_at(src, i))
    }

    fn name(&self) -> (r: &str) {
        "Style/MixinUsage"
    }

    fn category(&self) -> (r: Category) {
        Category::Style
    }

    fn severity(&self) -> (r: Severity) {
        Severity::Convention
    }

    open spec fn spec_description(&self) -> Seq<char> {
        "Use include/extend/prepend at the top of the class"@
    }

    fn description(&self) -> (r: &str) {
        "Use include/extend/prepend at the top of the class"
    }

    fn check(&self, source: &SourceFile) -> (r: Vec<Offense>) {
        let n = source.line_count();
        let mut out: Vec<Finding> = Vec::new();
        let mut in_class = false;
        let mut class_line: usize = 0;
        let mut depth: i64 = 0;
        let mut i: usize = 0;
        while i < n
            invariant
                i <= n,
                n == source@.lines.len(),
                fits(source@),
                mixin_state(source@, i as int) == (in_class, class_line as int, depth as int),
                finding_views(out@) == gather(i as int, |k: int| mixin_at(source@, k)),
            decreases n - i,
        {
            proof {
                lemma_mixin_bounds(source@, i as int);
            }
            let l = source.line_at(i);
            let t = trim_exec(l);
            let is_class = starts_with_str(t, "class ");
            let hit = !is_class && in_class && is_match_exec(r#"^\s+(include|extend|prepend)\s+\w+"#, l) && i + 1 - class_line > 10;
            let fs = whole_line_exec(source, i, hit, "Use `include`/`extend`/`prepend` at the top of the class");
            append_findings(&mut out, fs);
            if is_class {
                if !in_class {
                    in_class = true;
                    class_line = i + 1;
                }
                depth = depth + 1;
            } else {
                if starts_with_str(t, "def ") || starts_with_str(t, "module ") {
                    depth = depth + 1;
                }
                if eq_str(t, "end") && in_class {
                    depth = depth - 1;
                    if depth == 0 {
                        in_class = false;
                    }
                }
            }
            i = i + 1;
        }
        report(self.name(), self.severity(), out)
    }
}

impl LineRule for MultilineIfThen {
    /// An `if` line that ends in `then`.
    open spec fn spec_line(&self, src: SourceView, i: int) -> Seq<FindingView> {
        let l = src.lines[i];
        whole_line(src, i, is_match(r#"^\s*if\s+.+\s+then\s*$"#@, l), bytes_of("Do not use `then` for multiline `if`"))
    }

    fn line_findings(&self, src: &SourceFile, i: usize) -> (r: Vec<Finding>) {
        let l = src.line_at(i);
        let hit = is_match_exec(r#"^\s*if\s+.+\s+then\s*$"#, l);
        whole_line_exec(src, i, hit, "Do not use `then` for multiline `if`")
    }
}

/// Do not use then on multiline if
pub struct MultilineIfThen;

impl Cop for MultilineIfThen {
    open spec fn spec_name(&self) -> Seq<char> {
        "Style/MultilineIfThen"@
    }

    open spec fn spec_category(&self) -> Category {
        Category::Style
    }

    open spec fn spec_severity(&self) -> Severity {
        Severity::Convention
    }

    open spec fn spec_check(&self, src: SourceView) -> Seq<FindingView> {
        all_lines(self, src)
    }

    fn name(&self) -> (r: &str) {
        "Style/MultilineIfThen"
    }

    fn category(&self) -> (r: Category) {
        Category::Style
    }

    fn severity(&self) -> (r: Severity) {
        Severity::Convention
    }

    open spec fn spec_description(&self) -> Seq<char> {
        "Do not use then on multiline if"@
    }

    fn description(&self) -> (r: &str) {
        "Do not use then on multiline if"
    }

    fn check(&self, source: &SourceFile) -> (r: Vec<Offense>) {
        report(self.name(), self.severity(), run_lines(self, source))
    }
}

impl LineRule for MultilineTernaryOperator {
    /// A `?` without `:` whose `:` is on the next line.
    open spec fn spec_line(&self, src: SourceView, i: int) -> Seq<FindingView> {
        let l = src.lines[i];
        whole_line(src, i, has_byte(l, 63u8) && !has_byte(l, 58u8) && match src.line(i + 2) {
            Some(nl) => has_byte(nl, 58u8),
            None => false,
        }, bytes_of("Avoid multiline ternary operators"))
    }

    fn line_findings(&self, src: &SourceFile, i: usize) -> (r: Vec<Finding>) {
        let l = src.line_at(i);
        let hit = has_byte_exec(l, 63u8) && !has_byte_exec(l, 58u8) && match src.line(i + 2) {
            Some(nl) => has_byte_exec(nl, 58u8),
            None => false,
        };
        whole_line_exec(src, i, hit, "Avoid multiline ternary operators")
    }
}

/// Avoid multiline ternary operators
pub struct MultilineTernaryOperator;

impl Cop for MultilineTernaryOperator {
    open spec fn spec_name(&self) -> Seq<char> {
        "Style/MultilineTernaryOperator"@
    }

    open spec fn spec_category(&self) -> Category {
        Category::Style
    }

    open spec fn spec_severity(&self) -> Severity {
        Severity::Convention
    }

    open spec fn spec_check(&self, src: SourceView) -> Seq<FindingView> {
        all_lines(self, src)
    }

    fn name(&self) -> (r: &str) {
        "Style/MultilineTernaryOperator"
    }

    fn category(&self) -> (r: Category) {
        Category::Style
    }

    fn severity(&self) -> (r: Severity) {
        Severity::Convention
    }

    open spec fn spec_description(&self) -> Seq<char> {
        "Avoid multiline ternary operators"@
    }

    fn description(&self) -> (r: &str) {
        "Avoid multiline ternary operators"
    }

    fn check(&self, source: &SourceFile) -> (r: Vec<Offense>) {
        report(self.name(), self.severity(), run_lines(self, source))
    }
}

impl LineRule for MultilineWhenThen {
    /// A `when` line that ends in `then`.
    open spec fn spec_line(&self, src: SourceView, i: int) -> Seq<FindingView> {
        let l = src.lines[i];
        whole_line(src, i, is_match(r#"^\s*when\s+.+\s+then\s*$"#@, l), bytes_of("Do not use `then` for multiline `when`"))
    }

    fn line_findings(&self, src: &SourceFile, i: usize) -> (r: Vec<Finding>) {
        let l = src.line_at(i);
        let hit = is_match_exec(r#"^\s*when\s+.+\s+then\s*$"#, l);
        whole_line_exec(src, i, hit, "Do not use `then` for multiline `when`")
    }
}

/// Do not use then on multiline when
pub struct MultilineWhenThen;

impl Cop for MultilineWhenThen {
    open spec fn spec_name(&self) -> Seq<char> {
        "Style/MultilineWhenThen"@
    }

    open spec fn spec_category(&self) -> Category {
        Category::Style
    }

    open spec fn spec_severity(&self) -> Severity {
        Severity::Convention
    }

    open spec fn spec_check(&self, src: SourceView) -> Seq<FindingView> {
        all_lines(self, src)
    }

    fn name(&self) -> (r: &str) {
        "Style/MultilineWhenThen"
    }

    fn category(&self) -> (r: Category) {
        Category::Style
    }

    fn severity(&self) -> (r: Severity) {
        Severity::Convention
    }

    open spec fn spec_description(&self) -> Seq<char> {
        "Do not use then on multiline when"@
    }

    fn description(&self) -> (r: &str) {
        "Do not use then on multiline when"
    }

    fn check(&self, source: &SourceFile) -> (r: Vec<Offense>) {
        report(self.name(), self.severity(), run_lines(self, source))
    }
}

impl LineRule for MutableConstant {
    /// A constant assigned an array, hash or percent literal without `.freeze`.
    open spec fn spec_line(&self, src: SourceView, i: int) -> Seq<FindingView> {
        let l = src.lines[i];
        whole_line(src, i, is_match(r#"^\s*[A-Z][A-Z_]*\s*=\s*(\[|\{|%[wWiI])"#@, l) && !contains(l, bytes_of(".freeze")), bytes_of("Freeze mutable objects assigned to constants"))
    }

    fn line_findings(&self, src: &SourceFile, i: usize) -> (r: Vec<Finding>) {
        let l = src.line_at(i);
        let hit = is_match_exec(r#"^\s*[A-Z][A-Z_]*\s*=\s*(\[|\{|%[wWiI])"#, l) && !contains_str(l, ".freeze");
        whole_line_exec(src, i, hit, "Freeze mutable objects assigned to constants")
    }
}

/// Freeze mutable constants
pub struct MutableConstant;

impl Cop for MutableConstant {
    open spec fn spec_name(&self) -> Seq<char> {
        "Style/MutableConstant"@
    }

    open spec fn spec_category(&self) -> Category {
        Category::Style
    }

    open spec fn spec_severity(&self) -> Severity {
        Severity::Convention
    }

    open spec fn spec_check(&self, src: SourceView) -> Seq<FindingView> {
        all_lines(self, src)
    }

    fn name(&self) -> (r: &str) {
        "Style/MutableConstant"
    }

    fn category(&self) -> (r: Category) {
        Category::Style
    }

    fn severity(&self) -> (r: Severity) {
        Severity::Convention
    }

    open spec fn spec_description(&self) -> Seq<char> {
        "Freeze mutable constants"@
    }

    fn description(&self) -> (r: &str) {
        "Freeze mutable constants"
    }

    fn check(&self, source: &SourceFile) -> (r: Vec<Offense>) {
        report(self.name(), self.severity(), run_lines(self, source))
    }
}

/// Use if instead of unless with negation
pub struct NegatedUnless;

impl Cop for NegatedUnless {
    open spec fn spec_name(&self) -> Seq<char> {
        "Style/NegatedUnless"@
    }

    open spec fn spec_category(&self) -> Category {
        Category::Style
    }

    open spec fn spec_severity(&self) -> Severity {
        Severity::Convention
    }

    open spec fn spec_check(&self, src: SourceView) -> Seq<FindingView> {
        matches_outside(src, r#"\bunless\s+!"#@, None, bytes_of("Use `if` instead of `unless` with negation"))
    }

    fn name(&self) -> (r: &str) {
        "Style/NegatedUnless"
    }

    fn category(&self) -> (r: Category) {
        Category::Style
    }

    fn severity(&self) -> (r: Severity) {
        Severity::Convention
    }

    open spec fn spec_description(&self) -> Seq<char> {
        "Use if instead of unless with negation"@
    }

    fn description(&self) -> (r: &str) {
        "Use if instead of unless with negation"
    }

    fn check(&self, source: &SourceFile) -> (r: Vec<Offense>) {
        let fs = scan_matches_outside(source, r#"\bunless\s+!"#, None, "Use `if` instead of `unless` with negation");
        report(self.name(), self.severity(), fs)
    }
}

/// Use until instead of while with negation
pub struct NegatedWhile;

impl Cop for NegatedWhile {
    open spec fn spec_name(&self) -> Seq<char> {
        "Style/NegatedWhile"@
    }

    open spec fn spec_category(&self) -> Category {
        Category::Style
    }

    open spec fn spec_severity(&self) -> Severity {
        Severity::Convention
    }

    open spec fn spec_check(&self, src: SourceView) -> Seq<FindingView> {
        matches_outside(src, r#"\bwhile\s+!"#@, None, bytes_of("Use `until` instead of `while` with negation"))
    }

    fn name(&self) -> (r: &str) {
        "Style/NegatedWhile"
    }

    fn category(&self) -> (r: Category) {
        Category::Style
    }

    fn severity(&self) -> (r: Severity) {
        Severity::Convention
    }

    open spec fn spec_description(&self) -> Seq<char> {
        "Use until instead of while with negation"@
    }

    fn description(&self) -> (r: &str) {
        "Use until instead of while with negation"
    }

    fn check(&self, source: &SourceFile) -> (r: Vec<Offense>) {
        let fs = scan_matches_outside(source, r#"\bwhile\s+!"#, None, "Use `until` instead of `while` with negation");
        report(self.name(), self.severity(), fs)
    }
}

impl LineRule for NestedModifier {
    /// Two modifier conditions on one line.
    open spec fn spec_line(&self, src: SourceView, i: int) -> Seq<FindingView> {
        let l = src.lines[i];
        whole_line(src, i, is_match(r#"\s+(if|unless)\s+.+\s+(if|unless)\s+"#@, l), bytes_of("Avoid nested modifier `if`/`unless`"))
    }

    fn line_findings(&self, src: &SourceFile, i: usize) -> (r: Vec<Finding>) {
        let l = src.line_at(i);
        let hit = is_match_exec(r#"\s+(if|unless)\s+.+\s+(if|unless)\s+"#, l);
        whole_line_exec(src, i, hit, "Avoid nested modifier `if`/`unless`")
    }
}

/// Avoid nested modifier if/unless
pub struct NestedModifier;

impl Cop for NestedModifier {
    open spec fn spec_name(&self) -> Seq<char> {
        "Style/NestedModifier"@
    }

    open spec fn spec_category(&self) -> Category {
        Category::Style
    }

    open spec fn spec_severity(&self) -> Severity {
        Severity::Convention
    }

    open spec fn spec_check(&self, src: SourceView) -> Seq<FindingView> {
        all_lines(self, src)
    }

    fn name(&self) -> (r: &str) {
        "Style/NestedModifier"
    }

    fn category(&self) -> (r: Category) {
        Category::Style
    }

    fn severity(&self) -> (r: Severity) {
        Severity::Convention
    }

    open spec fn spec_description(&self) -> Seq<char> {
        "Avoid nested modifier if/unless"@
    }

    fn description(&self) -> (r: &str) {
        "Avoid nested modifier if/unless"
    }

    fn check(&self, source: &SourceFile) -> (r: Vec<Offense>) {
        report(self.name(), self.severity(), run_lines(self, source))
    }
}

impl LineRule for NestedTernaryOperator {
    /// A line with more than one `?` and more than one `:`.
    open spec fn spec_line(&self, src: SourceView, i: int) -> Seq<FindingView> {
        let l = src.lines[i];
        whole_line(src, i, count_byte(l, 63u8) > 1 && count_byte(l, 58u8) > 1, bytes_of("Avoid nested ternary operators"))
    }

    fn line_findings(&self, src: &SourceFile, i: usize) -> (r: Vec<Finding>) {
        let l = src.line_at(i);
        let hit = count_byte_exec(l, 63u8) > 1 && count_byte_exec(l, 58u8) > 1;
        whole_line_exec(src, i, hit, "Avoid nested ternary operators")
    }
}

/// Avoid nested ternary operators
pub struct NestedTernaryOperator;

impl Cop for NestedTernaryOperator {
    open spec fn spec_name(&self) -> Seq<char> {
        "Style/NestedTernaryOperator"@
    }

    open spec fn spec_category(&self) -> Category {
        Category::Style
    }

    open spec fn spec_severity(&self) -> Severity {
        Severity::Convention
    }

    open spec fn spec_check(&self, src: SourceView) -> Seq<FindingView> {
        all_lines(self, src)
    }

    fn name(&self) -> (r: &str) {
        "Style/NestedTernaryOperator"
    }

    fn category(&self) -> (r: Category) {
        Category::Style
    }

    fn severity(&self) -> (r: Severity) {
        Severity::Convention
    }

    open spec fn spec_description(&self) -> Seq<char> {
        "Avoid nested ternary operators"@
    }

    fn description(&self) -> (r: &str) {
        "Avoid nested ternary operators"
    }

    fn check(&self, source: &SourceFile) -> (r: Vec<Offense>) {
        report(self.name(), self.severity(), run_lines(self, source))
    }
}

/// A line that starts a loop body: it calls `.each`, or starts with `while` or `until`.
pub open spec fn loop_opener(t: Seq<u8>) -> bool {
    contains(t, bytes_of(".each")) || starts_with(t, bytes_of("while ")) || starts_with(t, bytes_of("until "))
}

/// Whether a loop is open after the first `n` lines: a loop opener opens
/// one, and a line that trims to `end` closes it.
pub open spec fn in_loop_after(src: SourceView, n: int) -> bool
    decreases n,
{
    if n <= 0 {
        false
    } else {
        let t = trim(src.lines[n - 1]);
        if t == bytes_of("end") {
            false
        } else if loop_opener(t) {
            true
        } else {
            in_loop_after(src, n - 1)
        }
    }
}

/// Inside a loop, an `if` or `unless` with a one-line body.
pub open spec fn next_at(src: SourceView, i: int) -> Seq<FindingView> {
    let t = trim(src.lines[i]);
    let in_loop = loop_opener(t) || in_loop_after(src, i);
    whole_line(
        src,
        i,
        in_loop && (starts_with(t, bytes_of("if ")) || starts_with(t, bytes_of("unless "))) && match trimmed_line(src, i + 2) {
            Some(a) => match trimmed_line(src, i + 3) {
                Some(b) => a.len() > 0 && b == bytes_of("end"),
                None => false,
            },
            None => false,
        },
        bytes_of("Use `next` to skip iteration"),
    )
}

/// Use next to skip iteration instead of wrapping in conditional
pub struct Next;

impl Cop for Next {
    open spec fn spec_name(&self) -> Seq<char> {
        "Style/Next"@
    }

    open spec fn spec_category(&self) -> Category {
        Category::Style
    }

    open spec fn spec_severity(&self) -> Severity {
        Severity::Convention
    }

    open spec fn spec_check(&self, src: SourceView) -> Seq<FindingView> {
        gather(src.lines.len() as int, |i: int| next_at(src, i))
    }

    fn name(&self) -> (r: &str) {
        "Style/Next"
    }

    fn category(&self) -> (r: Category) {
        Category::Style
    }

    fn severity(&self) -> (r: Severity) {
        Severity::Convention
    }

    open spec fn spec_description(&self) -> Seq<char> {
        "Use next to skip iteration instead of wrapping in conditional"@
    }

    fn description(&self) -> (r: &str) {
        "Use next to skip iteration instead of wrapping in conditional"
    }

    fn check(&self, source: &SourceFile) -> (r: Vec<Offense>) {
        let n = source.line_count();
        let mut out: Vec<Finding> = Vec::new();
        let mut in_loop = false;
        let mut i: usize = 0;
        while i < n
            invariant
                i <= n,
                n == source@.lines.len(),
                in_loop == in_loop_after(source@, i as int),
                finding_views(out@) == gather(i as int, |k: int| next_at(source@, k)),
            decreases n - i,
        {
            let t = trim_exec(source.line_at(i));
            if contains_str(t, ".each") || starts_with_str(t, "while ") || starts_with_str(t, "until ") {
                in_loop = true;
            }
            let hit = in_loop && (starts_with_str(t, "if ") || starts_with_str(t, "unless ")) && match trimmed_line_exec(source, i + 2) {
                Some(a) => match trimmed_line_exec(source, i + 3) {
                    Some(b) => a.len() > 0 && eq_str(b, "end"),
                    None => false,
                },
                None => false,
            };
            let fs = whole_line_exec(source, i, hit, "Use `next` to skip iteration");
            append_findings(&mut out, fs);
            if eq_str(t, "end") {
                in_loop = false;
            }
            i = i + 1;
        }
        report(self.name(), self.severity(), out)
    }
}

/// Use .nil? instead of == nil
pub struct NilComparison;

impl Cop for NilComparison {
    open spec fn spec_name(&self) -> Seq<char> {
        "Style/NilComparison"@
    }

    open spec fn spec_category(&self) -> Category {
        Category::Style
    }

    open spec fn spec_severity(&self) -> Severity {
        Severity::Convention
    }

    open spec fn spec_check(&self, src: SourceView) -> Seq<FindingView> {
        matches_outside(src, r#"(==|!=)\s*nil\b"#@, None, bytes_of("Use `.nil?` instead of `== nil`"))
    }

    fn name(&self) -> (r: &str) {
        "Style/NilComparison"
    }

    fn category(&self) -> (r: Category) {
        Category::Style
    }

    fn severity(&self) -> (r: Severity) {
        Severity::Convention
    }

    open spec fn spec_description(&self) -> Seq<char> {
        "Use .nil? instead of == nil"@
    }

    fn description(&self) -> (r: &str) {
        "Use .nil? instead of == nil"
    }

    fn check(&self, source: &SourceFile) -> (r: Vec<Offense>) {
        let fs = scan_matches_outside(source, r#"(==|!=)\s*nil\b"#, None, "Use `.nil?` instead of `== nil`");
        report(self.name(), self.severity(), fs)
    }
}

impl LineRule for NonNilCheck {
    /// The first `!= nil` on the line, where it starts outside strings and comments.
    open spec fn spec_line(&self, src: SourceView, i: int) -> Seq<FindingView> {
        first_text_outside(src, i, bytes_of("!= nil"), 6, bytes_of("Use `!x.nil?` instead of `x != nil`"))
    }

    fn line_findings(&self, src: &SourceFile, i: usize) -> (r: Vec<Finding>) {
        first_text_outside_exec(src, i, "!= nil", 6, "Use `!x.nil?` instead of `x != nil`")
    }
}

/// Use !x.nil? for non-nil checks
pub struct NonNilCheck;

impl Cop for NonNilCheck {
    open spec fn spec_name(&self) -> Seq<char> {
        "Style/NonNilCheck"@
    }

    open spec fn spec_category(&self) -> Category {
        Category::Style
    }

    open spec fn spec_severity(&self) -> Severity {
        Severity::Convention
    }

    open spec fn spec_check(&self, src: SourceView) -> Seq<FindingView> {
        all_lines(self, src)
    }

    fn name(&self) -> (r: &str) {
        "Style/NonNilCheck"
    }

    fn category(&self) -> (r: Category) {
        Category::Style
    }

    fn severity(&self) -> (r: Severity) {
        Severity::Convention
    }

    open spec fn spec_description(&self) -> Seq<char> {
        "Use !x.nil? for non-nil checks"@
    }

    fn description(&self) -> (r: &str) {
        "Use !x.nil? for non-nil checks"
    }

    fn check(&self, source: &SourceFile) -> (r: Vec<Offense>) {
        report(self.name(), self.severity(), run_lines(self, source))
    }
}

/// Use ! instead of not
pub struct Not;

impl Cop for Not {
    open spec fn spec_name(&self) -> Seq<char> {
        "Style/Not"@
    }

    open spec fn spec_category(&self) -> Category {
        Category::Style
    }

    open spec fn spec_severity(&self) -> Severity {
        Severity::Convention
    }

    open spec fn spec_check(&self, src: SourceView) -> Seq<FindingView> {
        matches_outside(src, r#"\bnot\s+"#@, Some(3), bytes_of("Use `!` instead of `not`"))
    }

    fn name(&self) -> (r: &str) {
        "Style/Not"
    }

    fn category(&self) -> (r: Category) {
        Category::Style
    }

    fn severity(&self) -> (r: Severity) {
        Severity::Convention
    }

    open spec fn spec_description(&self) -> Seq<char> {
        "Use ! instead of not"@
    }

    fn description(&self) -> (r: &str) {
        "Use ! instead of not"
    }

    fn check(&self, source: &SourceFile) -> (r: Vec<Offense>) {
        let fs = scan_matches_outside(source, r#"\bnot\s+"#, Some(3), "Use `!` instead of `not`");
        report(self.name(), self.severity(), fs)
    }
}

impl MatchRule for NumericLiterals {
    /// A literal of six or more digits without underscores, outside strings and comments.
    open spec fn spec_match(&self, src: SourceView, i: int, m: Seq<Option<(int, int)>>) -> Seq<FindingView> {
        let l = src.lines[i];
        whole_finding(i, m, !has_byte(group_bytes(l, m, 0), 95u8) && !src.in_string_or_comment(i + 1, whole(m).0 + 1), bytes_of("Use underscores in large numeric literals for readability"))
    }

    fn match_findings(&self, src: &SourceFile, i: usize, m: &Vec<Option<(usize, usize)>>) -> (r: Vec<Finding>) {
        let l = src.line_at(i);
        let (s, _e) = whole_exec(m, l.len());
        let hit = !has_byte_exec(group_bytes_exec(l, m, 0), 95u8) && !src.in_string_or_comment(i + 1, s + 1);
        let mut msg = Message::from_str("Use underscores in large numeric literals for readability");
        whole_finding_exec(i, m, l.len(), hit, msg)
    }
}

impl LineRule for NumericLiterals {
    open spec fn spec_line(&self, src: SourceView, i: int) -> Seq<FindingView> {
        all_matches(self, src, i, regex_captures(r#"\b\d{6,}\b"#@, src.lines[i]))
    }

    fn line_findings(&self, src: &SourceFile, i: usize) -> (r: Vec<Finding>) {
        let ms = captures_all(r#"\b\d{6,}\b"#, src.line_at(i));
        run_matches(self, src, i, &ms)
    }
}

/// Use underscores in large numeric literals
pub struct NumericLiterals;

impl Cop for NumericLiterals {
    open spec fn spec_name(&self) -> Seq<char> {
        "Style/NumericLiterals"@
    }

    open spec fn spec_category(&self) -> Category {
        Category::Style
    }

    open spec fn spec_severity(&self) -> Severity {
        Severity::Convention
    }

    open spec fn spec_check(&self, src: SourceView) -> Seq<FindingView> {
        all_lines(self, src)
    }

    fn name(&self) -> (r: &str) {
        "Style/NumericLiterals"
    }

    fn category(&self) -> (r: Category) {
        Category::Style
    }

    fn severity(&self) -> (r: Severity) {
        Severity::Convention
    }

    open spec fn spec_description(&self) -> Seq<char> {
        "Use underscores in large numeric literals"@
    }

    fn description(&self) -> (r: &str) {
        "Use underscores in large numeric literals"
    }

    fn check(&self, source: &SourceFile) -> (r: Vec<Offense>) {
        report(self.name(), self.severity(), run_lines(self, source))
    }
}

impl MatchRule for NumericLiteralPrefix {
    /// An octal literal written with a bare leading zero, outside strings and comments.
    open spec fn spec_match(&self, src: SourceView, i: int, m: Seq<Option<(int, int)>>) -> Seq<FindingView> {
        let l = src.lines[i];
        whole_finding(i, m, group_bytes(l, m, 0).len() > 1 && !starts_with(group_bytes(l, m, 0), bytes_of("0o")) && !starts_with(group_bytes(l, m, 0), bytes_of("0x")) && !src.in_string_or_comment(i + 1, whole(m).0 + 1), bytes_of("Use `0o` prefix for octal literals"))
    }

    fn match_findings(&self, src: &SourceFile, i: usize, m: &Vec<Option<(usize, usize)>>) -> (r: Vec<Finding>) {
        let l = src.line_at(i);
        let (s, _e) = whole_exec(m, l.len());
        let hit = group_bytes_exec(l, m, 0).len() > 1 && !starts_with_str(group_bytes_exec(l, m, 0), "0o") && !starts_with_str(group_bytes_exec(l, m, 0), "0x") && !src.in_string_or_comment(i + 1, s + 1);
        let mut msg = Message::from_str("Use `0o` prefix for octal literals");
        whole_finding_exec(i, m, l.len(), hit, msg)
    }
}

impl LineRule for NumericLiteralPrefix {
    open spec fn spec_line(&self, src: SourceView, i: int) -> Seq<FindingView> {
        all_matches(self, src, i, regex_captures(r#"\b0[0-7]+\b"#@, src.lines[i]))
    }

    fn line_findings(&self, src: &SourceFile, i: usize) -> (r: Vec<Finding>) {
        let ms = captures_all(r#"\b0[0-7]+\b"#, src.line_at(i));
        run_matches(self, src, i, &ms)
    }
}

/// Use 0o for octal, 0x for hex, 0b for binary
pub struct NumericLiteralPrefix;

impl Cop for NumericLiteralPrefix {
    open spec fn spec_name(&self) -> Seq<char> {
        "Style/NumericLiteralPrefix"@
    }

    open spec fn spec_category(&self) -> Category {
        Category::Style
    }

    open spec fn spec_severity(&self) -> Severity {
        Severity::Convention
    }

    open spec fn spec_check(&self, src: SourceView) -> Seq<FindingView> {
        all_lines(self, src)
    }

    fn name(&self) -> (r: &str) {
        "Style/NumericLiteralPrefix"
    }

    fn category(&self) -> (r: Category) {
        Category::Style
    }

    fn severity(&self) -> (r: Severity) {
        Severity::Convention
    }

    open spec fn spec_description(&self) -> Seq<char> {
        "Use 0o for octal, 0x for hex, 0b for binary"@
    }

    fn description(&self) -> (r: &str) {
        "Use 0o for octal, 0x for hex, 0b for binary"
    }

    fn check(&self, source: &SourceFile) -> (r: Vec<Offense>) {
        report(self.name(), self.severity(), run_lines(self, source))
    }
}

/// Use numeric predicate methods
pub struct NumericPredicate;

impl Cop for NumericPredicate {
    open spec fn spec_name(&self) -> Seq<char> {
        "Style/NumericPredicate"@
    }

    open spec fn spec_category(&self) -> Category {
        Category::Style
    }

    open spec fn spec_severity(&self) -> Severity {
        Severity::Convention
    }

    open spec fn spec_check(&self, src: SourceView) -> Seq<FindingView> {
        matches_outside(src, r#"==\s*0\b"#@, None, bytes_of("Use `.zero?` instead of `== 0`"))
    }

    fn name(&self) -> (r: &str) {
        "Style/NumericPredicate"
    }

    fn category(&self) -> (r: Category) {
        Category::Style
    }

    fn severity(&self) -> (r: Severity) {
        Severity::Convention
    }

    open spec fn spec_description(&self) -> Seq<char> {
        "Use numeric predicate methods"@
    }

    fn description(&self) -> (r: &str) {
        "Use numeric predicate methods"
    }

    fn check(&self, source: &SourceFile) -> (r: Vec<Offense>) {
        let fs = scan_matches_outside(source, r#"==\s*0\b"#, None, "Use `.zero?` instead of `== 0`");
        report(self.name(), self.severity(), fs)
    }
}

impl LineRule for OneLineConditional {
    /// An `if`/`else` with one-line branches.
    open spec fn spec_line(&self, src: SourceView, i: int) -> Seq<FindingView> {
        let l = src.lines[i];
        whole_line(src, i, starts_with(trim(l), bytes_of("if ")) && !has_byte(l, 63u8) && match trimmed_line(src, i + 2) {
            Some(a) => trimmed_line(src, i + 3) == Some(bytes_of("else")) && match trimmed_line(src, i + 4) {
                Some(b) => trimmed_line(src, i + 5) == Some(bytes_of("end")) && a.len() > 0 && b.len() > 0,
                None => false,
            },
            None => false,
        }, bytes_of("Use ternary operator for simple conditionals"))
    }

    fn line_findings(&self, src: &SourceFile, i: usize) -> (r: Vec<Finding>) {
        let l = src.line_at(i);
        let hit = starts_with_str(trim_exec(l), "if ") && !has_byte_exec(l, 63u8) && match trimmed_line_exec(src, i + 2) {
            Some(a) => trimmed_line_is(src, i + 3, "else") && match trimmed_line_exec(src, i + 4) {
                Some(b) => trimmed_line_is(src, i + 5, "end") && a.len() > 0 && b.len() > 0,
                None => false,
            },
            None => false,
        };
        whole_line_exec(src, i, hit, "Use ternary operator for simple conditionals")
    }
}

/// Use ternary operator for simple conditionals
pub struct OneLineConditional;

impl Cop for OneLineConditional {
    open spec fn spec_name(&self) -> Seq<char> {
        "Style/OneLineConditional"@
    }

    open spec fn spec_category(&self) -> Category {
        Category::Style
    }

    open spec fn spec_severity(&self) -> Severity {
        Severity::Convention
    }

    open spec fn spec_check(&self, src: SourceView) -> Seq<FindingView> {
        all_lines(self, src)
    }

    fn name(&self) -> (r: &str) {
        "Style/OneLineConditional"
    }

    fn category(&self) -> (r: Category) {
        Category::Style
    }

    fn severity(&self) -> (r: Severity) {
        Severity::Convention
    }

    open spec fn spec_description(&self) -> Seq<char> {
        "Use ternary operator for simple conditionals"@
    }

    fn description(&self) -> (r: &str) {
        "Use ternary operator for simple conditionals"
    }

    fn check(&self, source: &SourceFile) -> (r: Vec<Offense>) {
        report(self.name(), self.severity(), run_lines(self, source))
    }
}

impl LineRule for OptionalBooleanParameter {
    /// A method parameter that defaults to a boolean.
    open spec fn spec_line(&self, src: SourceView, i: int) -> Seq<FindingView> {
        let l = src.lines[i];
        whole_line(src, i, is_match(r#"\bdef\s+\w+\([^)]*=\s*(true|false)"#@, l), bytes_of("Avoid optional boolean parameters"))
    }

    fn line_findings(&self, src: &SourceFile, i: usize) -> (r: Vec<Finding>) {
        let l = src.line_at(i);
        let hit = is_match_exec(r#"\bdef\s+\w+\([^)]*=\s*(true|false)"#, l);
        whole_line_exec(src, i, hit, "Avoid optional boolean parameters")
    }
}

/// Avoid optional boolean parameters
pub struct OptionalBooleanParameter;

impl Cop for OptionalBooleanParameter {
    open spec fn spec_name(&self) -> Seq<char> {
        "Style/OptionalBooleanParameter"@
    }

    open spec fn spec_category(&self) -> Category {
        Category::Style
    }

    open spec fn spec_severity(&self) -> Severity {
        Severity::Convention
    }

    open spec fn spec_check(&self, src: SourceView) -> Seq<FindingView> {
        all_lines(self, src)
    }

    fn name(&self) -> (r: &str) {
        "Style/OptionalBooleanParameter"
    }

    fn category(&self) -> (r: Category) {
        Category::Style
    }

    fn severity(&self) -> (r: Severity) {
        Severity::Convention
    }

    open spec fn spec_description(&self) -> Seq<char> {
        "Avoid optional boolean parameters"@
    }

    fn description(&self) -> (r: &str) {
        "Avoid optional boolean parameters"
    }

    fn check(&self, source: &SourceFile) -> (r: Vec<Offense>) {
        report(self.name(), self.severity(), run_lines(self, source))
    }
}

impl MatchRule for OrAssignment {
    /// A match whose first two names are the same, outside strings and comments.
    open spec fn spec_match(&self, src: SourceView, i: int, m: Seq<Option<(int, int)>>) -> Seq<FindingView> {
        let l = src.lines[i];
        whole_finding(i, m, group_bytes(l, m, 1) == group_bytes(l, m, 2) && !src.in_string_or_comment(i + 1, whole(m).0 + 1), bytes_of("Use `||=` for conditional assignment"))
    }

    fn match_findings(&self, src: &SourceFile, i: usize, m: &Vec<Option<(usize, usize)>>) -> (r: Vec<Finding>) {
        let l = src.line_at(i);
        let (s, _e) = whole_exec(m, l.len());
        let hit = bytes_eq(group_bytes_exec(l, m, 1), group_bytes_exec(l, m, 2)) && !src.in_string_or_comment(i + 1, s + 1);
        let mut msg = Message::from_str("Use `||=` for conditional assignment");
        whole_finding_exec(i, m, l.len(), hit, msg)
    }
}

impl LineRule for OrAssignment {
    open spec fn spec_line(&self, src: SourceView, i: int) -> Seq<FindingView> {
        all_matches(self, src, i, regex_captures(r#"(\w+)\s*=\s*(\w+)\s*\|\|"#@, src.lines[i]))
    }

    fn line_findings(&self, src: &SourceFile, i: usize) -> (r: Vec<Finding>) {
        let ms = captures_all(r#"(\w+)\s*=\s*(\w+)\s*\|\|"#, src.line_at(i));
        run_matches(self, src, i, &ms)
    }
}

/// Use ||= for conditional assignment
pub struct OrAssignment;

impl Cop for OrAssignment {
    open spec fn spec_name(&self) -> Seq<char> {
        "Style/OrAssignment"@
    }

    open spec fn spec_category(&self) -> Category {
        Category::Style
    }

    open spec fn spec_severity(&self) -> Severity {
        Severity::Convention
    }

    open spec fn spec_check(&self, src: SourceView) -> Seq<FindingView> {
        all_lines(self, src)
    }

    fn name(&self) -> (r: &str) {
        "Style/OrAssignment"
    }

    fn category(&self) -> (r: Category) {
        Category::Style
    }

    fn severity(&self) -> (r: Severity) {
        Severity::Convention
    }

    open spec fn spec_description(&self) -> Seq<char> {
        "Use ||= for conditional assignment"@
    }

    fn description(&self) -> (r: &str) {
        "Use ||= for conditional assignment"
    }

    fn check(&self, source: &SourceFile) -> (r: Vec<Offense>) {
        report(self.name(), self.severity(), run_lines(self, source))
    }
}

/// Do not use parentheses around conditions
pub struct ParenthesesAroundCondition;

impl Cop for ParenthesesAroundCondition {
    open spec fn spec_name(&self) -> Seq<char> {
        "Style/ParenthesesAroundCondition"@
    }

    open spec fn spec_category(&self) -> Category {
        Category::Style
    }

    open spec fn spec_severity(&self) -> Severity {
        Severity::Convention
    }

    open spec fn spec_check(&self, src: SourceView) -> Seq<FindingView> {
        matches_outside(src, r#"(if|unless|while|until)\s+\("#@, None, bytes_of("Do not use parentheses around conditions"))
    }

    fn name(&self) -> (r: &str) {
        "Style/ParenthesesAroundCondition"
    }

    fn category(&self) -> (r: Category) {
        Category::Style
    }

    fn severity(&self) -> (r: Severity) {
        Severity::Convention
    }

    open spec fn spec_description(&self) -> Seq<char> {
        "Do not use parentheses around conditions"@
    }

    fn description(&self) -> (r: &str) {
        "Do not use parentheses around conditions"
    }

    fn check(&self, source: &SourceFile) -> (r: Vec<Offense>) {
        let fs = scan_matches_outside(source, r#"(if|unless|while|until)\s+\("#, None, "Do not use parentheses around conditions");
        report(self.name(), self.severity(), fs)
    }
}

impl MatchRule for PercentLiteralDelimiters {
    /// A percent literal delimited by `{` or `<`, outside strings and comments.
    open spec fn spec_match(&self, src: SourceView, i: int, m: Seq<Option<(int, int)>>) -> Seq<FindingView> {
        let l = src.lines[i];
        whole_finding(i, m, !(group_bytes(l, m, 0).len() > 0 && (group_bytes(l, m, 0).last() == 40u8 || group_bytes(l, m, 0).last() == 91u8)) && !src.in_string_or_comment(i + 1, whole(m).0 + 1), bytes_of("Use consistent delimiters for percent literals"))
    }

    fn match_findings(&self, src: &SourceFile, i: usize, m: &Vec<Option<(usize, usize)>>) -> (r: Vec<Finding>) {
        let l = src.line_at(i);
        let (s, _e) = whole_exec(m, l.len());
        let hit = !(group_bytes_exec(l, m, 0).len() > 0 && (group_bytes_exec(l, m, 0)[group_bytes_exec(l, m, 0).len() - 1] == 40u8 || group_bytes_exec(l, m, 0)[group_bytes_exec(l, m, 0).len() - 1] == 91u8)) && !src.in_string_or_comment(i + 1, s + 1);
        let mut msg = Message::from_str("Use consistent delimiters for percent literals");
        whole_finding_exec(i, m, l.len(), hit, msg)
    }
}

impl LineRule for PercentLiteralDelimiters {
    open spec fn spec_line(&self, src: SourceView, i: int) -> Seq<FindingView> {
        all_matches(self, src, i, regex_captures(r#"%[wWiIqQrsx][{(\[<]"#@, src.lines[i]))
    }

    fn line_findings(&self, src: &SourceFile, i: usize) -> (r: Vec<Finding>) {
        let ms = captures_all(r#"%[wWiIqQrsx][{(\[<]"#, src.line_at(i));
        run_matches(self, src, i, &ms)
    }
}

/// Use consistent delimiters for percent literals
pub struct PercentLiteralDelimiters;

impl Cop for PercentLiteralDelimiters {
    open spec fn spec_name(&self) -> Seq<char> {
        "Style/PercentLiteralDelimiters"@
    }

    open spec fn spec_category(&self) -> Category {
        Category::Style
    }

    open spec fn spec_severity(&self) -> Severity {
        Severity::Convention
    }

    open spec fn spec_check(&self, src: SourceView) -> Seq<FindingView> {
        all_lines(self, src)
    }

    fn name(&self) -> (r: &str) {
        "Style/PercentLiteralDelimiters"
    }

    fn category(&self) -> (r: Category) {
        Category::Style
    }

    fn severity(&self) -> (r: Severity) {
        Severity::Convention
    }

    open spec fn spec_description(&self) -> Seq<char> {
        "Use consistent delimiters for percent literals"@
    }

    fn description(&self) -> (r: &str) {
        "Use consistent delimiters for percent literals"
    }

    fn check(&self, source: &SourceFile) -> (r: Vec<Offense>) {
        report(self.name(), self.severity(), run_lines(self, source))
    }
}

/// Use %q for single-quoted, %Q for double-quoted strings
pub struct PercentQLiterals;

impl Cop for PercentQLiterals {
    open spec fn spec_name(&self) -> Seq<char> {
        "Style/PercentQLiterals"@
    }

    open spec fn spec_category(&self) -> Category {
        Category::Style
    }

    open spec fn spec_severity(&self) -> Severity {
        Severity::Convention
    }

    open spec fn spec_check(&self, src: SourceView) -> Seq<FindingView> {
        matches_outside(src, r#"%[qQ][{(\[<]"#@, None, bytes_of("Use `%q` for single-quoted strings, `%Q` for double-quoted strings"))
    }

    fn name(&self) -> (r: &str) {
        "Style/PercentQLiterals"
    }

    fn category(&self) -> (r: Category) {
        Category::Style
    }

    fn severity(&self) -> (r: Severity) {
        Severity::Convention
    }

    open spec fn spec_description(&self) -> Seq<char> {
        "Use %q for single-quoted, %Q for double-quoted strings"@
    }

    fn description(&self) -> (r: &str) {
        "Use %q for single-quoted, %Q for double-quoted strings"
    }

    fn check(&self, source: &SourceFile) -> (r: Vec<Offense>) {
        let fs = scan_matches_outside(source, r#"%[qQ][{(\[<]"#, None, "Use `%q` for single-quoted strings, `%Q` for double-quoted strings");
        report(self.name(), self.severity(), fs)
    }
}

/// Use named captures instead of numbered backreferences
pub struct PerlBackrefs;

impl Cop for PerlBackrefs {
    open spec fn spec_name(&self) -> Seq<char> {
        "Style/PerlBackrefs"@
    }

    open spec fn spec_category(&self) -> Category {
        Category::Style
    }

    open spec fn spec_severity(&self) -> Severity {
        Severity::Convention
    }

    open spec fn spec_check(&self, src: SourceView) -> Seq<FindingView> {
        matches_outside(src, r#"\$\d+"#@, None, bytes_of("Use named captures instead of numbered backreferences"))
    }

    fn name(&self) -> (r: &str) {
        "Style/PerlBackrefs"
    }

    fn category(&self) -> (r: Category) {
        Category::Style
    }

    fn severity(&self) -> (r: Severity) {
        Severity::Convention
    }

    open spec fn spec_description(&self) -> Seq<char> {
        "Use named captures instead of numbered backreferences"@
    }

    fn description(&self) -> (r: &str) {
        "Use named captures instead of numbered backreferences"
    }

    fn check(&self, source: &SourceFile) -> (r: Vec<Offense>) {
        let fs = scan_matches_outside(source, r#"\$\d+"#, None, "Use named captures instead of numbered backreferences");
        report(self.name(), self.severity(), fs)
    }
}

/// Use proc instead of Proc.new
pub struct Proc;

impl Cop for Proc {
    open spec fn spec_name(&self) -> Seq<char> {
        "Style/Proc"@
    }

    open spec fn spec_category(&self) -> Category {
        Category::Style
    }

    open spec fn spec_severity(&self) -> Severity {
        Severity::Convention
    }

    open spec fn spec_check(&self, src: SourceView) -> Seq<FindingView> {
        matches_outside(src, r#"\bProc\.new\b"#@, None, bytes_of("Use `proc` instead of `Proc.new`"))
    }

    fn name(&self) -> (r: &str) {
        "Style/Proc"
    }

    fn category(&self) -> (r: Category) {
        Category::Style
    }

    fn severity(&self) -> (r: Severity) {
        Severity::Convention
    }

    open spec fn spec_description(&self) -> Seq<char> {
        "Use proc instead of Proc.new"@
    }

    fn description(&self) -> (r: &str) {
        "Use proc instead of Proc.new"
    }

    fn check(&self, source: &SourceFile) -> (r: Vec<Offense>) {
        let fs = scan_matches_outside(source, r#"\bProc\.new\b"#, None, "Use `proc` instead of `Proc.new`");
        report(self.name(), self.severity(), fs)
    }
}

/// Use consistent raise argument style
pub struct RaiseArgs;

impl Cop for RaiseArgs {
    open spec fn spec_name(&self) -> Seq<char> {
        "Style/RaiseArgs"@
    }

    open spec fn spec_category(&self) -> Category {
        Category::Style
    }

    open spec fn spec_severity(&self) -> Severity {
        Severity::Convention
    }

    open spec fn spec_check(&self, src: SourceView) -> Seq<FindingView> {
        matches_outside(src, r#"\braise\s+\w+\.new\("#@, None, bytes_of("Use `raise ErrorClass, message` instead of `raise ErrorClass.new(message)`"))
    }

    fn name(&self) -> (r: &str) {
        "Style/RaiseArgs"
    }

    fn category(&self) -> (r: Category) {
        Category::Style
    }

    fn severity(&self) -> (r: Severity) {
        Severity::Convention
    }

    open spec fn spec_description(&self) -> Seq<char> {
        "Use consistent raise argument style"@
    }

    fn description(&self) -> (r: &str) {
        "Use consistent raise argument style"
    }

    fn check(&self, source: &SourceFile) -> (r: Vec<Offense>) {
        let fs = scan_matches_outside(source, r#"\braise\s+\w+\.new\("#, None, "Use `raise ErrorClass, message` instead of `raise ErrorClass.new(message)`");
        report(self.name(), self.severity(), fs)
    }
}

impl LineRule for RedundantBegin {
    /// A `begin` on the line after a `def`, reported at the `begin`.
    open spec fn spec_line(&self, src: SourceView, i: int) -> Seq<FindingView> {
        let l = src.lines[i];
        if starts_with(trim(l), bytes_of("def ")) {
            match src.line(i + 2) {
                Some(nl) => one_if(
                    trim(nl) == bytes_of("begin"),
                    finding(i + 2, 1, nl.len() as int, bytes_of("Redundant `begin` block in method definition")),
                ),
                None => seq![],
            }
        } else {
            seq![]
        }
    }

    fn line_findings(&self, src: &SourceFile, i: usize) -> (r: Vec<Finding>) {
        let l = src.line_at(i);
        let mut out: Vec<Finding> = Vec::new();
        if starts_with_str(trim_exec(l), "def ") {
            match src.line(i + 2) {
                Some(nl) => {
                    push_if(&mut out, eq_str(trim_exec(nl), "begin"), Finding::text(i + 2, 1, nl.len(), "Redundant `begin` block in method definition"));
                },
                None => {},
            }
        }
        out
    }
}

/// Remove redundant begin block in method definition
pub struct RedundantBegin;

impl Cop for RedundantBegin {
    open spec fn spec_name(&self) -> Seq<char> {
        "Style/RedundantBegin"@
    }

    open spec fn spec_category(&self) -> Category {
        Category::Style
    }

    open spec fn spec_severity(&self) -> Severity {
        Severity::Convention
    }

    open spec fn spec_check(&self, src: SourceView) -> Seq<FindingView> {
        all_lines(self, src)
    }

    fn name(&self) -> (r: &str) {
        "Style/RedundantBegin"
    }

    fn category(&self) -> (r: Category) {
        Category::Style
    }

    fn severity(&self) -> (r: Severity) {
        Severity::Convention
    }

    open spec fn spec_description(&self) -> Seq<char> {
        "Remove redundant begin block in method definition"@
    }

    fn description(&self) -> (r: &str) {
        "Remove redundant begin block in method definition"
    }

    fn check(&self, source: &SourceFile) -> (r: Vec<Offense>) {
        report(self.name(), self.severity(), run_lines(self, source))
    }
}

/// Remove redundant RuntimeError from raise
pub struct RedundantException;

impl Cop for RedundantException {
    open spec fn spec_name(&self) -> Seq<char> {
        "Style/RedundantException"@
    }

    open spec fn spec_category(&self) -> Category {
        Category::Style
    }

    open spec fn spec_severity(&self) -> Severity {
        Severity::Convention
    }

    open spec fn spec_check(&self, src: SourceView) -> Seq<FindingView> {
        matches_outside(src, r#"\braise\s+RuntimeError,"#@, None, bytes_of("Redundant `RuntimeError` in raise statement"))
    }

    fn name(&self) -> (r: &str) {
        "Style/RedundantException"
    }

    fn category(&self) -> (r: Category) {
        Category::Style
    }

    fn severity(&self) -> (r: Severity) {
        Severity::Convention
    }

    open spec fn spec_description(&self) -> Seq<char> {
        "Remove redundant RuntimeError from raise"@
    }

    fn description(&self) -> (r: &str) {
        "Remove redundant RuntimeError from raise"
    }

    fn check(&self, source: &SourceFile) -> (r: Vec<Offense>) {
        let fs = scan_matches_outside(source, r#"\braise\s+RuntimeError,"#, None, "Redundant `RuntimeError` in raise statement");
        report(self.name(), self.severity(), fs)
    }
}

/// Remove redundant .freeze on immutable objects
pub struct RedundantFreeze;

impl Cop for RedundantFreeze {
    open spec fn spec_name(&self) -> Seq<char> {
        "Style/RedundantFreeze"@
    }

    open spec fn spec_category(&self) -> Category {
        Category::Style
    }

    open spec fn spec_severity(&self) -> Severity {
        Severity::Convention
    }

    open spec fn spec_check(&self, src: SourceView) -> Seq<FindingView> {
        matches_outside(src, r#"(true|false|nil|\d+)\.freeze"#@, None, bytes_of("Redundant `.freeze` on immutable object"))
    }

    fn name(&self) -> (r: &str) {
        "Style/RedundantFreeze"
    }

    fn category(&self) -> (r: Category) {
        Category::Style
    }

    fn severity(&self) -> (r: Severity) {
        Severity::Convention
    }

    open spec fn spec_description(&self) -> Seq<char> {
        "Remove redundant .freeze on immutable objects"@
    }

    fn description(&self) -> (r: &str) {
        "Remove redundant .freeze on immutable objects"
    }

    fn check(&self, source: &SourceFile) -> (r: Vec<Offense>) {
        let fs = scan_matches_outside(source, r#"(true|false|nil|\d+)\.freeze"#, None, "Redundant `.freeze` on immutable object");
        report(self.name(), self.severity(), fs)
    }
}

/// The number of positions where `#{` starts.
pub open spec fn interpolation_count(s: Seq<u8>) -> nat
    decreases s.len(),
{
    if s.len() < 2 {
        0
    } else {
        interpolation_count(s.drop_last()) + if s[s.len() - 2] == 35u8 && s.last() == 123u8 {
            1nat
        } else {
            0nat
        }
    }
}

fn interpolation_count_exec(s: &[u8]) -> (r: usize)
    ensures
        r == interpolation_count(s@),
{
    if s.len() < 2 {
        return 0;
    }
    let mut c: usize = 0;
    let mut j: usize = 1;
    assert(s@.take(1).len() < 2);
    while j < s.len()
        invariant
            1 <= j <= s.len(),
            c == interpolation_count(s@.take(j as int)),
            c <= j,
        decreases s.len() - j,
    {
        assert(s@.take(j + 1).drop_last() =~= s@.take(j as int));
        if s[j - 1] == 35u8 && s[j] == 123u8 {
            c = c + 1;
        }
        j = j + 1;
    }
    assert(s@.take(s@.len() as int) =~= s@);
    c
}

impl MatchCond for RedundantInterpolation {
    /// A match with one interpolation, under thirty bytes and without spaces; also inside strings.
    open spec fn spec_ok(&self, src: SourceView, i: int, m: Seq<Option<(int, int)>>) -> bool {
        interpolation_count(group_bytes(src.lines[i], m, 0)) == 1 && group_bytes(src.lines[i], m, 0).len() < 30 && !has_byte(group_bytes(src.lines[i], m, 0), 32u8)
    }

    fn ok(&self, src: &SourceFile, i: usize, m: &Vec<Option<(usize, usize)>>) -> (r: bool) {
        let l = src.line_at(i);
        let w = group_bytes_exec(l, m, 0);
        interpolation_count_exec(w) == 1 && w.len() < 30 && !has_byte_exec(w, 32u8)
    }
}

/// Remove redundant string interpolation
pub struct RedundantInterpolation;

impl Cop for RedundantInterpolation {
    open spec fn spec_name(&self) -> Seq<char> {
        "Style/RedundantInterpolation"@
    }

    open spec fn spec_category(&self) -> Category {
        Category::Style
    }

    open spec fn spec_severity(&self) -> Severity {
        Severity::Convention
    }

    open spec fn spec_check(&self, src: SourceView) -> Seq<FindingView> {
        cond_matches(self, src, r##""#\{\w+\}""##@, None, bytes_of("Use variable or expression directly instead of interpolation"))
    }

    fn name(&self) -> (r: &str) {
        "Style/RedundantInterpolation"
    }

    fn category(&self) -> (r: Category) {
        Category::Style
    }

    fn severity(&self) -> (r: Severity) {
        Severity::Convention
    }

    open spec fn spec_description(&self) -> Seq<char> {
        "Remove redundant string interpolation"@
    }

    fn description(&self) -> (r: &str) {
        "Remove redundant string interpolation"
    }

    fn check(&self, source: &SourceFile) -> (r: Vec<Offense>) {
        let fs = scan_cond_matches(self, source, r##""#\{\w+\}""##, None, "Use variable or expression directly instead of interpolation");
        report(self.name(), self.severity(), fs)
    }
}

/// Remove redundant parentheses
pub struct RedundantParentheses;

impl Cop for RedundantParentheses {
    open spec fn spec_name(&self) -> Seq<char> {
        "Style/RedundantParentheses"@
    }

    open spec fn spec_category(&self) -> Category {
        Category::Style
    }

    open spec fn spec_severity(&self) -> Severity {
        Severity::Convention
    }

    open spec fn spec_check(&self, src: SourceView) -> Seq<FindingView> {
        matches_outside(src, r#"return\s+\("#@, None, bytes_of("Remove redundant parentheses"))
    }

    fn name(&self) -> (r: &str) {
        "Style/RedundantParentheses"
    }

    fn category(&self) -> (r: Category) {
        Category::Style
    }

    fn severity(&self) -> (r: Severity) {
        Severity::Convention
    }

    open spec fn spec_description(&self) -> Seq<char> {
        "Remove redundant parentheses"@
    }

    fn description(&self) -> (r: &str) {
        "Remove redundant parentheses"
    }

    fn check(&self, source: &SourceFile) -> (r: Vec<Offense>) {
        let fs = scan_matches_outside(source, r#"return\s+\("#, None, "Remove redundant parentheses");
        report(self.name(), self.severity(), fs)
    }
}

/// Use quotes instead of %q when possible
pub struct RedundantPercentQ;

impl Cop for RedundantPercentQ {
    open spec fn spec_name(&self) -> Seq<char> {
        "Style/RedundantPercentQ"@
    }

    open spec fn spec_category(&self) -> Category {
        Category::Style
    }

    open spec fn spec_severity(&self) -> Severity {
        Severity::Convention
    }

    open spec fn spec_check(&self, src: SourceView) -> Seq<FindingView> {
        matches_outside(src, r#"%q[{(\[<][^})\]>]*[})\]>]"#@, None, bytes_of("Use quotes instead of `%q` when possible"))
    }

    fn name(&self) -> (r: &str) {
        "Style/RedundantPercentQ"
    }

    fn category(&self) -> (r: Category) {
        Category::Style
    }

    fn severity(&self) -> (r: Severity) {
        Severity::Convention
    }

    open spec fn spec_description(&self) -> Seq<char> {
        "Use quotes instead of %q when possible"@
    }

    fn description(&self) -> (r: &str) {
        "Use quotes instead of %q when possible"
    }

    fn check(&self, source: &SourceFile) -> (r: Vec<Offense>) {
        let fs = scan_matches_outside(source, r#"%q[{(\[<][^})\]>]*[})\]>]"#, None, "Use quotes instead of `%q` when possible");
        report(self.name(), self.severity(), fs)
    }
}

/// The line uses `self.`, but not in `def self.` or `self.class`.
pub open spec fn self_line(l: Seq<u8>) -> bool {
    contains(l, bytes_of("self.")) && !contains(l, bytes_of("def self.")) && !contains(l, bytes_of("self.class"))
}

/// The line has no `=`, or its first `self.` comes after its first `=`.
pub open spec fn self_after_assign(l: Seq<u8>) -> bool {
    match find_byte(l, 61u8) {
        None => true,
        Some(e) => match find(l, bytes_of("self.")) {
            Some(s) => s > e,
            None => false,
        },
    }
}

impl MatchCond for RedundantSelf {
    /// On a `self.` line, where `self.` is not assigned to, the match starts
    /// outside strings and comments.
    open spec fn spec_ok(&self, src: SourceView, i: int, m: Seq<Option<(int, int)>>) -> bool {
        let l = src.lines[i];
        self_line(l) && !src.in_string_or_comment(i + 1, whole(m).0 + 1) && self_after_assign(l)
    }

    fn ok(&self, src: &SourceFile, i: usize, m: &Vec<Option<(usize, usize)>>) -> (r: bool) {
        let l = src.line_at(i);
        let (s, _e) = whole_exec(m, l.len());
        let line_ok = contains_str(l, "self.") && !contains_str(l, "def self.") && !contains_str(l, "self.class");
        let after = match find_byte_exec(l, 61u8) {
            None => true,
            Some(e) => match find_str(l, "self.") {
                Some(p) => p > e,
                None => false,
            },
        };
        line_ok && !src.in_string_or_comment(i + 1, s + 1) && after
    }
}

/// Remove redundant self
pub struct RedundantSelf;

impl Cop for RedundantSelf {
    open spec fn spec_name(&self) -> Seq<char> {
        "Style/RedundantSelf"@
    }

    open spec fn spec_category(&self) -> Category {
        Category::Style
    }

    open spec fn spec_severity(&self) -> Severity {
        Severity::Convention
    }

    open spec fn spec_check(&self, src: SourceView) -> Seq<FindingView> {
        cond_matches(self, src, r#"\bself\.\w+\b"#@, Some(5), bytes_of("Remove redundant `self`"))
    }

    fn name(&self) -> (r: &str) {
        "Style/RedundantSelf"
    }

    fn category(&self) -> (r: Category) {
        Category::Style
    }

    fn severity(&self) -> (r: Severity) {
        Severity::Convention
    }

    open spec fn spec_description(&self) -> Seq<char> {
        "Remove redundant self"@
    }

    fn description(&self) -> (r: &str) {
        "Remove redundant self"
    }

    fn check(&self, source: &SourceFile) -> (r: Vec<Offense>) {
        let fs = scan_cond_matches(self, source, r#"\bself\.\w+\b"#, Some(5), "Remove redundant `self`");
        report(self.name(), self.severity(), fs)
    }
}

/// Use // for regexps instead of %r{}
pub struct RegexpLiteral;

impl Cop for RegexpLiteral {
    open spec fn spec_name(&self) -> Seq<char> {
        "Style/RegexpLiteral"@
    }

    open spec fn spec_category(&self) -> Category {
        Category::Style
    }

    open spec fn spec_severity(&self) -> Severity {
        Severity::Convention
    }

    open spec fn spec_check(&self, src: SourceView) -> Seq<FindingView> {
        matches_outside(src, r#"%r[{(\[<]"#@, None, bytes_of("Use `//` for regexps instead of `%r{}`"))
    }

    fn name(&self) -> (r: &str) {
        "Style/RegexpLiteral"
    }

    fn category(&self) -> (r: Category) {
        Category::Style
    }

    fn severity(&self) -> (r: Severity) {
        Severity::Convention
    }

    open spec fn spec_description(&self) -> Seq<char> {
        "Use // for regexps instead of %r{}"@
    }

    fn description(&self) -> (r: &str) {
        "Use // for regexps instead of %r{}"
    }

    fn check(&self, source: &SourceFile) -> (r: Vec<Offense>) {
        let fs = scan_matches_outside(source, r#"%r[{(\[<]"#, None, "Use `//` for regexps instead of `%r{}`");
        report(self.name(), self.severity(), fs)
    }
}

impl LineRule for RescueModifier {
    /// A `rescue` modifier after code, where it starts outside strings and comments.
    open spec fn spec_line(&self, src: SourceView, i: int) -> Seq<FindingView> {
        let l = src.lines[i];
        if !starts_with(trim(l), bytes_of("rescue")) && is_match(r#"\s+rescue\s+"#@, l) {
            first_text_outside(src, i, bytes_of(" rescue "), 7, bytes_of("Avoid using `rescue` modifier"))
        } else {
            seq![]
        }
    }

    fn line_findings(&self, src: &SourceFile, i: usize) -> (r: Vec<Finding>) {
        let l = src.line_at(i);
        if !starts_with_str(trim_exec(l), "rescue") && is_match_exec(r#"\s+rescue\s+"#, l) {
            first_text_outside_exec(src, i, " rescue ", 7, "Avoid using `rescue` modifier")
        } else {
            Vec::new()
        }
    }
}

/// Avoid using rescue modifier
pub struct RescueModifier;

impl Cop for RescueModifier {
    open spec fn spec_name(&self) -> Seq<char> {
        "Style/RescueModifier"@
    }

    open spec fn spec_category(&self) -> Category {
        Category::Style
    }

    open spec fn spec_severity(&self) -> Severity {
        Severity::Convention
    }

    open spec fn spec_check(&self, src: SourceView) -> Seq<FindingView> {
        all_lines(self, src)
    }

    fn name(&self) -> (r: &str) {
        "Style/RescueModifier"
    }

    fn category(&self) -> (r: Category) {
        Category::Style
    }

    fn severity(&self) -> (r: Severity) {
        Severity::Convention
    }

    open spec fn spec_description(&self) -> Seq<char> {
        "Avoid using rescue modifier"@
    }

    fn description(&self) -> (r: &str) {
        "Avoid using rescue modifier"
    }

    fn check(&self, source: &SourceFile) -> (r: Vec<Offense>) {
        report(self.name(), self.severity(), run_lines(self, source))
    }
}

impl LineRule for RescueStandardError {
    /// A bare `rescue` line.
    open spec fn spec_line(&self, src: SourceView, i: int) -> Seq<FindingView> {
        let l = src.lines[i];
        whole_line(src, i, trim(l) == bytes_of("rescue"), bytes_of("Rescue `StandardError` explicitly instead of bare `rescue`"))
    }

    fn line_findings(&self, src: &SourceFile, i: usize) -> (r: Vec<Finding>) {
        let l = src.line_at(i);
        let hit = eq_str(trim_exec(l), "rescue");
        whole_line_exec(src, i, hit, "Rescue `StandardError` explicitly instead of bare `rescue`")
    }
}

/// Rescue StandardError explicitly instead of bare rescue
pub struct RescueStandardError;

impl Cop for RescueStandardError {
    open spec fn spec_name(&self) -> Seq<char> {
        "Style/RescueStandardError"@
    }

    open spec fn spec_category(&self) -> Category {
        Category::Style
    }

    open spec fn spec_severity(&self) -> Severity {
        Severity::Convention
    }

    open spec fn spec_check(&self, src: SourceView) -> Seq<FindingView> {
        all_lines(self, src)
    }

    fn name(&self) -> (r: &str) {
        "Style/RescueStandardError"
    }

    fn category(&self) -> (r: Category) {
        Category::Style
    }

    fn severity(&self) -> (r: Severity) {
        Severity::Convention
    }

    open spec fn spec_description(&self) -> Seq<char> {
        "Rescue StandardError explicitly instead of bare rescue"@
    }

    fn description(&self) -> (r: &str) {
        "Rescue StandardError explicitly instead of bare rescue"
    }

    fn check(&self, source: &SourceFile) -> (r: Vec<Offense>) {
        report(self.name(), self.severity(), run_lines(self, source))
    }
}

impl MatchRule for SafeNavigation {
    /// A match whose first two names are the same, outside strings and comments.
    open spec fn spec_match(&self, src: SourceView, i: int, m: Seq<Option<(int, int)>>) -> Seq<FindingView> {
        let l = src.lines[i];
        whole_finding(i, m, group_bytes(l, m, 1) == group_bytes(l, m, 2) && !src.in_string_or_comment(i + 1, whole(m).0 + 1), bytes_of("Use safe navigation operator `&.` instead of checking for nil"))
    }

    fn match_findings(&self, src: &SourceFile, i: usize, m: &Vec<Option<(usize, usize)>>) -> (r: Vec<Finding>) {
        let l = src.line_at(i);
        let (s, _e) = whole_exec(m, l.len());
        let hit = bytes_eq(group_bytes_exec(l, m, 1), group_bytes_exec(l, m, 2)) && !src.in_string_or_comment(i + 1, s + 1);
        let mut msg = Message::from_str("Use safe navigation operator `&.` instead of checking for nil");
        whole_finding_exec(i, m, l.len(), hit, msg)
    }
}

impl LineRule for SafeNavigation {
    open spec fn spec_line(&self, src: SourceView, i: int) -> Seq<FindingView> {
        all_matches(self, src, i, regex_captures(r#"(\w+)\s*&&\s*(\w+)\."#@, src.lines[i]))
    }

    fn line_findings(&self, src: &SourceFile, i: usize) -> (r: Vec<Finding>) {
        let ms = captures_all(r#"(\w+)\s*&&\s*(\w+)\."#, src.line_at(i));
        run_matches(self, src, i, &ms)
    }
}

/// Use safe navigation operator &.
pub struct SafeNavigation;

impl Cop for SafeNavigation {
    open spec fn spec_name(&self) -> Seq<char> {
        "Style/SafeNavigation"@
    }

    open spec fn spec_category(&self) -> Category {
        Category::Style
    }

    open spec fn spec_severity(&self) -> Severity {
        Severity::Convention
    }

    open spec fn spec_check(&self, src: SourceView) -> Seq<FindingView> {
        all_lines(self, src)
    }

    fn name(&self) -> (r: &str) {
        "Style/SafeNavigation"
    }

    fn category(&self) -> (r: Category) {
        Category::Style
    }

    fn severity(&self) -> (r: Severity) {
        Severity::Convention
    }

    open spec fn spec_description(&self) -> Seq<char> {
        "Use safe navigation operator &."@
    }

    fn description(&self) -> (r: &str) {
        "Use safe navigation operator &."
    }

    fn check(&self, source: &SourceFile) -> (r: Vec<Offense>) {
        report(self.name(), self.severity(), run_lines(self, source))
    }
}

impl MatchRule for SelfAssignment {
    /// A match whose first two names are the same, outside strings and comments.
    open spec fn spec_match(&self, src: SourceView, i: int, m: Seq<Option<(int, int)>>) -> Seq<FindingView> {
        let l = src.lines[i];
        whole_finding(i, m, group_bytes(l, m, 1) == group_bytes(l, m, 2) && !src.in_string_or_comment(i + 1, whole(m).0 + 1), bytes_of("Use self-assignment shorthand"))
    }

    fn match_findings(&self, src: &SourceFile, i: usize, m: &Vec<Option<(usize, usize)>>) -> (r: Vec<Finding>) {
        let l = src.line_at(i);
        let (s, _e) = whole_exec(m, l.len());
        let hit = bytes_eq(group_bytes_exec(l, m, 1), group_bytes_exec(l, m, 2)) && !src.in_string_or_comment(i + 1, s + 1);
        let mut msg = Message::from_str("Use self-assignment shorthand");
        whole_finding_exec(i, m, l.len(), hit, msg)
    }
}

impl LineRule for SelfAssignment {
    open spec fn spec_line(&self, src: SourceView, i: int) -> Seq<FindingView> {
        all_matches(self, src, i, regex_captures(r#"(\w+)\s*=\s*(\w+)\s*([+\-*/%])"#@, src.lines[i]))
    }

    fn line_findings(&self, src: &SourceFile, i: usize) -> (r: Vec<Finding>) {
        let ms = captures_all(r#"(\w+)\s*=\s*(\w+)\s*([+\-*/%])"#, src.line_at(i));
        run_matches(self, src, i, &ms)
    }
}

/// Use self-assignment shorthand
pub struct SelfAssignment;

impl Cop for SelfAssignment {
    open spec fn spec_name(&self) -> Seq<char> {
        "Style/SelfAssignment"@
    }

    open spec fn spec_category(&self) -> Category {
        Category::Style
    }

    open spec fn spec_severity(&self) -> Severity {
        Severity::Convention
    }

    open spec fn spec_check(&self, src: SourceView) -> Seq<FindingView> {
        all_lines(self, src)
    }

    fn name(&self) -> (r: &str) {
        "Style/SelfAssignment"
    }

    fn category(&self) -> (r: Category) {
        Category::Style
    }

    fn severity(&self) -> (r: Severity) {
        Severity::Convention
    }

    open spec fn spec_description(&self) -> Seq<char> {
        "Use self-assignment shorthand"@
    }

    fn description(&self) -> (r: &str) {
        "Use self-assignment shorthand"
    }

    fn check(&self, source: &SourceFile) -> (r: Vec<Offense>) {
        report(self.name(), self.severity(), run_lines(self, source))
    }
}

impl LineRule for Semicolon {
    /// The first `;` on the line, where it starts outside strings and comments.
    open spec fn spec_line(&self, src: SourceView, i: int) -> Seq<FindingView> {
        first_text_outside(src, i, bytes_of(";"), 1, bytes_of("Do not use semicolons to separate statements"))
    }

    fn line_findings(&self, src: &SourceFile, i: usize) -> (r: Vec<Finding>) {
        first_text_outside_exec(src, i, ";", 1, "Do not use semicolons to separate statements")
    }
}

/// Do not use semicolons to separate statements
pub struct Semicolon;

impl Cop for Semicolon {
    open spec fn spec_name(&self) -> Seq<char> {
        "Style/Semicolon"@
    }

    open spec fn spec_category(&self) -> Category {
        Category::Style
    }

    open spec fn spec_severity(&self) -> Severity {
        Severity::Convention
    }

    open spec fn spec_check(&self, src: SourceView) -> Seq<FindingView> {
        all_lines(self, src)
    }

    fn name(&self) -> (r: &str) {
        "Style/Semicolon"
    }

    fn category(&self) -> (r: Category) {
        Category::Style
    }

    fn severity(&self) -> (r: Severity) {
        Severity::Convention
    }

    open spec fn spec_description(&self) -> Seq<char> {
        "Do not use semicolons to separate statements"@
    }

    fn description(&self) -> (r: &str) {
        "Do not use semicolons to separate statements"
    }

    fn check(&self, source: &SourceFile) -> (r: Vec<Offense>) {
        report(self.name(), self.severity(), run_lines(self, source))
    }
}

/// Avoid using send method
pub struct Send;

impl Cop for Send {
    open spec fn spec_name(&self) -> Seq<char> {
        "Style/Send"@
    }

    open spec fn spec_category(&self) -> Category {
        Category::Style
    }

    open spec fn spec_severity(&self) -> Severity {
        Severity::Convention
    }

    open spec fn spec_check(&self, src: SourceView) -> Seq<FindingView> {
        matches_outside(src, r#"\.send\("#@, None, bytes_of("Avoid using `send` method"))
    }

    fn name(&self) -> (r: &str) {
        "Style/Send"
    }

    fn category(&self) -> (r: Category) {
        Category::Style
    }

    fn severity(&self) -> (r: Severity) {
        Severity::Convention
    }

    open spec fn spec_description(&self) -> Seq<char> {
        "Avoid using send method"@
    }

    fn description(&self) -> (r: &str) {
        "Avoid using send method"
    }

    fn check(&self, source: &SourceFile) -> (r: Vec<Offense>) {
        let fs = scan_matches_outside(source, r#"\.send\("#, None, "Avoid using `send` method");
        report(self.name(), self.severity(), fs)
    }
}

/// Use raise instead of fail
pub struct SignalException;

impl Cop for SignalException {
    open spec fn spec_name(&self) -> Seq<char> {
        "Style/SignalException"@
    }

    open spec fn spec_category(&self) -> Category {
        Category::Style
    }

    open spec fn spec_severity(&self) -> Severity {
        Severity::Convention
    }

    open spec fn spec_check(&self, src: SourceView) -> Seq<FindingView> {
        matches_outside(src, r#"\bfail\s+"#@, Some(4), bytes_of("Use `raise` instead of `fail`"))
    }

    fn name(&self) -> (r: &str) {
        "Style/SignalException"
    }

    fn category(&self) -> (r: Category) {
        Category::Style
    }

    fn severity(&self) -> (r: Severity) {
        Severity::Convention
    }

    open spec fn spec_description(&self) -> Seq<char> {
        "Use raise instead of fail"@
    }

    fn description(&self) -> (r: &str) {
        "Use raise instead of fail"
    }

    fn check(&self, source: &SourceFile) -> (r: Vec<Offense>) {
        let fs = scan_matches_outside(source, r#"\bfail\s+"#, Some(4), "Use `raise` instead of `fail`");
        report(self.name(), self.severity(), fs)
    }
}

impl LineRule for SingleLineMethods {
    /// A method defined on one line.
    open spec fn spec_line(&self, src: SourceView, i: int) -> Seq<FindingView> {
        let l = src.lines[i];
        whole_line(src, i, is_match(r#"\bdef\s+\w+.*;\s*\w+.*;\s*end"#@, l), bytes_of("Avoid single-line method definitions"))
    }

    fn line_findings(&self, src: &SourceFile, i: usize) -> (r: Vec<Finding>) {
        let l = src.line_at(i);
        let hit = is_match_exec(r#"\bdef\s+\w+.*;\s*\w+.*;\s*end"#, l);
        whole_line_exec(src, i, hit, "Avoid single-line method definitions")
    }
}

/// Avoid single-line method definitions
pub struct SingleLineMethods;

impl Cop for SingleLineMethods {
    open spec fn spec_name(&self) -> Seq<char> {
        "Style/SingleLineMethods"@
    }

    open spec fn spec_category(&self) -> Category {
        Category::Style
    }

    open spec fn spec_severity(&self) -> Severity {
        Severity::Convention
    }

    open spec fn spec_check(&self, src: SourceView) -> Seq<FindingView> {
        all_lines(self, src)
    }

    fn name(&self) -> (r: &str) {
        "Style/SingleLineMethods"
    }

    fn category(&self) -> (r: Category) {
        Category::Style
    }

    fn severity(&self) -> (r: Severity) {
        Severity::Convention
    }

    open spec fn spec_description(&self) -> Seq<char> {
        "Avoid single-line method definitions"@
    }

    fn description(&self) -> (r: &str) {
        "Avoid single-line method definitions"
    }

    fn check(&self, source: &SourceFile) -> (r: Vec<Offense>) {
        report(self.name(), self.severity(), run_lines(self, source))
    }
}

impl LineRule for SpecialGlobalVars {
    /// The first use of each cryptic special global on the line, variable by variable, outside strings and comments.
    open spec fn spec_line(&self, src: SourceView, i: int) -> Seq<FindingView> {
        first_text_outside(src, i, bytes_of("$:"), 2, bytes_of("Use readable name instead of `$:`")) + first_text_outside(src, i, bytes_of("$;"), 2, bytes_of("Use readable name instead of `$;`")) + first_text_outside(src, i, bytes_of("$,"), 2, bytes_of("Use readable name instead of `$,`")) + first_text_outside(src, i, bytes_of("$/"), 2, bytes_of("Use readable name instead of `$/`")) + first_text_outside(src, i, bytes_of("$\\"), 2, bytes_of("Use readable name instead of `$\\`")) + first_text_outside(src, i, bytes_of("$."), 2, bytes_of("Use readable name instead of `$.`")) + first_text_outside(src, i, bytes_of("$_"), 2, bytes_of("Use readable name instead of `$_`")) + first_text_outside(src, i, bytes_of("$>"), 2, bytes_of("Use readable name instead of `$>`")) + first_text_outside(src, i, bytes_of("$<"), 2, bytes_of("Use readable name instead of `$<`"))
    }

    fn line_findings(&self, src: &SourceFile, i: usize) -> (r: Vec<Finding>) {
        let mut out: Vec<Finding> = Vec::new();
        let fs = first_text_outside_exec(src, i, "$:", 2, "Use readable name instead of `$:`");
        append_findings(&mut out, fs);
        let fs = first_text_outside_exec(src, i, "$;", 2, "Use readable name instead of `$;`");
        append_findings(&mut out, fs);
        let fs = first_text_outside_exec(src, i, "$,", 2, "Use readable name instead of `$,`");
        append_findings(&mut out, fs);
        let fs = first_text_outside_exec(src, i, "$/", 2, "Use readable name instead of `$/`");
        append_findings(&mut out, fs);
        let fs = first_text_outside_exec(src, i, "$\\", 2, "Use readable name instead of `$\\`");
        append_findings(&mut out, fs);
        let fs = first_text_outside_exec(src, i, "$.", 2, "Use readable name instead of `$.`");
        append_findings(&mut out, fs);
        let fs = first_text_outside_exec(src, i, "$_", 2, "Use readable name instead of `$_`");
        append_findings(&mut out, fs);
        let fs = first_text_outside_exec(src, i, "$>", 2, "Use readable name instead of `$>`");
        append_findings(&mut out, fs);
        let fs = first_text_outside_exec(src, i, "$<", 2, "Use readable name instead of `$<`");
        append_findings(&mut out, fs);
        out
    }
}

/// Use readable names for special global variables
pub struct SpecialGlobalVars;

impl Cop for SpecialGlobalVars {
    open spec fn spec_name(&self) -> Seq<char> {
        "Style/SpecialGlobalVars"@
    }

    open spec fn spec_category(&self) -> Category {
        Category::Style
    }

    open spec fn spec_severity(&self) -> Severity {
        Severity::Convention
    }

    open spec fn spec_check(&self, src: SourceView) -> Seq<FindingView> {
        all_lines(self, src)
    }

    fn name(&self) -> (r: &str) {
        "Style/SpecialGlobalVars"
    }

    fn category(&self) -> (r: Category) {
        Category::Style
    }

    fn severity(&self) -> (r: Severity) {
        Severity::Convention
    }

    open spec fn spec_description(&self) -> Seq<char> {
        "Use readable names for special global variables"@
    }

    fn description(&self) -> (r: &str) {
        "Use readable names for special global variables"
    }

    fn check(&self, source: &SourceFile) -> (r: Vec<Offense>) {
        report(self.name(), self.severity(), run_lines(self, source))
    }
}

/// Use warn instead of $stderr.puts
pub struct StderrPuts;

impl Cop for StderrPuts {
    open spec fn spec_name(&self) -> Seq<char> {
        "Style/StderrPuts"@
    }

    open spec fn spec_category(&self) -> Category {
        Category::Style
    }

    open spec fn spec_severity(&self) -> Severity {
        Severity::Convention
    }

    open spec fn spec_check(&self, src: SourceView) -> Seq<FindingView> {
        matches_outside(src, r#"\$stderr\.puts"#@, None, bytes_of("Use `warn` instead of `$stderr.puts`"))
    }

    fn name(&self) -> (r: &str) {
        "Style/StderrPuts"
    }

    fn category(&self) -> (r: Category) {
        Category::Style
    }

    fn severity(&self) -> (r: Severity) {
        Severity::Convention
    }

    open spec fn spec_description(&self) -> Seq<char> {
        "Use warn instead of $stderr.puts"@
    }

    fn description(&self) -> (r: &str) {
        "Use warn instead of $stderr.puts"
    }

    fn check(&self, source: &SourceFile) -> (r: Vec<Offense>) {
        let fs = scan_matches_outside(source, r#"\$stderr\.puts"#, None, "Use `warn` instead of `$stderr.puts`");
        report(self.name(), self.severity(), fs)
    }
}

impl MatchCond for StringConcatenation {
    /// Every match counts.
    open spec fn spec_ok(&self, src: SourceView, i: int, m: Seq<Option<(int, int)>>) -> bool {
        true
    }

    fn ok(&self, src: &SourceFile, i: usize, m: &Vec<Option<(usize, usize)>>) -> (r: bool) {
        true
    }
}

/// Use string interpolation instead of concatenation
pub struct StringConcatenation;

impl Cop for StringConcatenation {
    open spec fn spec_name(&self) -> Seq<char> {
        "Style/StringConcatenation"@
    }

    open spec fn spec_category(&self) -> Category {
        Category::Style
    }

    open spec fn spec_severity(&self) -> Severity {
        Severity::Convention
    }

    open spec fn spec_check(&self, src: SourceView) -> Seq<FindingView> {
        cond_matches(self, src, r#"["'][^"']*["']\s*\+\s*["']"#@, None, bytes_of("Use string interpolation instead of concatenation"))
    }

    fn name(&self) -> (r: &str) {
        "Style/StringConcatenation"
    }

    fn category(&self) -> (r: Category) {
        Category::Style
    }

    fn severity(&self) -> (r: Severity) {
        Severity::Convention
    }

    open spec fn spec_description(&self) -> Seq<char> {
        "Use string interpolation instead of concatenation"@
    }

    fn description(&self) -> (r: &str) {
        "Use string interpolation instead of concatenation"
    }

    fn check(&self, source: &SourceFile) -> (r: Vec<Offense>) {
        let fs = scan_cond_matches(self, source, r#"["'][^"']*["']\s*\+\s*["']"#, None, "Use string interpolation instead of concatenation");
        report(self.name(), self.severity(), fs)
    }
}

impl LineRule for StructInheritance {
    /// A class that inherits from `Struct.new`.
    open spec fn spec_line(&self, src: SourceView, i: int) -> Seq<FindingView> {
        let l = src.lines[i];
        whole_line(src, i, is_match(r#"class\s+\w+\s*<\s*Struct\.new"#@, l), bytes_of("Use `Struct.new` instead of inheriting from Struct"))
    }

    fn line_findings(&self, src: &SourceFile, i: usize) -> (r: Vec<Finding>) {
        let l = src.line_at(i);
        let hit = is_match_exec(r#"class\s+\w+\s*<\s*Struct\.new"#, l);
        whole_line_exec(src, i, hit, "Use `Struct.new` instead of inheriting from Struct")
    }
}

/// Use Struct.new instead of inheriting from Struct
pub struct StructInheritance;

impl Cop for StructInheritance {
    open spec fn spec_name(&self) -> Seq<char> {
        "Style/StructInheritance"@
    }

    open spec fn spec_category(&self) -> Category {
        Category::Style
    }

    open spec fn spec_severity(&self) -> Severity {
        Severity::Convention
    }

    open spec fn spec_check(&self, src: SourceView) -> Seq<FindingView> {
        all_lines(self, src)
    }

    fn name(&self) -> (r: &str) {
        "Style/StructInheritance"
    }

    fn category(&self) -> (r: Category) {
        Category::Style
    }

    fn severity(&self) -> (r: Severity) {
        Severity::Convention
    }

    open spec fn spec_description(&self) -> Seq<char> {
        "Use Struct.new instead of inheriting from Struct"@
    }

    fn description(&self) -> (r: &str) {
        "Use Struct.new instead of inheriting from Struct"
    }

    fn check(&self, source: &SourceFile) -> (r: Vec<Offense>) {
        report(self.name(), self.severity(), run_lines(self, source))
    }
}

/// Use %i or %I for symbol arrays
pub struct SymbolArray;

impl Cop for SymbolArray {
    open spec fn spec_name(&self) -> Seq<char> {
        "Style/SymbolArray"@
    }

    open spec fn spec_category(&self) -> Category {
        Category::Style
    }

    open spec fn spec_severity(&self) -> Severity {
        Severity::Convention
    }

    open spec fn spec_check(&self, src: SourceView) -> Seq<FindingView> {
        matches_outside(src, r#"\[:\w+(,\s*:\w+){2,}\]"#@, None, bytes_of("Use `%i` or `%I` for symbol arrays"))
    }

    fn name(&self) -> (r: &str) {
        "Style/SymbolArray"
    }

    fn category(&self) -> (r: Category) {
        Category::Style
    }

    fn severity(&self) -> (r: Severity) {
        Severity::Convention
    }

    open spec fn spec_description(&self) -> Seq<char> {
        "Use %i or %I for symbol arrays"@
    }

    fn description(&self) -> (r: &str) {
        "Use %i or %I for symbol arrays"
    }

    fn check(&self, source: &SourceFile) -> (r: Vec<Offense>) {
        let fs = scan_matches_outside(source, r#"\[:\w+(,\s*:\w+){2,}\]"#, None, "Use `%i` or `%I` for symbol arrays");
        report(self.name(), self.severity(), fs)
    }
}

/// Avoid redundant quotes in symbols
pub struct SymbolLiteral;

impl Cop for SymbolLiteral {
    open spec fn spec_name(&self) -> Seq<char> {
        "Style/SymbolLiteral"@
    }

    open spec fn spec_category(&self) -> Category {
        Category::Style
    }

    open spec fn spec_severity(&self) -> Severity {
        Severity::Convention
    }

    open spec fn spec_check(&self, src: SourceView) -> Seq<FindingView> {
        matches_outside(src, r#":["']([a-zA-Z_]\w*)["']"#@, None, bytes_of("Avoid redundant quotes in symbols"))
    }

    fn name(&self) -> (r: &str) {
        "Style/SymbolLiteral"
    }

    fn category(&self) -> (r: Category) {
        Category::Style
    }

    fn severity(&self) -> (r: Severity) {
        Severity::Convention
    }

    open spec fn spec_description(&self) -> Seq<char> {
        "Avoid redundant quotes in symbols"@
    }

    fn description(&self) -> (r: &str) {
        "Avoid redundant quotes in symbols"
    }

    fn check(&self, source: &SourceFile) -> (r: Vec<Offense>) {
        let fs = scan_matches_outside(source, r#":["']([a-zA-Z_]\w*)["']"#, None, "Avoid redundant quotes in symbols");
        report(self.name(), self.severity(), fs)
    }
}

/// Do not use parentheses in ternary conditions
pub struct TernaryParentheses;

impl Cop for TernaryParentheses {
    open spec fn spec_name(&self) -> Seq<char> {
        "Style/TernaryParentheses"@
    }

    open spec fn spec_category(&self) -> Category {
        Category::Style
    }

    open spec fn spec_severity(&self) -> Severity {
        Severity::Convention
    }

    open spec fn spec_check(&self, src: SourceView) -> Seq<FindingView> {
        matches_outside(src, r#"\(\s*[^)]+\s*\)\s*\?"#@, None, bytes_of("Do not use parentheses in ternary conditions"))
    }

    fn name(&self) -> (r: &str) {
        "Style/TernaryParentheses"
    }

    fn category(&self) -> (r: Category) {
        Category::Style
    }

    fn severity(&self) -> (r: Severity) {
        Severity::Convention
    }

    open spec fn spec_description(&self) -> Seq<char> {
        "Do not use parentheses in ternary conditions"@
    }

    fn description(&self) -> (r: &str) {
        "Do not use parentheses in ternary conditions"
    }

    fn check(&self, source: &SourceFile) -> (r: Vec<Offense>) {
        let fs = scan_matches_outside(source, r#"\(\s*[^)]+\s*\)\s*\?"#, None, "Do not use parentheses in ternary conditions");
        report(self.name(), self.severity(), fs)
    }
}

/// The additional style cops, in the order `all_style_extra1_cops` returns
/// them, each by name, category and severity.
pub open spec fn style_extra1_cops(cops: Seq<Box<dyn Cop>>) -> bool {
    &&& cops.len() == 95
    &&& cop_at(cops, 0, "Style/AndOr"@, Category::Style, Severity::Convention)
    &&& cop_at(cops, 1, "Style/AsciiComments"@, Category::Style, Severity::Convention)
    &&& cop_at(cops, 2, "Style/Attr"@, Category::Style, Severity::Convention)
    &&& cop_at(cops, 3, "Style/BarePercentLiterals"@, Category::Style, Severity::Convention)
    &&& cop_at(cops, 4, "Style/BeginBlock"@, Category::Style, Severity::Convention)
    &&& cop_at(cops, 5, "Style/BlockComments"@, Category::Style, Severity::Convention)
    &&& cop_at(cops, 6, "Style/CaseEquality"@, Category::Style, Severity::Convention)
    &&& cop_at(cops, 7, "Style/CharacterLiteral"@, Category::Style, Severity::Convention)
    &&& cop_at(cops, 8, "Style/ClassCheck"@, Category::Style, Severity::Convention)
    &&& cop_at(cops, 9, "Style/ClassVars"@, Category::Style, Severity::Convention)
    &&& cop_at(cops, 10, "Style/ColonMethodCall"@, Category::Style, Severity::Convention)
    &&& cop_at(cops, 11, "Style/ColonMethodDefinition"@, Category::Style, Severity::Convention)
    &&& cop_at(cops, 12, "Style/CommandLiteral"@, Category::Style, Severity::Convention)
    &&& cop_at(cops, 13, "Style/CommentAnnotation"@, Category::Style, Severity::Convention)
    &&& cop_at(cops, 14, "Style/CommentedKeyword"@, Category::Style, Severity::Convention)
    &&& cop_at(cops, 15, "Style/Copyright"@, Category::Style, Severity::Convention)
    &&& cop_at(cops, 16, "Style/DateTime"@, Category::Style, Severity::Convention)
    &&& cop_at(cops, 17, "Style/DefWithParentheses"@, Category::Style, Severity::Convention)
    &&& cop_at(cops, 18, "Style/DoubleNegation"@, Category::Style, Severity::Convention)
    &&& cop_at(cops, 19, "Style/EachForSimpleLoop"@, Category::Style, Severity::Convention)
    &&& cop_at(cops, 20, "Style/EmptyBlockParameter"@, Category::Style, Severity::Convention)
    &&& cop_at(cops, 21, "Style/EmptyCaseCondition"@, Category::Style, Severity::Convention)
    &&& cop_at(cops, 22, "Style/EmptyElse"@, Category::Style, Severity::Convention)
    &&& cop_at(cops, 23, "Style/EmptyHeredoc"@, Category::Style, Severity::Convention)
    &&& cop_at(cops, 24, "Style/EmptyLambdaParameter"@, Category::Style, Severity::Convention)
    &&& cop_at(cops, 25, "Style/EmptyLiteral"@, Category::Style, Severity::Convention)
    &&& cop_at(cops, 26, "Style/Encoding"@, Category::Style, Severity::Convention)
    &&& cop_at(cops, 27, "Style/EndBlock"@, Category::Style, Severity::Convention)
    &&& cop_at(cops, 28, "Style/EvenOdd"@, Category::Style, Severity::Convention)
    &&& cop_at(cops, 29, "Style/For"@, Category::Style, Severity::Convention)
    &&& cop_at(cops, 30, "Style/FormatString"@, Category::Style, Severity::Convention)
    &&& cop_at(cops, 31, "Style/GlobalStdStream"@, Category::Style, Severity::Convention)
    &&& cop_at(cops, 32, "Style/GlobalVars"@, Category::Style, Severity::Convention)
    &&& cop_at(cops, 33, "Style/GuardClause"@, Category::Style, Severity::Convention)
    &&& cop_at(cops, 34, "Style/HashSyntax"@, Category::Style, Severity::Convention)
    &&& cop_at(cops, 35, "Style/IdenticalConditionalBranches"@, Category::Style, Severity::Convention)
    &&& cop_at(cops, 36, "Style/IfInsideElse"@, Category::Style, Severity::Convention)
    &&& cop_at(cops, 37, "Style/IfUnlessModifier"@, Category::Style, Severity::Convention)
    &&& cop_at(cops, 38, "Style/IfWithBooleanLiteralBranches"@, Category::Style, Severity::Convention)
    &&& cop_at(cops, 39, "Style/IfWithSemicolon"@, Category::Style, Severity::Convention)
    &&& cop_at(cops, 40, "Style/InfiniteLoop"@, Category::Style, Severity::Convention)
    &&& cop_at(cops, 41, "Style/InlineComment"@, Category::Style, Severity::Convention)
    &&& cop_at(cops, 42, "Style/Lambda"@, Category::Style, Severity::Convention)
    &&& cop_at(cops, 43, "Style/LambdaCall"@, Category::Style, Severity::Convention)
    &&& cop_at(cops, 44, "Style/MagicCommentFormat"@, Category::Style, Severity::Convention)
    &&& cop_at(cops, 45, "Style/MethodCallWithoutArgsParentheses"@, Category::Style, Severity::Convention)
    &&& cop_at(cops, 46, "Style/MethodDefParentheses"@, Category::Style, Severity::Convention)
    &&& cop_at(cops, 47, "Style/MixinUsage"@, Category::Style, Severity::Convention)
    &&& cop_at(cops, 48, "Style/MultilineIfThen"@, Category::Style, Severity::Convention)
    &&& cop_at(cops, 49, "Style/MultilineTernaryOperator"@, Category::Style, Severity::Convention)
    &&& cop_at(cops, 50, "Style/MultilineWhenThen"@, Category::Style, Severity::Convention)
    &&& cop_at(cops, 51, "Style/MutableConstant"@, Category::Style, Severity::Convention)
    &&& cop_at(cops, 52, "Style/NegatedUnless"@, Category::Style, Severity::Convention)
    &&& cop_at(cops, 53, "Style/NegatedWhile"@, Category::Style, Severity::Convention)
    &&& cop_at(cops, 54, "Style/NestedModifier"@, Category::Style, Severity::Convention)
    &&& cop_at(cops, 55, "Style/NestedTernaryOperator"@, Category::Style, Severity::Convention)
    &&& cop_at(cops, 56, "Style/Next"@, Category::Style, Severity::Convention)
    &&& cop_at(cops, 57, "Style/NilComparison"@, Category::Style, Severity::Convention)
    &&& cop_at(cops, 58, "Style/NonNilCheck"@, Category::Style, Severity::Convention)
    &&& cop_at(cops, 59, "Style/Not"@, Category::Style, Severity::Convention)
    &&& cop_at(cops, 60, "Style/NumericLiterals"@, Category::Style, Severity::Convention)
    &&& cop_at(cops, 61, "Style/NumericLiteralPrefix"@, Category::Style, Severity::Convention)
    &&& cop_at(cops, 62, "Style/NumericPredicate"@, Category::Style, Severity::Convention)
    &&& cop_at(cops, 63, "Style/OneLineConditional"@, Category::Style, Severity::Convention)
    &&& cop_at(cops, 64, "Style/OptionalBooleanParameter"@, Category::Style, Severity::Convention)
    &&& cop_at(cops, 65, "Style/OrAssignment"@, Category::Style, Severity::Convention)
    &&& cop_at(cops, 66, "Style/ParenthesesAroundCondition"@, Category::Style, Severity::Convention)
    &&& cop_at(cops, 67, "Style/PercentLiteralDelimiters"@, Category::Style, Severity::Convention)
    &&& cop_at(cops, 68, "Style/PercentQLiterals"@, Category::Style, Severity::Convention)
    &&& cop_at(cops, 69, "Style/PerlBackrefs"@, Category::Style, Severity::Convention)
    &&& cop_at(cops, 70, "Style/Proc"@, Category::Style, Severity::Convention)
    &&& cop_at(cops, 71, "Style/RaiseArgs"@, Category::Style, Severity::Convention)
    &&& cop_at(cops, 72, "Style/RedundantBegin"@, Category::Style, Severity::Convention)
    &&& cop_at(cops, 73, "Style/RedundantException"@, Category::Style, Severity::Convention)
    &&& cop_at(cops, 74, "Style/RedundantFreeze"@, Category::Style, Severity::Convention)
    &&& cop_at(cops, 75, "Style/RedundantInterpolation"@, Category::Style, Severity::Convention)
    &&& cop_at(cops, 76, "Style/RedundantParentheses"@, Category::Style, Severity::Convention)
    &&& cop_at(cops, 77, "Style/RedundantPercentQ"@, Category::Style, Severity::Convention)
    &&& cop_at(cops, 78, "Style/RedundantSelf"@, Category::Style, Severity::Convention)
    &&& cop_at(cops, 79, "Style/RegexpLiteral"@, Category::Style, Severity::Convention)
    &&& cop_at(cops, 80, "Style/RescueModifier"@, Category::Style, Severity::Convention)
    &&& cop_at(cops, 81, "Style/RescueStandardError"@, Category::Style, Severity::Convention)
    &&& cop_at(cops, 82, "Style/SafeNavigation"@, Category::Style, Severity::Convention)
    &&& cop_at(cops, 83, "Style/SelfAssignment"@, Category::Style, Severity::Convention)
    &&& cop_at(cops, 84, "Style/Semicolon"@, Category::Style, Severity::Convention)
    &&& cop_at(cops, 85, "Style/Send"@, Category::Style, Severity::Convention)
    &&& cop_at(cops, 86, "Style/SignalException"@, Category::Style, Severity::Convention)
    &&& cop_at(cops, 87, "Style/SingleLineMethods"@, Category::Style, Severity::Convention)
    &&& cop_at(cops, 88, "Style/SpecialGlobalVars"@, Category::Style, Severity::Convention)
    &&& cop_at(cops, 89, "Style/StderrPuts"@, Category::Style, Severity::Convention)
    &&& cop_at(cops, 90, "Style/StringConcatenation"@, Category::Style, Severity::Convention)
    &&& cop_at(cops, 91, "Style/StructInheritance"@, Category::Style, Severity::Convention)
    &&& cop_at(cops, 92, "Style/SymbolArray"@, Category::Style, Severity::Convention)
    &&& cop_at(cops, 93, "Style/SymbolLiteral"@, Category::Style, Severity::Convention)
    &&& cop_at(cops, 94, "Style/TernaryParentheses"@, Category::Style, Severity::Convention)
}

/// Returns all cops of this module as trait objects.
pub fn all_style_extra1_cops() -> (r: Vec<Box<dyn Cop>>)
    ensures
        style_extra1_cops(r@),
{
    let v: Vec<Box<dyn Cop>> = vec![
        Box::new(AndOr),
        Box::new(AsciiComments),
        Box::new(Attr),
        Box::new(BarePercentLiterals),
        Box::new(BeginBlock),
        Box::new(BlockComments),
        Box::new(CaseEquality),
        Box::new(CharacterLiteral),
        Box::new(ClassCheck),
        Box::new(ClassVars),
        Box::new(ColonMethodCall),
        Box::new(ColonMethodDefinition),
        Box::new(CommandLiteral),
        Box::new(CommentAnnotation),
        Box::new(CommentedKeyword),
        Box::new(Copyright),
        Box::new(DateTime),
        Box::new(DefWithParentheses),
        Box::new(DoubleNegation),
        Box::new(EachForSimpleLoop),
        Box::new(EmptyBlockParameter),
        Box::new(EmptyCaseCondition),
        Box::new(EmptyElse),
        Box::new(EmptyHeredoc),
        Box::new(EmptyLambdaParameter),
        Box::new(EmptyLiteral),
        Box::new(Encoding),
        Box::new(EndBlock),
        Box::new(EvenOdd),
        Box::new(For),
        Box::new(FormatString),
        Box::new(GlobalStdStream),
        Box::new(GlobalVars),
        Box::new(GuardClause),
        Box::new(HashSyntax),
        Box::new(IdenticalConditionalBranches),
        Box::new(IfInsideElse),
        Box::new(IfUnlessModifier),
        Box::new(IfWithBooleanLiteralBranches),
        Box::new(IfWithSemicolon),
        Box::new(InfiniteLoop),
        Box::new(InlineComment),
        Box::new(Lambda),
        Box::new(LambdaCall),
        Box::new(MagicCommentFormat),
        Box::new(MethodCallWithoutArgsParentheses),
        Box::new(MethodDefParentheses),
        Box::new(MixinUsage),
        Box::new(MultilineIfThen),
        Box::new(MultilineTernaryOperator),
        Box::new(MultilineWhenThen),
        Box::new(MutableConstant),
        Box::new(NegatedUnless),
        Box::new(NegatedWhile),
        Box::new(NestedModifier),
        Box::new(NestedTernaryOperator),
        Box::new(Next),
        Box::new(NilComparison),
        Box::new(NonNilCheck),
        Box::new(Not),
        Box::new(NumericLiterals),
        Box::new(NumericLiteralPrefix),
        Box::new(NumericPredicate),
        Box::new(OneLineConditional),
        Box::new(OptionalBooleanParameter),
        Box::new(OrAssignment),
        Box::new(ParenthesesAroundCondition),
        Box::new(PercentLiteralDelimiters),
        Box::new(PercentQLiterals),
        Box::new(PerlBackrefs),
        Box::new(Proc),
        Box::new(RaiseArgs),
        Box::new(RedundantBegin),
        Box::new(RedundantException),
        Box::new(RedundantFreeze),
        Box::new(RedundantInterpolation),
        Box::new(RedundantParentheses),
        Box::new(RedundantPercentQ),
        Box::new(RedundantSelf),
        Box::new(RegexpLiteral),
        Box::new(RescueModifier),
        Box::new(RescueStandardError),
        Box::new(SafeNavigation),
        Box::new(SelfAssignment),
        Box::new(Semicolon),
        Box::new(Send),
        Box::new(SignalException),
        Box::new(SingleLineMethods),
        Box::new(SpecialGlobalVars),
        Box::new(StderrPuts),
        Box::new(StringConcatenation),
        Box::new(StructInheritance),
        Box::new(SymbolArray),
        Box::new(SymbolLiteral),
        Box::new(TernaryParentheses),
    ];
    v
}

} // verus!
