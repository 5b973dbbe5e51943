//! Naming convention cops for Ruby code.
//!
//! These cops enforce Ruby naming conventions:
//! - Methods: snake_case
//! - Variables: snake_case
//! - Constants: SCREAMING_SNAKE_CASE
//! - Classes/Modules: PascalCase

use vstd::prelude::*;

use crate::cop::{Category, Cop, Severity};
use crate::offense::{Finding, FindingView, Message, Offense, finding, finding_views, report};
use crate::pattern::{
    captures_all, first_match, first_match_exec, group, group_exec, groups_view, is_match, is_match_exec,
    match_wf, matches_wf, regex_captures, spans_view,
};
use crate::rule::{LineRule, MatchRule, all_lines, all_matches, append_findings, gather, one_if, push_if, run_lines, run_matches};
use crate::source::{SourceFile, SourceView, fits};
use crate::text::{bytes_of, char_count, is_upper};
use crate::text::{char_count_exec, eq_str};

verus! {

/// A named finding for the group `g` on line `i`, reported at the group's
/// character column: `pre + name + post`, unless the group starts inside a
/// string or comment, or `valid` accepts the name.
pub open spec fn name_finding(src: SourceView, i: int, g: (int, int), valid: bool, pre: Seq<u8>, post: Seq<u8>) -> Seq<FindingView> {
    let l = src.lines[i];
    let nm = l.subrange(g.0, g.1);
    let col = (char_count(l.take(g.0)) + 1) as int;
    one_if(
        !src.in_string_or_comment(i + 1, g.0 + 1) && !valid,
        finding(i + 1, col, nm.len() as int, pre + nm + post),
    )
}

fn name_finding_exec(src: &SourceFile, i: usize, g: (usize, usize), valid: bool, pre: &str, post: &str) -> (r: Vec<Finding>)
    requires
        i < src@.lines.len(),
        g.0 <= g.1 <= src@.lines[i as int].len(),
    ensures
        finding_views(r@) == name_finding(src@, i as int, (g.0 as int, g.1 as int), valid, bytes_of(pre), bytes_of(post)),
{
    let l = src.line_at(i);
    let nm = &l[g.0..g.1];
    let col = char_count_exec(&l[0..g.0]) + 1;
    let hit = !src.in_string_or_comment(i + 1, g.0 + 1) && !valid;
    let mut msg = Message::from_str(pre);
    msg.push_bytes(nm);
    msg.push_str(post);
    let mut out: Vec<Finding> = Vec::new();
    push_if(&mut out, hit, Finding::new(i + 1, col, nm.len(), msg));
    out
}

/// An operator method name, always valid.
pub open spec fn special_method(nm: Seq<u8>) -> bool {
    nm == bytes_of("[]") || nm == bytes_of("[]=") || nm == bytes_of("<=>") || nm == bytes_of("<<") || nm == bytes_of(">>") || nm == bytes_of("==") || nm == bytes_of("!=") || nm == bytes_of("<=") || nm == bytes_of(">=") || nm == bytes_of("+") || nm == bytes_of("-") || nm == bytes_of("*") || nm == bytes_of("/") || nm == bytes_of("%") || nm == bytes_of("**") || nm == bytes_of("|") || nm == bytes_of("&") || nm == bytes_of("^") || nm == bytes_of("~") || nm == bytes_of("!") || nm == bytes_of("<") || nm == bytes_of(">")
}

fn special_method_exec(nm: &[u8]) -> (r: bool)
    ensures
        r == special_method(nm@),
{
    eq_str(nm, "[]") || eq_str(nm, "[]=") || eq_str(nm, "<=>") || eq_str(nm, "<<") || eq_str(nm, ">>") || eq_str(nm, "==") || eq_str(nm, "!=") || eq_str(nm, "<=") || eq_str(nm, ">=") || eq_str(nm, "+") || eq_str(nm, "-") || eq_str(nm, "*") || eq_str(nm, "/") || eq_str(nm, "%") || eq_str(nm, "**") || eq_str(nm, "|") || eq_str(nm, "&") || eq_str(nm, "^") || eq_str(nm, "~") || eq_str(nm, "!") || eq_str(nm, "<") || eq_str(nm, ">")
}

impl LineRule for MethodName {
    /// The name of a method definition, unless an operator or snake_case.
    open spec fn spec_line(&self, src: SourceView, i: int) -> Seq<FindingView> {
        let l = src.lines[i];
        match first_match(r"^\s*def\s+(?:self\.)?([a-zA-Z_][a-zA-Z0-9_]*[?!=]?|\[\]=?|<=>|<<|>>|==|!=|<=|>=|\+|-|\*|/|%|\*\*|\||&|\^|~|!|<|>)"@, l) {
            Some(m) => match group(m, 1) {
                Some(g) => {
                    let nm = l.subrange(g.0, g.1);
                    name_finding(
                        src,
                        i,
                        g,
                        special_method(nm) || is_match(r"^[a-z_][a-z0-9_]*[?!=]?$"@, nm),
                        bytes_of("Method name `"),
                        bytes_of("` should use snake_case"),
                    )
                },
                None => seq![],
            },
            None => seq![],
        }
    }

    fn line_findings(&self, src: &SourceFile, i: usize) -> (r: Vec<Finding>) {
        let l = src.line_at(i);
        match first_match_exec(r"^\s*def\s+(?:self\.)?([a-zA-Z_][a-zA-Z0-9_]*[?!=]?|\[\]=?|<=>|<<|>>|==|!=|<=|>=|\+|-|\*|/|%|\*\*|\||&|\^|~|!|<|>)", l) {
            Some(m) => {
                match group_exec(&m, 1) {
                    Some(g) => {
                        assert(groups_view(m@)[1] == Some((g.0 as int, g.1 as int)));
                        let nm = &l[g.0..g.1];
                        let valid = special_method_exec(nm) || is_match_exec(r"^[a-z_][a-z0-9_]*[?!=]?$", nm);
                        name_finding_exec(src, i, g, valid, "Method name `", "` should use snake_case")
                    },
                    None => Vec::new(),
                }
            },
            None => Vec::new(),
        }
    }
}

/// Checks that method names use snake_case; operator methods are always valid.
pub struct MethodName;

impl Cop for MethodName {
    open spec fn spec_name(&self) -> Seq<char> {
        "Naming/MethodName"@
    }

    open spec fn spec_category(&self) -> Category {
        Category::Naming
    }

    open spec fn spec_severity(&self) -> Severity {
        Severity::Convention
    }

    open spec fn spec_check(&self, src: SourceView) -> Seq<FindingView> {
        all_lines(self, src)
    }

    fn name(&self) -> (r: &str) {
        "Naming/MethodName"
    }

    fn category(&self) -> (r: Category) {
        Category::Naming
    }

    fn severity(&self) -> (r: Severity) {
        Severity::Convention
    }

    open spec fn spec_description(&self) -> Seq<char> {
        "Method names should use snake_case"@
    }

    fn description(&self) -> (r: &str) {
        "Method names should use snake_case"
    }

    fn check(&self, source: &SourceFile) -> (r: Vec<Offense>) {
        report(self.name(), self.severity(), run_lines(self, source))
    }
}

/// An assignment target that is not a constant, instance, global or class
/// variable, and whose name is not snake_case.
pub open spec fn variable_match(src: SourceView, i: int, m: Seq<Option<(int, int)>>) -> Seq<FindingView> {
    let l = src.lines[i];
    match group(m, 1) {
        Some(g) => {
            let nm = l.subrange(g.0, g.1);
            let skip = (nm.len() > 0 && is_upper(nm[0])) || (g.0 >= 1 && (l[g.0 - 1] == 64u8 || l[g.0 - 1] == 36u8)) || (
            g.0 >= 2 && l[g.0 - 2] == 64u8 && l[g.0 - 1] == 64u8);
            if skip {
                seq![]
            } else {
                name_finding(
                    src,
                    i,
                    g,
                    is_match(r"^[a-z_][a-z0-9_]*$"@, nm),
                    bytes_of("Variable name `"),
                    bytes_of("` should use snake_case"),
                )
            }
        },
        None => seq![],
    }
}

impl MatchRule for VariableName {
    open spec fn spec_match(&self, src: SourceView, i: int, m: Seq<Option<(int, int)>>) -> Seq<FindingView> {
        variable_match(src, i, m)
    }

    fn match_findings(&self, src: &SourceFile, i: usize, m: &Vec<Option<(usize, usize)>>) -> (r: Vec<Finding>) {
        let l = src.line_at(i);
        match group_exec(m, 1) {
            Some(g) => {
                assert(groups_view(m@)[1] == Some((g.0 as int, g.1 as int)));
                let nm = &l[g.0..g.1];
                let skip = (nm.len() > 0 && 65u8 <= nm[0] && nm[0] <= 90u8) || (g.0 >= 1 && (l[g.0 - 1] == 64u8
                    || l[g.0 - 1] == 36u8)) || (g.0 >= 2 && l[g.0 - 2] == 64u8 && l[g.0 - 1] == 64u8);
                if skip {
                    Vec::new()
                } else {
                    let valid = is_match_exec(r"^[a-z_][a-z0-9_]*$", nm);
                    name_finding_exec(src, i, g, valid, "Variable name `", "` should use snake_case")
                }
            },
            None => Vec::new(),
        }
    }
}

impl LineRule for VariableName {
    open spec fn spec_line(&self, src: SourceView, i: int) -> Seq<FindingView> {
        all_matches(self, src, i, regex_captures(r"([a-zA-Z_][a-zA-Z0-9_]*)\s*=[^=>~!]"@, src.lines[i]))
    }

    fn line_findings(&self, src: &SourceFile, i: usize) -> (r: Vec<Finding>) {
        let ms = captures_all(r"([a-zA-Z_][a-zA-Z0-9_]*)\s*=[^=>~!]", src.line_at(i));
        run_matches(self, src, i, &ms)
    }
}

/// Checks that local variable names use snake_case.
pub struct VariableName;

impl Cop for VariableName {
    open spec fn spec_name(&self) -> Seq<char> {
        "Naming/VariableName"@
    }

    open spec fn spec_category(&self) -> Category {
        Category::Naming
    }

    open spec fn spec_severity(&self) -> Severity {
        Severity::Convention
    }

    open spec fn spec_check(&self, src: SourceView) -> Seq<FindingView> {
        all_lines(self, src)
    }

    fn name(&self) -> (r: &str) {
        "Naming/VariableName"
    }

    fn category(&self) -> (r: Category) {
        Category::Naming
    }

    fn severity(&self) -> (r: Severity) {
        Severity::Convention
    }

    open spec fn spec_description(&self) -> Seq<char> {
        "Variable names should use snake_case"@
    }

    fn description(&self) -> (r: &str) {
        "Variable names should use snake_case"
    }

    fn check(&self, source: &SourceFile) -> (r: Vec<Offense>) {
        report(self.name(), self.severity(), run_lines(self, source))
    }
}

/// A class or module name on line `i` that is not PascalCase.
pub open spec fn class_name_at(src: SourceView, i: int) -> Seq<FindingView> {
    let l = src.lines[i];
    match first_match(r"^\s*(class|module)\s+([a-zA-Z_][a-zA-Z0-9_]*)"@, l) {
        Some(m) => match group(m, 2) {
            Some(g) => name_finding(
                src,
                i,
                g,
                is_match(r"^[A-Z][a-zA-Z0-9]*$"@, l.subrange(g.0, g.1)),
                bytes_of("Class/Module name `"),
                bytes_of("` should use PascalCase"),
            ),
            None => seq![],
        },
        None => seq![],
    }
}

/// A constant assignment that is not SCREAMING_SNAKE_CASE, on a line that is
/// not a class or module definition.
pub open spec fn constant_match(src: SourceView, i: int, m: Seq<Option<(int, int)>>) -> Seq<FindingView> {
    let l = src.lines[i];
    match group(m, 1) {
        Some(g) => {
            if !src.in_string_or_comment(i + 1, g.0 + 1) && is_match(r"^\s*(class|module)\s+([a-zA-Z_][a-zA-Z0-9_]*)"@, l) {
                seq![]
            } else {
                name_finding(
                    src,
                    i,
                    g,
                    is_match(r"^[A-Z][A-Z0-9_]*$"@, l.subrange(g.0, g.1)),
                    bytes_of("Constant name `"),
                    bytes_of("` should use SCREAMING_SNAKE_CASE"),
                )
            }
        },
        None => seq![],
    }
}

impl MatchRule for ConstantName {
    open spec fn spec_match(&self, src: SourceView, i: int, m: Seq<Option<(int, int)>>) -> Seq<FindingView> {
        constant_match(src, i, m)
    }

    fn match_findings(&self, src: &SourceFile, i: usize, m: &Vec<Option<(usize, usize)>>) -> (r: Vec<Finding>) {
        let l = src.line_at(i);
        match group_exec(m, 1) {
            Some(g) => {
                assert(groups_view(m@)[1] == Some((g.0 as int, g.1 as int)));
                if !src.in_string_or_comment(i + 1, g.0 + 1) && is_match_exec(r"^\s*(class|module)\s+([a-zA-Z_][a-zA-Z0-9_]*)", l) {
                    Vec::new()
                } else {
                    let valid = is_match_exec(r"^[A-Z][A-Z0-9_]*$", &l[g.0..g.1]);
                    name_finding_exec(src, i, g, valid, "Constant name `", "` should use SCREAMING_SNAKE_CASE")
                }
            },
            None => Vec::new(),
        }
    }
}

impl LineRule for ConstantName {
    open spec fn spec_line(&self, src: SourceView, i: int) -> Seq<FindingView> {
        class_name_at(src, i) + all_matches(self, src, i, regex_captures(r"(?:^|[^a-zA-Z0-9_])([A-Z][a-zA-Z0-9_]*)\s*=[^=>~!]"@, src.lines[i]))
    }

    fn line_findings(&self, src: &SourceFile, i: usize) -> (r: Vec<Finding>) {
        let l = src.line_at(i);
        let mut out: Vec<Finding> = Vec::new();
        match first_match_exec(r"^\s*(class|module)\s+([a-zA-Z_][a-zA-Z0-9_]*)", l) {
            Some(m) => {
                match group_exec(&m, 2) {
                    Some(g) => {
                        assert(groups_view(m@)[2] == Some((g.0 as int, g.1 as int)));
                        let valid = is_match_exec(r"^[A-Z][a-zA-Z0-9]*$", &l[g.0..g.1]);
                        out = name_finding_exec(src, i, g, valid, "Class/Module name `", "` should use PascalCase");
                    },
                    None => {},
                }
            },
            None => {},
        }
        let ms = captures_all(r"(?:^|[^a-zA-Z0-9_])([A-Z][a-zA-Z0-9_]*)\s*=[^=>~!]", l);
        let more = run_matches(self, src, i, &ms);
        append_findings(&mut out, more);
        out
    }
}

/// Checks that constants use SCREAMING_SNAKE_CASE and classes/modules use PascalCase.
pub struct ConstantName;

impl Cop for ConstantName {
    open spec fn spec_name(&self) -> Seq<char> {
        "Naming/ConstantName"@
    }

    open spec fn spec_category(&self) -> Category {
        Category::Naming
    }

    open spec fn spec_severity(&self) -> Severity {
        Severity::Convention
    }

    open spec fn spec_check(&self, src: SourceView) -> Seq<FindingView> {
        all_lines(self, src)
    }

    fn name(&self) -> (r: &str) {
        "Naming/ConstantName"
    }

    fn category(&self) -> (r: Category) {
        Category::Naming
    }

    fn severity(&self) -> (r: Severity) {
        Severity::Convention
    }

    open spec fn spec_description(&self) -> Seq<char> {
        "Constants should use SCREAMING_SNAKE_CASE; classes and modules should use PascalCase"@
    }

    fn description(&self) -> (r: &str) {
        "Constants should use SCREAMING_SNAKE_CASE; classes and modules should use PascalCase"
    }

    fn check(&self, source: &SourceFile) -> (r: Vec<Offense>) {
        report(self.name(), self.severity(), run_lines(self, source))
    }
}

} // verus!
