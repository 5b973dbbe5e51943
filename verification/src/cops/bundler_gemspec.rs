//! Bundler and Gemspec cops for Gemfile and gemspec file conventions.

use vstd::prelude::*;

use crate::cop::{Category, Cop, Severity, cop_at};
use crate::offense::{Finding, FindingView, Message, Offense, finding, finding_views, report};
use crate::pattern::{first_match, first_match_exec, group_exec, groups_view, whole, whole_exec};
use crate::rule::{LineRule, all_lines, append_findings, gather, one_if, push_if, run_lines};
use crate::scan::{
    duplicates, firsts_outside, group_text, len_view, scan_duplicates, scan_firsts_outside,
    some_line_matches, some_line_matches_exec,
};
use crate::source::{SourceFile, SourceView, fits};
use crate::text::{
    bytes_of, contains, ends_with, has_byte, seq_lt, starts_with, starts_with_ci, trim, trim_start,
};
use crate::text::{
    bytes_eq, contains_str, ends_with_str, eq_str, has_byte_exec, seq_lt_exec, starts_with_ci_exec,
    starts_with_str, trim_exec, trim_start_exec,
};

verus! {

// ==================== BUNDLER COPS ====================

/// Detects duplicate gem declarations in Gemfile: a gem declared again is reported with the line of its first declaration.
pub struct DuplicatedGem;

impl Cop for DuplicatedGem {
    open spec fn spec_name(&self) -> Seq<char> {
        "Bundler/DuplicatedGem"@
    }

    open spec fn spec_category(&self) -> Category {
        Category::Style
    }

    open spec fn spec_severity(&self) -> Severity {
        Severity::Convention
    }

    open spec fn spec_check(&self, src: SourceView) -> Seq<FindingView> {
        duplicates(src, r#"^\s*gem\s+['"]([^'"]+)['"]"#@, bytes_of("Gem '"), bytes_of("' is declared multiple times (first seen on line "), false)
    }

    fn name(&self) -> (r: &str) {
        "Bundler/DuplicatedGem"
    }

    fn category(&self) -> (r: Category) {
        Category::Style
    }

    fn severity(&self) -> (r: Severity) {
        Severity::Convention
    }

    open spec fn spec_description(&self) -> Seq<char> {
        "Detects duplicate gem declarations in Gemfile"@
    }

    fn description(&self) -> (r: &str) {
        "Detects duplicate gem declarations in Gemfile"
    }

    fn check(&self, source: &SourceFile) -> (r: Vec<Offense>) {
        let fs = scan_duplicates(source, r#"^\s*gem\s+['"]([^'"]+)['"]"#, "Gem '", "' is declared multiple times (first seen on line ", false);
        report(self.name(), self.severity(), fs)
    }
}

/// Detects duplicate group declarations in Gemfile.
pub struct DuplicatedGroup;

impl Cop for DuplicatedGroup {
    open spec fn spec_name(&self) -> Seq<char> {
        "Bundler/DuplicatedGroup"@
    }

    open spec fn spec_category(&self) -> Category {
        Category::Style
    }

    open spec fn spec_severity(&self) -> Severity {
        Severity::Convention
    }

    open spec fn spec_check(&self, src: SourceView) -> Seq<FindingView> {
        duplicates(src, r#"^\s*group\s+:([a-z_]+)"#@, bytes_of("Group '"), bytes_of("' is declared multiple times (first seen on line "), false)
    }

    fn name(&self) -> (r: &str) {
        "Bundler/DuplicatedGroup"
    }

    fn category(&self) -> (r: Category) {
        Category::Style
    }

    fn severity(&self) -> (r: Severity) {
        Severity::Convention
    }

    open spec fn spec_description(&self) -> Seq<char> {
        "Detects duplicate group declarations in Gemfile"@
    }

    fn description(&self) -> (r: &str) {
        "Detects duplicate group declarations in Gemfile"
    }

    fn check(&self, source: &SourceFile) -> (r: Vec<Offense>) {
        let fs = scan_duplicates(source, r#"^\s*group\s+:([a-z_]+)"#, "Group '", "' is declared multiple times (first seen on line ", false);
        report(self.name(), self.severity(), fs)
    }
}

/// A gem declaration with no comment on the line before or on its own line.
pub open spec fn gem_comment_at(src: SourceView, j: int) -> Seq<FindingView> {
    let l = src.lines[j];
    match first_match(r#"^\s*gem\s+['"]"#@, l) {
        Some(m) => {
            let has_comment = j >= 1 && starts_with(trim(src.lines[j - 1]), bytes_of("#"));
            one_if(
                !has_comment && !has_byte(l, 35u8),
                finding(j + 1, whole(m).0 + 1, 3, bytes_of("Missing gem description comment")),
            )
        },
        None => seq![],
    }
}

impl LineRule for GemComment {
    open spec fn spec_line(&self, src: SourceView, i: int) -> Seq<FindingView> {
        gem_comment_at(src, i)
    }

    fn line_findings(&self, src: &SourceFile, i: usize) -> (r: Vec<Finding>) {
        let l = src.line_at(i);
        let mut out: Vec<Finding> = Vec::new();
        match first_match_exec(r#"^\s*gem\s+['"]"#, l) {
            Some(m) => {
                let has_comment = i >= 1 && starts_with_str(trim_exec(src.line_at(i - 1)), "#");
                let (s, e) = whole_exec(&m, l.len());
                push_if(
                    &mut out,
                    !has_comment && !has_byte_exec(l, 35u8),
                    Finding::text(i + 1, s + 1, 3, "Missing gem description comment"),
                );
            },
            None => {},
        }
        out
    }
}

/// Checks that gems in Gemfile have explanatory comments.
pub struct GemComment;

impl Cop for GemComment {
    open spec fn spec_name(&self) -> Seq<char> {
        "Bundler/GemComment"@
    }

    open spec fn spec_category(&self) -> Category {
        Category::Style
    }

    open spec fn spec_severity(&self) -> Severity {
        Severity::Convention
    }

    open spec fn spec_check(&self, src: SourceView) -> Seq<FindingView> {
        all_lines(self, src)
    }

    fn name(&self) -> (r: &str) {
        "Bundler/GemComment"
    }

    fn category(&self) -> (r: Category) {
        Category::Style
    }

    fn severity(&self) -> (r: Severity) {
        Severity::Convention
    }

    open spec fn spec_description(&self) -> Seq<char> {
        "Checks that gems have explanatory comments"@
    }

    fn description(&self) -> (r: &str) {
        "Checks that gems have explanatory comments"
    }

    fn check(&self, source: &SourceFile) -> (r: Vec<Offense>) {
        report(self.name(), self.severity(), run_lines(self, source))
    }
}

/// A file named like `gemfile` in any case, other than `Gemfile` and `Gemfile.*`.
pub open spec fn gem_filename(src: SourceView) -> Seq<FindingView> {
    match src.file_name {
        Some(nm) => one_if(
            starts_with_ci(nm, bytes_of("gemfile")) && nm != bytes_of("Gemfile") && !starts_with(nm, bytes_of("Gemfile.")),
            finding(1, 1, 1, bytes_of("Gemfile should be named 'Gemfile', not '") + nm + bytes_of("'")),
        ),
        None => seq![],
    }
}

/// Checks Gemfile naming convention: the file is named "Gemfile", not "gemfile" or another variant.
pub struct GemFilename;

impl Cop for GemFilename {
    open spec fn spec_name(&self) -> Seq<char> {
        "Bundler/GemFilename"@
    }

    open spec fn spec_category(&self) -> Category {
        Category::Style
    }

    open spec fn spec_severity(&self) -> Severity {
        Severity::Convention
    }

    open spec fn spec_check(&self, src: SourceView) -> Seq<FindingView> {
        gem_filename(src)
    }

    fn name(&self) -> (r: &str) {
        "Bundler/GemFilename"
    }

    fn category(&self) -> (r: Category) {
        Category::Style
    }

    fn severity(&self) -> (r: Severity) {
        Severity::Convention
    }

    open spec fn spec_description(&self) -> Seq<char> {
        "Checks Gemfile naming convention"@
    }

    fn description(&self) -> (r: &str) {
        "Checks Gemfile naming convention"
    }

    fn check(&self, source: &SourceFile) -> (r: Vec<Offense>) {
        let mut out: Vec<Finding> = Vec::new();
        match source.file_name() {
            Some(nm) => {
                let bad = starts_with_ci_exec(nm, "gemfile") && !eq_str(nm, "Gemfile") && !starts_with_str(nm, "Gemfile.");
                let mut msg = Message::from_str("Gemfile should be named 'Gemfile', not '");
                msg.push_bytes(nm);
                msg.push_str("'");
                push_if(&mut out, bad, Finding::new(1, 1, 1, msg));
            },
            None => {},
        }
        report(self.name(), self.severity(), out)
    }
}

/// A gem declaration with nothing after the gem name.
pub open spec fn gem_version_at(src: SourceView, j: int) -> Seq<FindingView> {
    let l = src.lines[j];
    match first_match(r#"^\s*gem\s+['"]([^'"]+)['"]\s*$"#@, l) {
        Some(m) => match group_text(l, m, 1) {
            Some(nm) => seq![
                finding(
                    j + 1,
                    whole(m).0 + 1,
                    trim(l).len() as int,
                    bytes_of("Gem '") + nm + bytes_of("' should have a version constraint"),
                ),
            ],
            None => seq![],
        },
        None => seq![],
    }
}

impl LineRule for GemVersion {
    open spec fn spec_line(&self, src: SourceView, i: int) -> Seq<FindingView> {
        gem_version_at(src, i)
    }

    fn line_findings(&self, src: &SourceFile, i: usize) -> (r: Vec<Finding>) {
        let l = src.line_at(i);
        let mut out: Vec<Finding> = Vec::new();
        match first_match_exec(r#"^\s*gem\s+['"]([^'"]+)['"]\s*$"#, l) {
            Some(m) => {
                match group_exec(&m, 1) {
                    Some(g) => {
                        assert(groups_view(m@)[1] == Some((g.0 as int, g.1 as int)));
                        let (s, e) = whole_exec(&m, l.len());
                        let mut msg = Message::from_str("Gem '");
                        msg.push_bytes(&l[g.0..g.1]);
                        msg.push_str("' should have a version constraint");
                        push_if(&mut out, true, Finding::new(i + 1, s + 1, trim_exec(l).len(), msg));
                    },
                    None => {},
                }
            },
            None => {},
        }
        out
    }
}

/// Checks for gem version specifications.
pub struct GemVersion;

impl Cop for GemVersion {
    open spec fn spec_name(&self) -> Seq<char> {
        "Bundler/GemVersion"@
    }

    open spec fn spec_category(&self) -> Category {
        Category::Style
    }

    open spec fn spec_severity(&self) -> Severity {
        Severity::Convention
    }

    open spec fn spec_check(&self, src: SourceView) -> Seq<FindingView> {
        all_lines(self, src)
    }

    fn name(&self) -> (r: &str) {
        "Bundler/GemVersion"
    }

    fn category(&self) -> (r: Category) {
        Category::Style
    }

    fn severity(&self) -> (r: Severity) {
        Severity::Convention
    }

    open spec fn spec_description(&self) -> Seq<char> {
        "Checks for gem version specifications"@
    }

    fn description(&self) -> (r: &str) {
        "Checks for gem version specifications"
    }

    fn check(&self, source: &SourceFile) -> (r: Vec<Offense>) {
        report(self.name(), self.severity(), run_lines(self, source))
    }
}

/// A `source` or `git` line with an `http://` URL in quotes.
pub open spec fn insecure_source_at(src: SourceView, j: int) -> Seq<FindingView> {
    let l = src.lines[j];
    if (contains(l, bytes_of("source")) || contains(l, bytes_of("git"))) && contains(l, bytes_of("http://")) {
        match first_match(r#"['"]http://[^'"]*['"]"#@, l) {
            Some(m) => seq![
                finding(
                    j + 1,
                    whole(m).0 + 1,
                    whole(m).1 - whole(m).0,
                    bytes_of("Use https:// instead of insecure http:// for gem sources"),
                ),
            ],
            None => seq![],
        }
    } else {
        seq![]
    }
}

impl LineRule for InsecureProtocolSource {
    open spec fn spec_line(&self, src: SourceView, i: int) -> Seq<FindingView> {
        insecure_source_at(src, i)
    }

    fn line_findings(&self, src: &SourceFile, i: usize) -> (r: Vec<Finding>) {
        let l = src.line_at(i);
        let mut out: Vec<Finding> = Vec::new();
        if (contains_str(l, "source") || contains_str(l, "git")) && contains_str(l, "http://") {
            match first_match_exec(r#"['"]http://[^'"]*['"]"#, l) {
                Some(m) => {
                    let (s, e) = whole_exec(&m, l.len());
                    push_if(
                        &mut out,
                        true,
                        Finding::text(i + 1, s + 1, e - s, "Use https:// instead of insecure http:// for gem sources"),
                    );
                },
                None => {},
            }
        }
        out
    }
}

/// Detects insecure protocol sources in Gemfile: http:// sources, where https:// is recommended.
pub struct InsecureProtocolSource;

impl Cop for InsecureProtocolSource {
    open spec fn spec_name(&self) -> Seq<char> {
        "Bundler/InsecureProtocolSource"@
    }

    open spec fn spec_category(&self) -> Category {
        Category::Style
    }

    open spec fn spec_severity(&self) -> Severity {
        Severity::Convention
    }

    open spec fn spec_check(&self, src: SourceView) -> Seq<FindingView> {
        all_lines(self, src)
    }

    fn name(&self) -> (r: &str) {
        "Bundler/InsecureProtocolSource"
    }

    fn category(&self) -> (r: Category) {
        Category::Style
    }

    fn severity(&self) -> (r: Severity) {
        Severity::Convention
    }

    open spec fn spec_description(&self) -> Seq<char> {
        "Detects insecure protocol sources in Gemfile"@
    }

    fn description(&self) -> (r: &str) {
        "Detects insecure protocol sources in Gemfile"
    }

    fn check(&self, source: &SourceFile) -> (r: Vec<Offense>) {
        report(self.name(), self.severity(), run_lines(self, source))
    }
}

/// After the first `n` lines: the last gem name within the current group, and the findings.
pub open spec fn ordered_gems_fold(src: SourceView, n: int) -> (Option<Seq<u8>>, Seq<FindingView>)
    decreases n,
{
    if n <= 0 {
        (None, seq![])
    } else {
        let prev = ordered_gems_fold(src, n - 1);
        let l = src.lines[n - 1];
        let t = trim(l);
        if starts_with(t, bytes_of("group ")) || t == bytes_of("end") {
            (None, prev.1)
        } else {
            match first_match(r#"^\s*gem\s+['"]([^'"]+)['"]"#@, l) {
                Some(m) => match group_text(l, m, 1) {
                    Some(nm) => {
                        let f = match prev.0 {
                            Some(last) => one_if(
                                seq_lt(nm, last),
                                finding(
                                    n,
                                    whole(m).0 + 1,
                                    trim(l).len() as int,
                                    bytes_of("Gem '") + nm + bytes_of("' should be sorted before '") + last + bytes_of("'"),
                                ),
                            ),
                            None => seq![],
                        };
                        (Some(nm), prev.1 + f)
                    },
                    None => prev,
                },
                None => prev,
            }
        }
    }
}

pub open spec fn opt_view(v: Option<Vec<u8>>) -> Option<Seq<u8>> {
    match v {
        Some(x) => Some(x@),
        None => None,
    }
}

/// Checks that gems are alphabetically ordered within groups.
pub struct OrderedGems;

impl Cop for OrderedGems {
    open spec fn spec_name(&self) -> Seq<char> {
        "Bundler/OrderedGems"@
    }

    open spec fn spec_category(&self) -> Category {
        Category::Style
    }

    open spec fn spec_severity(&self) -> Severity {
        Severity::Convention
    }

    open spec fn spec_check(&self, src: SourceView) -> Seq<FindingView> {
        ordered_gems_fold(src, src.lines.len() as int).1
    }

    fn name(&self) -> (r: &str) {
        "Bundler/OrderedGems"
    }

    fn category(&self) -> (r: Category) {
        Category::Style
    }

    fn severity(&self) -> (r: Severity) {
        Severity::Convention
    }

    open spec fn spec_description(&self) -> Seq<char> {
        "Checks that gems are alphabetically ordered"@
    }

    fn description(&self) -> (r: &str) {
        "Checks that gems are alphabetically ordered"
    }

    fn check(&self, source: &SourceFile) -> (r: Vec<Offense>) {
        let mut out: Vec<Finding> = Vec::new();
        let mut last: Option<Vec<u8>> = None;
        let n = source.line_count();
        let mut i: usize = 0;
        while i < n
            invariant
                i <= n,
                n == source@.lines.len(),
                fits(source@),
                (opt_view(last), finding_views(out@)) == ordered_gems_fold(source@, i as int),
            decreases n - i,
        {
            let l = source.line_at(i);
            let t = trim_exec(l);
            if starts_with_str(t, "group ") || eq_str(t, "end") {
                last = None;
            } else {
                match first_match_exec(r#"^\s*gem\s+['"]([^'"]+)['"]"#, l) {
                    Some(m) => {
                        match group_exec(&m, 1) {
                            Some(g) => {
                                assert(groups_view(m@)[1] == Some((g.0 as int, g.1 as int)));
                                let nm = &l[g.0..g.1];
                                let mut fs: Vec<Finding> = Vec::new();
                                match &last {
                                    Some(prev) => {
                                        let (s, e) = whole_exec(&m, l.len());
                                        let mut msg = Message::from_str("Gem '");
                                        msg.push_bytes(nm);
                                        msg.push_str("' should be sorted before '");
                                        msg.push_bytes(prev.as_slice());
                                        msg.push_str("'");
                                        push_if(&mut fs, seq_lt_exec(nm, prev.as_slice()), Finding::new(i + 1, s + 1, t.len(), msg));
                                    },
                                    None => {},
                                }
                                append_findings(&mut out, fs);
                                last = Some(vstd::slice::slice_to_vec(nm));
                            },
                            None => {},
                        }
                    },
                    None => {},
                }
            }
            i = i + 1;
        }
        report(self.name(), self.severity(), out)
    }
}

// ==================== GEMSPEC COPS ====================

/// Detects use of add_runtime_dependency instead of add_dependency.
pub struct AddRuntimeDependency;

impl Cop for AddRuntimeDependency {
    open spec fn spec_name(&self) -> Seq<char> {
        "Gemspec/AddRuntimeDependency"@
    }

    open spec fn spec_category(&self) -> Category {
        Category::Style
    }

    open spec fn spec_severity(&self) -> Severity {
        Severity::Convention
    }

    open spec fn spec_check(&self, src: SourceView) -> Seq<FindingView> {
        firsts_outside(src, r"\.add_runtime_dependency\b"@, None, bytes_of("Use `add_dependency` instead of `add_runtime_dependency`"))
    }

    fn name(&self) -> (r: &str) {
        "Gemspec/AddRuntimeDependency"
    }

    fn category(&self) -> (r: Category) {
        Category::Style
    }

    fn severity(&self) -> (r: Severity) {
        Severity::Convention
    }

    open spec fn spec_description(&self) -> Seq<char> {
        "Detects use of add_runtime_dependency instead of add_dependency"@
    }

    fn description(&self) -> (r: &str) {
        "Detects use of add_runtime_dependency instead of add_dependency"
    }

    fn check(&self, source: &SourceFile) -> (r: Vec<Offense>) {
        let fs = scan_firsts_outside(source, r"\.add_runtime_dependency\b", None, "Use `add_dependency` instead of `add_runtime_dependency`");
        report(self.name(), self.severity(), fs)
    }
}

/// After the first `n` lines: whether inside a conditional, its nesting depth, and the findings.
pub open spec fn attribute_assignment_fold(src: SourceView, n: int) -> (bool, int, Seq<FindingView>)
    decreases n,
{
    if n <= 0 {
        (false, 0, seq![])
    } else {
        let prev = attribute_assignment_fold(src, n - 1);
        let l = src.lines[n - 1];
        let opened = first_match(r"^\s*(if|unless|case)\b"@, l) is Some;
        let in1 = if opened { true } else { prev.0 };
        let d1 = if opened { prev.1 + 1 } else { prev.1 };
        let closes = trim(l) == bytes_of("end") && d1 > 0;
        let d2 = if closes { d1 - 1 } else { d1 };
        let in2 = if closes && d2 == 0 { false } else { in1 };
        let f = if in2 {
            match first_match(r"^\s*\w+\.\w+\s*="@, l) {
                Some(m) => seq![
                    finding(
                        n,
                        whole(m).0 + 1,
                        whole(m).1 - whole(m).0,
                        bytes_of("Don't assign spec attributes conditionally"),
                    ),
                ],
                None => seq![],
            }
        } else {
            seq![]
        };
        (in2, d2, prev.2 + f)
    }
}

proof fn lemma_attribute_assignment_fold(src: SourceView, n: int)
    requires
        0 <= n,
    ensures
        0 <= attribute_assignment_fold(src, n).1 <= n,
    decreases n,
{
    if n > 0 {
        lemma_attribute_assignment_fold(src, n - 1);
    }
}

/// Detects conditional assignment of spec attributes inside if/unless/case blocks.
pub struct AttributeAssignment;

impl Cop for AttributeAssignment {
    open spec fn spec_name(&self) -> Seq<char> {
        "Gemspec/AttributeAssignment"@
    }

    open spec fn spec_category(&self) -> Category {
        Category::Style
    }

    open spec fn spec_severity(&self) -> Severity {
        Severity::Convention
    }

    open spec fn spec_check(&self, src: SourceView) -> Seq<FindingView> {
        attribute_assignment_fold(src, src.lines.len() as int).2
    }

    fn name(&self) -> (r: &str) {
        "Gemspec/AttributeAssignment"
    }

    fn category(&self) -> (r: Category) {
        Category::Style
    }

    fn severity(&self) -> (r: Severity) {
        Severity::Convention
    }

    open spec fn spec_description(&self) -> Seq<char> {
        "Detects conditional assignment of spec attributes"@
    }

    fn description(&self) -> (r: &str) {
        "Detects conditional assignment of spec attributes"
    }

    fn check(&self, source: &SourceFile) -> (r: Vec<Offense>) {
        let mut out: Vec<Finding> = Vec::new();
        let mut in_conditional = false;
        let mut depth: usize = 0;
        let n = source.line_count();
        let mut i: usize = 0;
        while i < n
            invariant
                i <= n,
                n == source@.lines.len(),
                fits(source@),
                (in_conditional, depth as int, finding_views(out@)) == attribute_assignment_fold(source@, i as int),
            decreases n - i,
        {
            proof {
                lemma_attribute_assignment_fold(source@, i as int);
            }
            let l = source.line_at(i);
            if first_match_exec(r"^\s*(if|unless|case)\b", l).is_some() {
                in_conditional = true;
                depth = depth + 1;
            }
            if eq_str(trim_exec(l), "end") && depth > 0 {
                depth = depth - 1;
                if depth == 0 {
                    in_conditional = false;
                }
            }
            let mut fs: Vec<Finding> = Vec::new();
            if in_conditional {
                match first_match_exec(r"^\s*\w+\.\w+\s*=", l) {
                    Some(m) => {
                        let (s, e) = whole_exec(&m, l.len());
                        push_if(&mut fs, true, Finding::text(i + 1, s + 1, e - s, "Don't assign spec attributes conditionally"));
                    },
                    None => {},
                }
            }
            append_findings(&mut out, fs);
            i = i + 1;
        }
        report(self.name(), self.severity(), out)
    }
}

/// A dependency whose name is followed by nothing that looks like a version.
pub open spec fn dependency_version_at(src: SourceView, j: int) -> Seq<FindingView> {
    let l = src.lines[j];
    match first_match(r#"\.add_(development_)?dependency\s+['"]([^'"]+)['"]"#@, l) {
        Some(m) => {
            let rest = l.skip(whole(m).1);
            if !starts_with(trim_start(rest), bytes_of(",")) && !contains(rest, bytes_of("'")) && !contains(
                rest,
                bytes_of("\""),
            ) {
                match group_text(l, m, 2) {
                    Some(nm) => seq![
                        finding(
                            j + 1,
                            whole(m).0 + 1,
                            trim(l).len() as int,
                            bytes_of("Dependency '") + nm + bytes_of("' should have a version constraint"),
                        ),
                    ],
                    None => seq![],
                }
            } else {
                seq![]
            }
        },
        None => seq![],
    }
}

impl LineRule for DependencyVersion {
    open spec fn spec_line(&self, src: SourceView, i: int) -> Seq<FindingView> {
        dependency_version_at(src, i)
    }

    fn line_findings(&self, src: &SourceFile, i: usize) -> (r: Vec<Finding>) {
        let l = src.line_at(i);
        let mut out: Vec<Finding> = Vec::new();
        match first_match_exec(r#"\.add_(development_)?dependency\s+['"]([^'"]+)['"]"#, l) {
            Some(m) => {
                let (s, e) = whole_exec(&m, l.len());
                let rest = &l[e..l.len()];
                if !starts_with_str(trim_start_exec(rest), ",") && !contains_str(rest, "'") && !contains_str(rest, "\"") {
                    match group_exec(&m, 2) {
                        Some(g) => {
                            assert(groups_view(m@)[2] == Some((g.0 as int, g.1 as int)));
                            let mut msg = Message::from_str("Dependency '");
                            msg.push_bytes(&l[g.0..g.1]);
                            msg.push_str("' should have a version constraint");
                            push_if(&mut out, true, Finding::new(i + 1, s + 1, trim_exec(l).len(), msg));
                        },
                        None => {},
                    }
                }
            },
            None => {},
        }
        out
    }
}

/// Checks for dependency version specifications in gemspec.
pub struct DependencyVersion;

impl Cop for DependencyVersion {
    open spec fn spec_name(&self) -> Seq<char> {
        "Gemspec/DependencyVersion"@
    }

    open spec fn spec_category(&self) -> Category {
        Category::Style
    }

    open spec fn spec_severity(&self) -> Severity {
        Severity::Convention
    }

    open spec fn spec_check(&self, src: SourceView) -> Seq<FindingView> {
        all_lines(self, src)
    }

    fn name(&self) -> (r: &str) {
        "Gemspec/DependencyVersion"
    }

    fn category(&self) -> (r: Category) {
        Category::Style
    }

    fn severity(&self) -> (r: Severity) {
        Severity::Convention
    }

    open spec fn spec_description(&self) -> Seq<char> {
        "Checks for dependency version specifications"@
    }

    fn description(&self) -> (r: &str) {
        "Checks for dependency version specifications"
    }

    fn check(&self, source: &SourceFile) -> (r: Vec<Offense>) {
        report(self.name(), self.severity(), run_lines(self, source))
    }
}

/// Detects use of deprecated gemspec attributes: rubyforge_project, date and specification_version, each in turn.
pub struct DeprecatedAttributeAssignment;

impl Cop for DeprecatedAttributeAssignment {
    open spec fn spec_name(&self) -> Seq<char> {
        "Gemspec/DeprecatedAttributeAssignment"@
    }

    open spec fn spec_category(&self) -> Category {
        Category::Style
    }

    open spec fn spec_severity(&self) -> Severity {
        Severity::Convention
    }

    open spec fn spec_check(&self, src: SourceView) -> Seq<FindingView> {
        firsts_outside(src, r"\.rubyforge_project\s*="@, None, bytes_of("Deprecated attribute 'rubyforge_project' should not be used")) + firsts_outside(src, r"\.date\s*="@, None, bytes_of("Deprecated attribute 'date' should not be used"))
            + firsts_outside(src, r"\.specification_version\s*="@, None, bytes_of("Deprecated attribute 'specification_version' should not be used"))
    }

    fn name(&self) -> (r: &str) {
        "Gemspec/DeprecatedAttributeAssignment"
    }

    fn category(&self) -> (r: Category) {
        Category::Style
    }

    fn severity(&self) -> (r: Severity) {
        Severity::Convention
    }

    open spec fn spec_description(&self) -> Seq<char> {
        "Detects use of deprecated gemspec attributes"@
    }

    fn description(&self) -> (r: &str) {
        "Detects use of deprecated gemspec attributes"
    }

    fn check(&self, source: &SourceFile) -> (r: Vec<Offense>) {
        let mut out = scan_firsts_outside(source, r"\.rubyforge_project\s*=", None, "Deprecated attribute 'rubyforge_project' should not be used");
        append_findings(&mut out, scan_firsts_outside(source, r"\.date\s*=", None, "Deprecated attribute 'date' should not be used"));
        append_findings(&mut out, scan_firsts_outside(source, r"\.specification_version\s*=", None, "Deprecated attribute 'specification_version' should not be used"));
        report(self.name(), self.severity(), out)
    }
}

/// A Gemfile-style `gem` line in a `.gemspec` file.
pub open spec fn development_dependency_at(src: SourceView, j: int) -> Seq<FindingView> {
    let l = src.lines[j];
    if ends_with(src.path, bytes_of(".gemspec")) {
        match first_match(r#"^\s*gem\s+['"]"#@, l) {
            Some(m) => seq![
                finding(j + 1, whole(m).0 + 1, 3, bytes_of("Use `add_development_dependency` instead of `gem` in gemspec")),
            ],
            None => seq![],
        }
    } else {
        seq![]
    }
}

impl LineRule for DevelopmentDependencies {
    open spec fn spec_line(&self, src: SourceView, i: int) -> Seq<FindingView> {
        development_dependency_at(src, i)
    }

    fn line_findings(&self, src: &SourceFile, i: usize) -> (r: Vec<Finding>) {
        let l = src.line_at(i);
        let mut out: Vec<Finding> = Vec::new();
        if ends_with_str(src.path(), ".gemspec") {
            match first_match_exec(r#"^\s*gem\s+['"]"#, l) {
                Some(m) => {
                    let (s, e) = whole_exec(&m, l.len());
                    push_if(
                        &mut out,
                        true,
                        Finding::text(i + 1, s + 1, 3, "Use `add_development_dependency` instead of `gem` in gemspec"),
                    );
                },
                None => {},
            }
        }
        out
    }
}

/// Checks development dependencies style in gemspec.
pub struct DevelopmentDependencies;

impl Cop for DevelopmentDependencies {
    open spec fn spec_name(&self) -> Seq<char> {
        "Gemspec/DevelopmentDependencies"@
    }

    open spec fn spec_category(&self) -> Category {
        Category::Style
    }

    open spec fn spec_severity(&self) -> Severity {
        Severity::Convention
    }

    open spec fn spec_check(&self, src: SourceView) -> Seq<FindingView> {
        all_lines(self, src)
    }

    fn name(&self) -> (r: &str) {
        "Gemspec/DevelopmentDependencies"
    }

    fn category(&self) -> (r: Category) {
        Category::Style
    }

    fn severity(&self) -> (r: Severity) {
        Severity::Convention
    }

    open spec fn spec_description(&self) -> Seq<char> {
        "Checks development dependencies style"@
    }

    fn description(&self) -> (r: &str) {
        "Checks development dependencies style"
    }

    fn check(&self, source: &SourceFile) -> (r: Vec<Offense>) {
        report(self.name(), self.severity(), run_lines(self, source))
    }
}

/// Detects duplicate assignments in gemspec: each spec attribute is assigned once.
pub struct DuplicatedAssignment;

impl Cop for DuplicatedAssignment {
    open spec fn spec_name(&self) -> Seq<char> {
        "Gemspec/DuplicatedAssignment"@
    }

    open spec fn spec_category(&self) -> Category {
        Category::Style
    }

    open spec fn spec_severity(&self) -> Severity {
        Severity::Convention
    }

    open spec fn spec_check(&self, src: SourceView) -> Seq<FindingView> {
        duplicates(src, r"^\s*\w+\.([a-z_]+)\s*="@, bytes_of("Attribute '"), bytes_of("' is assigned multiple times (first seen on line "), true)
    }

    fn name(&self) -> (r: &str) {
        "Gemspec/DuplicatedAssignment"
    }

    fn category(&self) -> (r: Category) {
        Category::Style
    }

    fn severity(&self) -> (r: Severity) {
        Severity::Convention
    }

    open spec fn spec_description(&self) -> Seq<char> {
        "Detects duplicate assignments in gemspec"@
    }

    fn description(&self) -> (r: &str) {
        "Detects duplicate assignments in gemspec"
    }

    fn check(&self, source: &SourceFile) -> (r: Vec<Offense>) {
        let fs = scan_duplicates(source, r"^\s*\w+\.([a-z_]+)\s*=", "Attribute '", "' is assigned multiple times (first seen on line ", true);
        report(self.name(), self.severity(), fs)
    }
}

/// After the first `n` lines: the last runtime and development dependency names, and the findings.
pub open spec fn ordered_dependencies_fold(src: SourceView, n: int) -> (Option<Seq<u8>>, Option<Seq<u8>>, Seq<FindingView>)
    decreases n,
{
    if n <= 0 {
        (None, None, seq![])
    } else {
        let prev = ordered_dependencies_fold(src, n - 1);
        let l = src.lines[n - 1];
        match first_match(r#"\.add_(development_)?dependency\s*\(?\s*['"]([^'"]+)['"]"#@, l) {
            Some(m) => match group_text(l, m, 2) {
                Some(nm) => {
                    let is_dev = group_text(l, m, 1) is Some;
                    let last = if is_dev { prev.1 } else { prev.0 };
                    let head = if is_dev {
                        bytes_of("Development dependency '")
                    } else {
                        bytes_of("Runtime dependency '")
                    };
                    let f = match last {
                        Some(ln) => one_if(
                            seq_lt(nm, ln),
                            finding(
                                n,
                                whole(m).0 + 1,
                                trim(l).len() as int,
                                head + nm + bytes_of("' should be sorted before '") + ln + bytes_of("'"),
                            ),
                        ),
                        None => seq![],
                    };
                    if is_dev {
                        (prev.0, Some(nm), prev.2 + f)
                    } else {
                        (Some(nm), prev.1, prev.2 + f)
                    }
                },
                None => prev,
            },
            None => prev,
        }
    }
}

/// The dependency a line declares: whether it is a development dependency,
/// and the gem's name.
pub open spec fn dependency_at(l: Seq<u8>) -> Option<(bool, Seq<u8>)> {
    match first_match(r#"\.add_(development_)?dependency\s*\(?\s*['"]([^'"]+)['"]"#@, l) {
        Some(m) => match group_text(l, m, 2) {
            Some(nm) => Some((group_text(l, m, 1) is Some, nm)),
            None => None,
        },
        None => None,
    }
}

/// The name of the last dependency of the given kind among the first `n` lines.
pub open spec fn last_dependency(src: SourceView, dev: bool, n: int) -> Option<Seq<u8>>
    decreases n,
{
    if n <= 0 {
        None
    } else {
        match dependency_at(src.lines[n - 1]) {
            Some(d) => if d.0 == dev {
                Some(d.1)
            } else {
                last_dependency(src, dev, n - 1)
            },
            None => last_dependency(src, dev, n - 1),
        }
    }
}

/// Line `n` declares a dependency whose name sorts before the name of the
/// dependency of the same kind declared last before it.
pub open spec fn out_of_order(src: SourceView, n: int) -> bool {
    &&& 1 <= n <= src.lines.len()
    &&& dependency_at(src.lines[n - 1]) matches Some(d)
    &&& last_dependency(src, d.0, n - 1) matches Some(ln)
    &&& seq_lt(d.1, ln)
}

proof fn lemma_ordered_dependencies_fold(src: SourceView, n: int)
    requires
        0 <= n <= src.lines.len(),
    ensures
        ordered_dependencies_fold(src, n).0 == last_dependency(src, false, n),
        ordered_dependencies_fold(src, n).1 == last_dependency(src, true, n),
        forall|j: int|
            0 <= j < ordered_dependencies_fold(src, n).2.len() ==> {
                let f = #[trigger] ordered_dependencies_fold(src, n).2[j];
                out_of_order(src, f.line) && f.line <= n
            },
        forall|m: int| 1 <= m <= n && #[trigger] out_of_order(src, m) ==> exists|j: int|
            0 <= j < ordered_dependencies_fold(src, n).2.len() && (#[trigger] ordered_dependencies_fold(src, n).2[j]).line == m,
    decreases n,
{
    if n > 0 {
        lemma_ordered_dependencies_fold(src, n - 1);
        let prev = ordered_dependencies_fold(src, n - 1);
        let cur = ordered_dependencies_fold(src, n);
        assert(prev.2.is_prefix_of(cur.2));
        assert forall|j: int| 0 <= j < cur.2.len() implies {
            let f = #[trigger] cur.2[j];
            out_of_order(src, f.line) && f.line <= n
        } by {
            if j < prev.2.len() {
                assert(cur.2[j] == prev.2[j]);
            }
        }
        assert forall|m: int| 1 <= m <= n && #[trigger] out_of_order(src, m) implies exists|j: int|
            0 <= j < cur.2.len() && (#[trigger] cur.2[j]).line == m by {
            if m < n {
                let j = choose|j: int| 0 <= j < prev.2.len() && (#[trigger] prev.2[j]).line == m;
                assert(cur.2[j] == prev.2[j]);
            } else {
                assert(cur.2[cur.2.len() - 1].line == n);
            }
        }
    }
}

/// OrderedDependencies reports exactly the dependencies declared out of
/// order: a line is reported if and only if the gem it declares sorts before
/// the gem of the same kind (runtime or development) declared last before it.
pub proof fn law_out_of_order_dependencies_reported(src: SourceView)
    ensures
        forall|j: int|
            0 <= j < OrderedDependencies.spec_check(src).len() ==> out_of_order(
                src,
                (#[trigger] OrderedDependencies.spec_check(src)[j]).line,
            ),
        forall|n: int| #[trigger] out_of_order(src, n) ==> exists|j: int|
            0 <= j < OrderedDependencies.spec_check(src).len() && (#[trigger] OrderedDependencies.spec_check(src)[j]).line == n,
{
    let n = src.lines.len() as int;
    lemma_ordered_dependencies_fold(src, n);
    let fs = OrderedDependencies.spec_check(src);
    assert(fs == ordered_dependencies_fold(src, n).2);
    assert forall|m: int| #[trigger] out_of_order(src, m) implies exists|j: int|
        0 <= j < fs.len() && (#[trigger] fs[j]).line == m by {
        let j = choose|j: int| 0 <= j < fs.len() && (#[trigger] ordered_dependencies_fold(src, n).2[j]).line == m;
        assert(fs[j].line == m);
    }
}

/// Checks that runtime and development dependencies are each alphabetically ordered in gemspec.
pub struct OrderedDependencies;

impl Cop for OrderedDependencies {
    open spec fn spec_name(&self) -> Seq<char> {
        "Gemspec/OrderedDependencies"@
    }

    open spec fn spec_category(&self) -> Category {
        Category::Style
    }

    open spec fn spec_severity(&self) -> Severity {
        Severity::Convention
    }

    open spec fn spec_check(&self, src: SourceView) -> Seq<FindingView> {
        ordered_dependencies_fold(src, src.lines.len() as int).2
    }

    fn name(&self) -> (r: &str) {
        "Gemspec/OrderedDependencies"
    }

    fn category(&self) -> (r: Category) {
        Category::Style
    }

    fn severity(&self) -> (r: Severity) {
        Severity::Convention
    }

    open spec fn spec_description(&self) -> Seq<char> {
        "Checks that dependencies are alphabetically ordered"@
    }

    fn description(&self) -> (r: &str) {
        "Checks that dependencies are alphabetically ordered"
    }

    fn check(&self, source: &SourceFile) -> (r: Vec<Offense>) {
        let mut out: Vec<Finding> = Vec::new();
        let mut last_runtime: Option<Vec<u8>> = None;
        let mut last_dev: Option<Vec<u8>> = None;
        let n = source.line_count();
        let mut i: usize = 0;
        while i < n
            invariant
                i <= n,
                n == source@.lines.len(),
                fits(source@),
                (opt_view(last_runtime), opt_view(last_dev), finding_views(out@)) == ordered_dependencies_fold(
                    source@,
                    i as int,
                ),
            decreases n - i,
        {
            let l = source.line_at(i);
            match first_match_exec(r#"\.add_(development_)?dependency\s*\(?\s*['"]([^'"]+)['"]"#, l) {
                Some(m) => {
                    match group_exec(&m, 2) {
                        Some(g) => {
                            assert(groups_view(m@)[2] == Some((g.0 as int, g.1 as int)));
                            let nm = &l[g.0..g.1];
                            let is_dev = group_exec(&m, 1).is_some();
                            let (s, e) = whole_exec(&m, l.len());
                            let mut fs: Vec<Finding> = Vec::new();
                            let last = if is_dev { &last_dev } else { &last_runtime };
                            match last {
                                Some(prev) => {
                                    let mut msg = if is_dev {
                                        Message::from_str("Development dependency '")
                                    } else {
                                        Message::from_str("Runtime dependency '")
                                    };
                                    msg.push_bytes(nm);
                                    msg.push_str("' should be sorted before '");
                                    msg.push_bytes(prev.as_slice());
                                    msg.push_str("'");
                                    push_if(
                                        &mut fs,
                                        seq_lt_exec(nm, prev.as_slice()),
                                        Finding::new(i + 1, s + 1, trim_exec(l).len(), msg),
                                    );
                                },
                                None => {},
                            }
                            append_findings(&mut out, fs);
                            if is_dev {
                                last_dev = Some(vstd::slice::slice_to_vec(nm));
                            } else {
                                last_runtime = Some(vstd::slice::slice_to_vec(nm));
                            }
                        },
                        None => {},
                    }
                },
                None => {},
            }
            i = i + 1;
        }
        report(self.name(), self.severity(), out)
    }
}

/// Checks that a gemspec with metadata requires MFA for gem push operations.
pub struct RequireMFA;

impl Cop for RequireMFA {
    open spec fn spec_name(&self) -> Seq<char> {
        "Gemspec/RequireMFA"@
    }

    open spec fn spec_category(&self) -> Category {
        Category::Style
    }

    open spec fn spec_severity(&self) -> Severity {
        Severity::Convention
    }

    open spec fn spec_check(&self, src: SourceView) -> Seq<FindingView> {
        one_if(
            some_line_matches(src, r"\.metadata\b"@) && !some_line_matches(src, r#"['"]mfa_required['"]"#@),
            finding(1, 1, 1, bytes_of("Gemspec should require MFA: metadata['mfa_required'] = 'true'")),
        )
    }

    fn name(&self) -> (r: &str) {
        "Gemspec/RequireMFA"
    }

    fn category(&self) -> (r: Category) {
        Category::Style
    }

    fn severity(&self) -> (r: Severity) {
        Severity::Convention
    }

    open spec fn spec_description(&self) -> Seq<char> {
        "Checks that gemspec requires MFA for gem push"@
    }

    fn description(&self) -> (r: &str) {
        "Checks that gemspec requires MFA for gem push"
    }

    fn check(&self, source: &SourceFile) -> (r: Vec<Offense>) {
        let mut out: Vec<Finding> = Vec::new();
        let has_metadata = some_line_matches_exec(source, r"\.metadata\b");
        let has_mfa = some_line_matches_exec(source, r#"['"]mfa_required['"]"#);
        push_if(
            &mut out,
            has_metadata && !has_mfa,
            Finding::text(1, 1, 1, "Gemspec should require MFA: metadata['mfa_required'] = 'true'"),
        );
        report(self.name(), self.severity(), out)
    }
}

/// Checks that a gemspec declares a minimum Ruby version.
pub struct RequiredRubyVersion;

impl Cop for RequiredRubyVersion {
    open spec fn spec_name(&self) -> Seq<char> {
        "Gemspec/RequiredRubyVersion"@
    }

    open spec fn spec_category(&self) -> Category {
        Category::Style
    }

    open spec fn spec_severity(&self) -> Severity {
        Severity::Convention
    }

    open spec fn spec_check(&self, src: SourceView) -> Seq<FindingView> {
        one_if(
            !some_line_matches(src, r"\.required_ruby_version\s*="@) && ends_with(src.path, bytes_of(".gemspec")),
            finding(1, 1, 1, bytes_of("Gemspec should specify required_ruby_version")),
        )
    }

    fn name(&self) -> (r: &str) {
        "Gemspec/RequiredRubyVersion"
    }

    fn category(&self) -> (r: Category) {
        Category::Style
    }

    fn severity(&self) -> (r: Severity) {
        Severity::Convention
    }

    open spec fn spec_description(&self) -> Seq<char> {
        "Checks that gemspec specifies required_ruby_version"@
    }

    fn description(&self) -> (r: &str) {
        "Checks that gemspec specifies required_ruby_version"
    }

    fn check(&self, source: &SourceFile) -> (r: Vec<Offense>) {
        let mut out: Vec<Finding> = Vec::new();
        let found = some_line_matches_exec(source, r"\.required_ruby_version\s*=");
        push_if(
            &mut out,
            !found && ends_with_str(source.path(), ".gemspec"),
            Finding::text(1, 1, 1, "Gemspec should specify required_ruby_version"),
        );
        report(self.name(), self.severity(), out)
    }
}

/// Detects use of RUBY_VERSION instead of Gem::Version.
pub struct RubyVersionGlobalsUsage;

impl Cop for RubyVersionGlobalsUsage {
    open spec fn spec_name(&self) -> Seq<char> {
        "Gemspec/RubyVersionGlobalsUsage"@
    }

    open spec fn spec_category(&self) -> Category {
        Category::Style
    }

    open spec fn spec_severity(&self) -> Severity {
        Severity::Convention
    }

    open spec fn spec_check(&self, src: SourceView) -> Seq<FindingView> {
        firsts_outside(src, r"\bRUBY_VERSION\b"@, None, bytes_of("Use Gem::Version.new(RUBY_VERSION) instead of RUBY_VERSION"))
    }

    fn name(&self) -> (r: &str) {
        "Gemspec/RubyVersionGlobalsUsage"
    }

    fn category(&self) -> (r: Category) {
        Category::Style
    }

    fn severity(&self) -> (r: Severity) {
        Severity::Convention
    }

    open spec fn spec_description(&self) -> Seq<char> {
        "Detects use of RUBY_VERSION instead of Gem::Version"@
    }

    fn description(&self) -> (r: &str) {
        "Detects use of RUBY_VERSION instead of Gem::Version"
    }

    fn check(&self, source: &SourceFile) -> (r: Vec<Offense>) {
        let fs = scan_firsts_outside(source, r"\bRUBY_VERSION\b", None, "Use Gem::Version.new(RUBY_VERSION) instead of RUBY_VERSION");
        report(self.name(), self.severity(), fs)
    }
}

/// The Bundler and Gemspec cops, in the order `all_bundler_gemspec_cops` returns
/// them, each by name, category and severity.
pub open spec fn bundler_gemspec_cops(cops: Seq<Box<dyn Cop>>) -> bool {
    &&& cops.len() == 17
    &&& cop_at(cops, 0, "Bundler/DuplicatedGem"@, Category::Style, Severity::Convention)
    &&& cop_at(cops, 1, "Bundler/DuplicatedGroup"@, Category::Style, Severity::Convention)
    &&& cop_at(cops, 2, "Bundler/GemComment"@, Category::Style, Severity::Convention)
    &&& cop_at(cops, 3, "Bundler/GemFilename"@, Category::Style, Severity::Convention)
    &&& cop_at(cops, 4, "Bundler/GemVersion"@, Category::Style, Severity::Convention)
    &&& cop_at(cops, 5, "Bundler/InsecureProtocolSource"@, Category::Style, Severity::Convention)
    &&& cop_at(cops, 6, "Bundler/OrderedGems"@, Category::Style, Severity::Convention)
    &&& cop_at(cops, 7, "Gemspec/AddRuntimeDependency"@, Category::Style, Severity::Convention)
    &&& cop_at(cops, 8, "Gemspec/AttributeAssignment"@, Category::Style, Severity::Convention)
    &&& cop_at(cops, 9, "Gemspec/DependencyVersion"@, Category::Style, Severity::Convention)
    &&& cop_at(cops, 10, "Gemspec/DeprecatedAttributeAssignment"@, Category::Style, Severity::Convention)
    &&& cop_at(cops, 11, "Gemspec/DevelopmentDependencies"@, Category::Style, Severity::Convention)
    &&& cop_at(cops, 12, "Gemspec/DuplicatedAssignment"@, Category::Style, Severity::Convention)
    &&& cop_at(cops, 13, "Gemspec/OrderedDependencies"@, Category::Style, Severity::Convention)
    &&& cop_at(cops, 14, "Gemspec/RequireMFA"@, Category::Style, Severity::Convention)
    &&& cop_at(cops, 15, "Gemspec/RequiredRubyVersion"@, Category::Style, Severity::Convention)
    &&& cop_at(cops, 16, "Gemspec/RubyVersionGlobalsUsage"@, Category::Style, Severity::Convention)
}

/// Returns all Bundler and Gemspec cops as trait objects.
pub fn all_bundler_gemspec_cops() -> (r: Vec<Box<dyn Cop>>)
    ensures
        bundler_gemspec_cops(r@),
{
    let v: Vec<Box<dyn Cop>> = vec![
        Box::new(DuplicatedGem),
        Box::new(DuplicatedGroup),
        Box::new(GemComment),
        Box::new(GemFilename),
        Box::new(GemVersion),
        Box::new(InsecureProtocolSource),
        Box::new(OrderedGems),
        Box::new(AddRuntimeDependency),
        Box::new(AttributeAssignment),
        Box::new(DependencyVersion),
        Box::new(DeprecatedAttributeAssignment),
        Box::new(DevelopmentDependencies),
        Box::new(DuplicatedAssignment),
        Box::new(OrderedDependencies),
        Box::new(RequireMFA),
        Box::new(RequiredRubyVersion),
        Box::new(RubyVersionGlobalsUsage),
    ];
    v
}

} // verus!
