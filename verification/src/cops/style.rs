//! Style cops for Ruby code formatting and conventions.

use vstd::prelude::*;

use crate::cop::{Category, Cop, Severity};
use crate::offense::{Finding, FindingView, Message, Offense, finding, finding_views, report};
use crate::pattern::{first_match, first_match_exec, group, group_exec, groups_view, whole, whole_exec};
use crate::rule::{LineRule, all_lines, append_findings, gather, one_if, push_if, run_lines};
use crate::scan::{MatchCond, cond_match, cond_matches, group_text, scan_cond_matches};
use crate::source::{SourceFile, SourceView, fits};
use crate::text::{bytes_of, contains, find, is_blank, starts_with, trim, trim_start};
use crate::text::{contains_str, eq_str, find_str, is_blank_exec, starts_with_str, trim_exec, trim_start_exec};

verus! {

/// The stack of open method definitions, as the 1-based lines of their `def`s.
pub open spec fn stack_view(v: Seq<usize>) -> Seq<int> {
    v.map_values(|x: usize| x as int)
}

/// The comment is `#`, then optional whitespace, then `frozen_string_literal:`.
pub open spec fn is_frozen_comment(t: Seq<u8>) -> bool {
    t.len() >= 1 && t[0] == 35u8 && starts_with(trim_start(t.skip(1)), bytes_of("frozen_string_literal:"))
}

/// The magic comment on line 1, or line 2 after a shebang: missing, or not `true`.
pub open spec fn frozen_string_literal(src: SourceView) -> Seq<FindingView> {
    if src.content.len() == 0 {
        seq![]
    } else {
        let first = if src.lines.len() >= 1 {
            src.lines[0]
        } else {
            seq![]
        };
        let check = if starts_with(first, bytes_of("#!")) {
            2int
        } else {
            1int
        };
        match src.line(check) {
            Some(l) => {
                let t = trim(l);
                if !is_frozen_comment(t) {
                    seq![finding(check, 1, l.len() as int, bytes_of("Missing frozen_string_literal comment"))]
                } else if !contains(t, bytes_of("true")) {
                    seq![finding(check, 1, l.len() as int, bytes_of("frozen_string_literal should be set to true"))]
                } else {
                    seq![]
                }
            },
            None => one_if(check == 2, finding(1, 1, first.len() as int, bytes_of("Missing frozen_string_literal comment"))),
        }
    }
}

/// Checks that files start with `# frozen_string_literal: true`, on line 1, or line 2 after a shebang.
pub struct FrozenStringLiteralComment;

impl Cop for FrozenStringLiteralComment {
    open spec fn spec_name(&self) -> Seq<char> {
        "Style/FrozenStringLiteralComment"@
    }

    open spec fn spec_category(&self) -> Category {
        Category::Style
    }

    open spec fn spec_severity(&self) -> Severity {
        Severity::Convention
    }

    open spec fn spec_check(&self, src: SourceView) -> Seq<FindingView> {
        frozen_string_literal(src)
    }

    fn name(&self) -> (r: &str) {
        "Style/FrozenStringLiteralComment"
    }

    fn category(&self) -> (r: Category) {
        Category::Style
    }

    fn severity(&self) -> (r: Severity) {
        Severity::Convention
    }

    open spec fn spec_description(&self) -> Seq<char> {
        "Checks for frozen_string_literal comment at the top of files"@
    }

    fn description(&self) -> (r: &str) {
        "Checks for frozen_string_literal comment at the top of files"
    }

    fn check(&self, source: &SourceFile) -> (r: Vec<Offense>) {
        let mut out: Vec<Finding> = Vec::new();
        if source.is_empty() {
            return report(self.name(), self.severity(), out);
        }
        let n = source.line_count();
        let empty: Vec<u8> = Vec::new();
        let first: &[u8] = if n >= 1 { source.line_at(0) } else { empty.as_slice() };
        proof {
            if n == 0 {
                assert(first@ =~= Seq::<u8>::empty());
            }
        }
        let check: usize = if starts_with_str(first, "#!") { 2 } else { 1 };
        match source.line(check) {
            Some(l) => {
                let t = trim_exec(l);
                let frozen = t.len() >= 1 && t[0] == 35u8 && starts_with_str(
                    trim_start_exec(&t[1..t.len()]),
                    "frozen_string_literal:",
                );
                proof {
                    if t@.len() >= 1 {
                        assert(t@.subrange(1, t@.len() as int) =~= t@.skip(1));
                    }
                }
                if !frozen {
                    push_if(&mut out, true, Finding::text(check, 1, l.len(), "Missing frozen_string_literal comment"));
                } else if !contains_str(t, "true") {
                    push_if(&mut out, true, Finding::text(check, 1, l.len(), "frozen_string_literal should be set to true"));
                }
            },
            None => {
                push_if(&mut out, check == 2, Finding::text(1, 1, first.len(), "Missing frozen_string_literal comment"));
            },
        }
        report(self.name(), self.severity(), out)
    }
}

/// A byte that after a backslash makes an escape that needs double quotes.
pub open spec fn escape_letter(c: u8) -> bool {
    c == 110u8 || c == 116u8 || c == 114u8 || c == 97u8 || c == 98u8 || c == 102u8 || c == 118u8 || c == 101u8
        || c == 48u8 || c == 120u8 || c == 117u8 || c == 115u8 || c == 34u8
}

/// The string's content needs double quotes: it has an interpolation `#{` or
/// a backslash escape such as `\n`.
pub open spec fn spec_needs_double_quotes(content: Seq<u8>) -> bool {
    contains(content, bytes_of("#{")) || exists|k: int|
        0 <= k < content.len() - 1 && content[k] == 92u8 && #[trigger] escape_letter(content[k + 1])
}

/// Whether the content of a double-quoted string needs the double quotes.
pub fn needs_double_quotes(content: &[u8]) -> (r: bool)
    ensures
        r == spec_needs_double_quotes(content@),
{
    if contains_str(content, "#{") {
        return true;
    }
    if content.len() == 0 {
        return false;
    }
    let mut k: usize = 0;
    while k < content.len() - 1
        invariant
            content@.len() >= 1,
            k <= content@.len() - 1,
            forall|j: int| 0 <= j < k ==> !(content@[j] == 92u8 && #[trigger] escape_letter(content@[j + 1])),
        decreases content.len() - k,
    {
        let c = content[k + 1];
        if content[k] == 92u8 && (c == 110u8 || c == 116u8 || c == 114u8 || c == 97u8 || c == 98u8 || c == 102u8
            || c == 118u8 || c == 101u8 || c == 48u8 || c == 120u8 || c == 117u8 || c == 115u8 || c == 34u8) {
            assert(content@[k as int] == 92u8 && escape_letter(content@[k + 1]));
            return true;
        }
        k = k + 1;
    }
    false
}

/// A double-quoted string needs its double quotes exactly when its content
/// holds an interpolation `#{`, or a backslash followed by `n`, `t`, `r`, `a`,
/// `b`, `f`, `v`, `e`, `0`, `x`, `u`, `s` or `"`.
pub proof fn law_double_quotes_needed(content: Seq<u8>)
    ensures
        spec_needs_double_quotes(content) == (contains(content, bytes_of("#{")) || exists|k: int|
            0 <= k < content.len() - 1 && content[k] == 92u8 && ({
                let c = #[trigger] content[k + 1];
                c == 110u8 || c == 116u8 || c == 114u8 || c == 97u8 || c == 98u8 || c == 102u8 || c == 118u8
                    || c == 101u8 || c == 48u8 || c == 120u8 || c == 117u8 || c == 115u8 || c == 34u8
            })),
{
    if exists|k: int|
        0 <= k < content.len() - 1 && content[k] == 92u8 && ({
            let c = #[trigger] content[k + 1];
            c == 110u8 || c == 116u8 || c == 114u8 || c == 97u8 || c == 98u8 || c == 102u8 || c == 118u8
                || c == 101u8 || c == 48u8 || c == 120u8 || c == 117u8 || c == 115u8 || c == 34u8
        }) {
        let k = choose|k: int|
            0 <= k < content.len() - 1 && content[k] == 92u8 && ({
                let c = #[trigger] content[k + 1];
                c == 110u8 || c == 116u8 || c == 114u8 || c == 97u8 || c == 98u8 || c == 102u8 || c == 118u8
                    || c == 101u8 || c == 48u8 || c == 120u8 || c == 117u8 || c == 115u8 || c == 34u8
            });
        assert(escape_letter(content[k + 1]));
    }
}

/// A double-quoted string whose content holds a backslash escape that needs
/// double quotes, such as `\r`, is never reported.
pub proof fn law_escaped_string_not_reported(src: SourceView, i: int, m: Seq<Option<(int, int)>>, k: int, len: Option<int>, msg: Seq<u8>)
    requires
        0 <= k < quoted_content(src.lines[i], m).len() - 1,
        quoted_content(src.lines[i], m)[k] == 92u8,
        ({
            let c = quoted_content(src.lines[i], m)[k + 1];
            c == 110u8 || c == 116u8 || c == 114u8 || c == 97u8 || c == 98u8 || c == 102u8 || c == 118u8
                || c == 101u8 || c == 48u8 || c == 120u8 || c == 117u8 || c == 115u8 || c == 34u8
        }),
    ensures
        !StringLiterals.spec_ok(src, i, m),
        cond_match(&StringLiterals, src, i, m, len, msg).len() == 0,
{
    law_double_quotes_needed(quoted_content(src.lines[i], m));
}

/// The content of a double-quoted string: its group 1, or nothing.
pub open spec fn quoted_content(l: Seq<u8>, m: Seq<Option<(int, int)>>) -> Seq<u8> {
    match group_text(l, m, 1) {
        Some(c) => c,
        None => seq![],
    }
}

impl MatchCond for StringLiterals {
    /// A double-quoted string outside strings and comments whose content needs no double quotes.
    open spec fn spec_ok(&self, src: SourceView, i: int, m: Seq<Option<(int, int)>>) -> bool {
        !src.in_string_or_comment(i + 1, whole(m).0 + 1) && !spec_needs_double_quotes(quoted_content(src.lines[i], m))
    }

    fn ok(&self, src: &SourceFile, i: usize, m: &Vec<Option<(usize, usize)>>) -> (r: bool) {
        let l = src.line_at(i);
        let (s, e) = whole_exec(m, l.len());
        if src.in_string_or_comment(i + 1, s + 1) {
            return false;
        }
        match group_exec(m, 1) {
            Some(g) => {
                assert(groups_view(m@)[1] == Some((g.0 as int, g.1 as int)));
                !needs_double_quotes(&l[g.0..g.1])
            },
            None => {
                let empty: Vec<u8> = Vec::new();
                assert(empty@ =~= Seq::<u8>::empty());
                !needs_double_quotes(empty.as_slice())
            },
        }
    }
}

/// Prefers single-quoted strings when no interpolation or escape sequence is used.
pub struct StringLiterals;

impl Cop for StringLiterals {
    open spec fn spec_name(&self) -> Seq<char> {
        "Style/StringLiterals"@
    }

    open spec fn spec_category(&self) -> Category {
        Category::Style
    }

    open spec fn spec_severity(&self) -> Severity {
        Severity::Convention
    }

    open spec fn spec_check(&self, src: SourceView) -> Seq<FindingView> {
        cond_matches(self, src, r#""([^"\\]*(\\.[^"\\]*)*)""#@, None, bytes_of("Prefer single-quoted strings when you don't need interpolation"))
    }

    fn name(&self) -> (r: &str) {
        "Style/StringLiterals"
    }

    fn category(&self) -> (r: Category) {
        Category::Style
    }

    fn severity(&self) -> (r: Severity) {
        Severity::Convention
    }

    open spec fn spec_description(&self) -> Seq<char> {
        "Prefers single-quoted strings when no interpolation is needed"@
    }

    fn description(&self) -> (r: &str) {
        "Prefers single-quoted strings when no interpolation is needed"
    }

    fn check(&self, source: &SourceFile) -> (r: Vec<Offense>) {
        let fs = scan_cond_matches(self, source, r#""([^"\\]*(\\.[^"\\]*)*)""#, None, "Prefer single-quoted strings when you don't need interpolation");
        report(self.name(), self.severity(), fs)
    }
}

/// Group 1 of the first match of `p` on line `i`, where it starts outside strings and comments.
pub open spec fn negated_at(src: SourceView, i: int, p: Seq<char>, msg: Seq<u8>) -> Seq<FindingView> {
    match first_match(p, src.lines[i]) {
        Some(m) => match group(m, 1) {
            Some(g) => one_if(!src.in_string_or_comment(i + 1, g.0 + 1), finding(i + 1, g.0 + 1, g.1 - g.0, msg)),
            None => seq![],
        },
        None => seq![],
    }
}

fn negated_exec(src: &SourceFile, i: usize, p: &str, msg: &str) -> (r: Vec<Finding>)
    requires
        i < src@.lines.len(),
    ensures
        finding_views(r@) == negated_at(src@, i as int, p@, bytes_of(msg)),
{
    let l = src.line_at(i);
    let mut out: Vec<Finding> = Vec::new();
    match first_match_exec(p, l) {
        Some(m) => {
            match group_exec(&m, 1) {
                Some(g) => {
                    assert(groups_view(m@)[1] == Some((g.0 as int, g.1 as int)));
                    let hit = !src.in_string_or_comment(i + 1, g.0 + 1);
                    push_if(&mut out, hit, Finding::text(i + 1, g.0 + 1, g.1 - g.0, msg));
                },
                None => {},
            }
        },
        None => {},
    }
    out
}

impl LineRule for NegatedIf {
    /// On a line without `&&` or `||`, an `if !` or `unless !` outside strings and comments.
    open spec fn spec_line(&self, src: SourceView, i: int) -> Seq<FindingView> {
        let l = src.lines[i];
        if contains(l, bytes_of("&&")) || contains(l, bytes_of("||")) {
            seq![]
        } else {
            negated_at(src, i, r#"^\s*(if\s+!)"#@, bytes_of("Prefer `unless` over `if` with negated condition")) + negated_at(
                src,
                i,
                r#"^\s*(unless\s+!)"#@,
                bytes_of("Prefer `if` over `unless` with negated condition"),
            )
        }
    }

    fn line_findings(&self, src: &SourceFile, i: usize) -> (r: Vec<Finding>) {
        let l = src.line_at(i);
        if contains_str(l, "&&") || contains_str(l, "||") {
            return Vec::new();
        }
        let mut out = negated_exec(src, i, r#"^\s*(if\s+!)"#, "Prefer `unless` over `if` with negated condition");
        append_findings(&mut out, negated_exec(src, i, r#"^\s*(unless\s+!)"#, "Prefer `if` over `unless` with negated condition"));
        out
    }
}

/// Detects `if !condition` and `unless !condition`.
pub struct NegatedIf;

impl Cop for NegatedIf {
    open spec fn spec_name(&self) -> Seq<char> {
        "Style/NegatedIf"@
    }

    open spec fn spec_category(&self) -> Category {
        Category::Style
    }

    open spec fn spec_severity(&self) -> Severity {
        Severity::Convention
    }

    open spec fn spec_check(&self, src: SourceView) -> Seq<FindingView> {
        all_lines(self, src)
    }

    fn name(&self) -> (r: &str) {
        "Style/NegatedIf"
    }

    fn category(&self) -> (r: Category) {
        Category::Style
    }

    fn severity(&self) -> (r: Severity) {
        Severity::Convention
    }

    open spec fn spec_description(&self) -> Seq<char> {
        "Detects negated conditionals that could use unless/if instead"@
    }

    fn description(&self) -> (r: &str) {
        "Detects negated conditionals that could use unless/if instead"
    }

    fn check(&self, source: &SourceFile) -> (r: Vec<Offense>) {
        report(self.name(), self.severity(), run_lines(self, source))
    }
}

/// The largest line number in `[lo, hi)` whose trimmed text is not empty and
/// does not start a method definition.
pub open spec fn last_statement(lines: Seq<Seq<u8>>, lo: int, hi: int) -> Option<int>
    decreases hi - lo,
{
    if hi <= lo || hi - 1 < 1 || hi - 1 > lines.len() {
        None
    } else {
        let t = trim(lines[hi - 2]);
        if t.len() > 0 && !starts_with(t, bytes_of("def ")) {
            Some(hi - 1)
        } else {
            last_statement(lines, lo, hi - 1)
        }
    }
}

/// The `return` on a method's last statement line, if that line is a return.
pub open spec fn redundant_return_at(lines: Seq<Seq<u8>>, def_line: int, end_line: int) -> Seq<FindingView> {
    match last_statement(lines, def_line, end_line) {
        Some(st) => {
            let l = lines[st - 1];
            let t = trim(l);
            if starts_with(t, bytes_of("return ")) || t == bytes_of("return") {
                match find(l, bytes_of("return")) {
                    Some(p) => seq![finding(st, p + 1, 6, bytes_of("Redundant `return` at end of method body"))],
                    None => seq![],
                }
            } else {
                seq![]
            }
        },
        None => seq![],
    }
}

/// After the first `n` lines: the open method definitions and the findings.
pub open spec fn redundant_return_fold(lines: Seq<Seq<u8>>, n: int) -> (Seq<int>, Seq<FindingView>)
    decreases n,
{
    if n <= 0 {
        (seq![], seq![])
    } else {
        let prev = redundant_return_fold(lines, n - 1);
        let t = trim(lines[n - 1]);
        let st = if starts_with(t, bytes_of("def ")) {
            prev.0.push(n)
        } else {
            prev.0
        };
        if t == bytes_of("end") && st.len() > 0 {
            (st.drop_last(), prev.1 + redundant_return_at(lines, st.last(), n))
        } else {
            (st, prev.1)
        }
    }
}

proof fn lemma_stack_bounds(lines: Seq<Seq<u8>>, n: int)
    requires
        0 <= n,
    ensures
        redundant_return_fold(lines, n).0.len() <= n,
        forall|k: int| 0 <= k < redundant_return_fold(lines, n).0.len() ==> 1 <= #[trigger] redundant_return_fold(lines, n).0[k] <= n,
    decreases n,
{
    if n > 0 {
        lemma_stack_bounds(lines, n - 1);
    }
}

proof fn lemma_last_statement(lines: Seq<Seq<u8>>, lo: int, hi: int)
    ensures
        match last_statement(lines, lo, hi) {
            Some(k) => lo <= k < hi && 1 <= k <= lines.len(),
            None => true,
        },
    decreases hi - lo,
{
    if !(hi <= lo || hi - 1 < 1 || hi - 1 > lines.len()) {
        lemma_last_statement(lines, lo, hi - 1);
    }
}

fn last_statement_exec(src: &SourceFile, lo: usize, hi: usize) -> (r: Option<usize>)
    ensures
        match r {
            Some(k) => last_statement(src@.lines, lo as int, hi as int) == Some(k as int),
            None => last_statement(src@.lines, lo as int, hi as int) is None,
        },
{
    let n = src.line_count();
    let mut h = hi;
    while h > lo && h - 1 >= 1 && h - 1 <= n
        invariant
            n == src@.lines.len(),
            last_statement(src@.lines, lo as int, hi as int) == last_statement(src@.lines, lo as int, h as int),
        decreases h,
    {
        let t = trim_exec(src.line_at(h - 2));
        if t.len() > 0 && !starts_with_str(t, "def ") {
            return Some(h - 1);
        }
        h = h - 1;
    }
    None
}

fn redundant_return_exec(src: &SourceFile, def_line: usize, end_line: usize) -> (r: Vec<Finding>)
    ensures
        finding_views(r@) == redundant_return_at(src@.lines, def_line as int, end_line as int),
{
    let mut out: Vec<Finding> = Vec::new();
    proof {
        lemma_last_statement(src@.lines, def_line as int, end_line as int);
    }
    match last_statement_exec(src, def_line, end_line) {
        Some(st) => {
            let l = src.line_at(st - 1);
            let t = trim_exec(l);
            if starts_with_str(t, "return ") || eq_str(t, "return") {
                match find_str(l, "return") {
                    Some(p) => {
                        proof {
                            crate::text::lemma_find_from_spec(l@, bytes_of("return"), 0);
                        }
                        push_if(&mut out, true, Finding::text(st, p + 1, 6, "Redundant `return` at end of method body"));
                    },
                    None => {},
                }
            }
        },
        None => {},
    }
    out
}

/// Detects a redundant `return` on the last statement line of a method body.
pub struct RedundantReturn;

impl Cop for RedundantReturn {
    open spec fn spec_name(&self) -> Seq<char> {
        "Style/RedundantReturn"@
    }

    open spec fn spec_category(&self) -> Category {
        Category::Style
    }

    open spec fn spec_severity(&self) -> Severity {
        Severity::Convention
    }

    open spec fn spec_check(&self, src: SourceView) -> Seq<FindingView> {
        redundant_return_fold(src.lines, src.lines.len() as int).1
    }

    fn name(&self) -> (r: &str) {
        "Style/RedundantReturn"
    }

    fn category(&self) -> (r: Category) {
        Category::Style
    }

    fn severity(&self) -> (r: Severity) {
        Severity::Convention
    }

    open spec fn spec_description(&self) -> Seq<char> {
        "Detects redundant return statements at the end of method bodies"@
    }

    fn description(&self) -> (r: &str) {
        "Detects redundant return statements at the end of method bodies"
    }

    fn check(&self, source: &SourceFile) -> (r: Vec<Offense>) {
        let mut out: Vec<Finding> = Vec::new();
        let mut stack: Vec<usize> = Vec::new();
        let n = source.line_count();
        let mut i: usize = 0;
        while i < n
            invariant
                i <= n,
                n == source@.lines.len(),
                fits(source@),
                (stack_view(stack@), finding_views(out@)) == redundant_return_fold(source@.lines, i as int),
            decreases n - i,
        {
            proof {
                lemma_stack_bounds(source@.lines, i as int);
            }
            let t = trim_exec(source.line_at(i));
            if starts_with_str(t, "def ") {
                let ghost before = stack@;
                stack.push(i + 1);
                assert(stack_view(stack@) =~= stack_view(before).push(i + 1));
            }
            if eq_str(t, "end") && stack.len() > 0 {
                let ghost before = stack@;
                let def_line = stack.pop().unwrap();
                assert(stack_view(stack@) =~= stack_view(before).drop_last());
                let fs = redundant_return_exec(source, def_line, i + 1);
                append_findings(&mut out, fs);
            }
            i = i + 1;
        }
        report(self.name(), self.severity(), out)
    }
}

/// Some line numbered in `[lo, hi)` is not blank.
pub open spec fn has_content(lines: Seq<Seq<u8>>, lo: int, hi: int) -> bool {
    exists|k: int| lo <= k < hi && 1 <= k <= lines.len() && !is_blank(#[trigger] lines[k - 1])
}

/// A method whose `def` and `end` have only blank lines between them.
pub open spec fn empty_method_at(lines: Seq<Seq<u8>>, def_line: int, end_line: int) -> Seq<FindingView> {
    if !has_content(lines, def_line + 1, end_line) && 1 <= def_line <= lines.len() {
        match find(lines[def_line - 1], bytes_of("def ")) {
            Some(p) => seq![finding(def_line, p + 1, 3, bytes_of("Empty method definition"))],
            None => seq![],
        }
    } else {
        seq![]
    }
}

/// After the first `n` lines: the open method definitions and the findings.
pub open spec fn empty_method_fold(lines: Seq<Seq<u8>>, n: int) -> (Seq<int>, Seq<FindingView>)
    decreases n,
{
    if n <= 0 {
        (seq![], seq![])
    } else {
        let prev = empty_method_fold(lines, n - 1);
        let t = trim(lines[n - 1]);
        let st = if starts_with(t, bytes_of("def ")) {
            prev.0.push(n)
        } else {
            prev.0
        };
        if t == bytes_of("end") && st.len() > 0 {
            (st.drop_last(), prev.1 + empty_method_at(lines, st.last(), n))
        } else {
            (st, prev.1)
        }
    }
}

proof fn lemma_empty_stack_bounds(lines: Seq<Seq<u8>>, n: int)
    requires
        0 <= n,
    ensures
        empty_method_fold(lines, n).0.len() <= n,
        forall|k: int| 0 <= k < empty_method_fold(lines, n).0.len() ==> 1 <= #[trigger] empty_method_fold(lines, n).0[k] <= n,
    decreases n,
{
    if n > 0 {
        lemma_empty_stack_bounds(lines, n - 1);
    }
}

fn empty_method_exec(src: &SourceFile, def_line: usize, end_line: usize) -> (r: Vec<Finding>)
    requires
        1 <= def_line <= src@.lines.len(),
        end_line <= src@.lines.len(),
    ensures
        finding_views(r@) == empty_method_at(src@.lines, def_line as int, end_line as int),
{
    let mut out: Vec<Finding> = Vec::new();
    let _n = src.line_count();
    let mut k = def_line + 1;
    let mut found = false;
    while k < end_line
        invariant_except_break
            !found,
        invariant
            def_line + 1 <= k,
            end_line <= src@.lines.len(),
            forall|j: int| def_line + 1 <= j < k ==> is_blank(#[trigger] src@.lines[j - 1]),
        ensures
            found ==> has_content(src@.lines, def_line + 1, end_line as int),
            !found ==> forall|j: int| def_line + 1 <= j < end_line ==> is_blank(#[trigger] src@.lines[j - 1]),
        decreases end_line - k,
    {
        if !is_blank_exec(src.line_at(k - 1)) {
            assert(!is_blank(src@.lines[k - 1]));
            found = true;
            break;
        }
        k = k + 1;
    }
    if !found {
        let l = src.line_at(def_line - 1);
        match find_str(l, "def ") {
            Some(p) => {
                proof {
                    crate::text::lemma_find_from_spec(l@, bytes_of("def "), 0);
                }
                push_if(&mut out, true, Finding::text(def_line, p + 1, 3, "Empty method definition"));
            },
            None => {},
        }
    }
    out
}

/// Detects method definitions with nothing but blank lines before their `end`.
pub struct EmptyMethod;

impl Cop for EmptyMethod {
    open spec fn spec_name(&self) -> Seq<char> {
        "Style/EmptyMethod"@
    }

    open spec fn spec_category(&self) -> Category {
        Category::Style
    }

    open spec fn spec_severity(&self) -> Severity {
        Severity::Convention
    }

    open spec fn spec_check(&self, src: SourceView) -> Seq<FindingView> {
        empty_method_fold(src.lines, src.lines.len() as int).1
    }

    fn name(&self) -> (r: &str) {
        "Style/EmptyMethod"
    }

    fn category(&self) -> (r: Category) {
        Category::Style
    }

    fn severity(&self) -> (r: Severity) {
        Severity::Convention
    }

    open spec fn spec_description(&self) -> Seq<char> {
        "Detects empty method definitions"@
    }

    fn description(&self) -> (r: &str) {
        "Detects empty method definitions"
    }

    fn check(&self, source: &SourceFile) -> (r: Vec<Offense>) {
        let mut out: Vec<Finding> = Vec::new();
        let mut stack: Vec<usize> = Vec::new();
        let n = source.line_count();
        let mut i: usize = 0;
        while i < n
            invariant
                i <= n,
                n == source@.lines.len(),
                fits(source@),
                (stack_view(stack@), finding_views(out@)) == empty_method_fold(source@.lines, i as int),
            decreases n - i,
        {
            proof {
                lemma_empty_stack_bounds(source@.lines, i as int);
            }
            let t = trim_exec(source.line_at(i));
            if starts_with_str(t, "def ") {
                let ghost before = stack@;
                stack.push(i + 1);
                assert(stack_view(stack@) =~= stack_view(before).push(i + 1));
            }
            if eq_str(t, "end") && stack.len() > 0 {
                let ghost before = stack@;
                let def_line = stack.pop().unwrap();
                assert(stack_view(stack@) =~= stack_view(before).drop_last());
                assert(stack_view(before)[stack_view(before).len() - 1] == def_line as int);
                let fs = empty_method_exec(source, def_line, i + 1);
                append_findings(&mut out, fs);
            }
            i = i + 1;
        }
        report(self.name(), self.severity(), out)
    }
}

} // verus!
