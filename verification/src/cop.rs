//! The cop interface: categories, severities and the `Cop` trait.

use vstd::prelude::*;

use crate::offense::{FindingView, Offense, OffenseView, offense_views, stamp};
use crate::source::{SourceFile, SourceView};
use crate::text::{bytes_of, eq_str};

verus! {

/// Categories of cops, matching RuboCop's categories.
#[derive(Debug, Clone, Copy, PartialEq, Eq, Structural, Hash)]
pub enum Category {
    Layout,
    Style,
    Lint,
    Naming,
    Metrics,
}

/// The name under which a category is displayed.
pub open spec fn category_text(c: Category) -> Seq<char> {
    match c {
        Category::Layout => "Layout"@,
        Category::Style => "Style"@,
        Category::Lint => "Lint"@,
        Category::Naming => "Naming"@,
        Category::Metrics => "Metrics"@,
    }
}

impl Category {
    /// The category's display name, e.g. "Layout".
    pub fn to_string(&self) -> (r: String)
        ensures
            r@ == category_text(*self),
    {
        let s = match self {
            Category::Layout => "Layout",
            Category::Style => "Style",
            Category::Lint => "Lint",
            Category::Naming => "Naming",
            Category::Metrics => "Metrics",
        };
        s.to_owned()
    }
}

/// Severity levels matching RuboCop's severity levels, from least to most severe.
#[derive(Debug, Clone, Copy, PartialEq, Eq, Structural, PartialOrd, Ord, Hash)]
pub enum Severity {
    Info,
    Refactor,
    Convention,
    Warning,
    Error,
    Fatal,
}

/// The position of a severity in the order `Info < Refactor < Convention < Warning < Error < Fatal`.
pub open spec fn severity_rank(s: Severity) -> int {
    match s {
        Severity::Info => 0,
        Severity::Refactor => 1,
        Severity::Convention => 2,
        Severity::Warning => 3,
        Severity::Error => 4,
        Severity::Fatal => 5,
    }
}

/// The single-character code of a severity.
pub open spec fn severity_code(s: Severity) -> char {
    match s {
        Severity::Info => 'I',
        Severity::Refactor => 'R',
        Severity::Convention => 'C',
        Severity::Warning => 'W',
        Severity::Error => 'E',
        Severity::Fatal => 'F',
    }
}

impl Severity {
    /// Single-character code used in RuboCop-compatible output.
    pub fn code(&self) -> (r: char)
        ensures
            r == severity_code(*self),
    {
        match self {
            Severity::Info => 'I',
            Severity::Refactor => 'R',
            Severity::Convention => 'C',
            Severity::Warning => 'W',
            Severity::Error => 'E',
            Severity::Fatal => 'F',
        }
    }

    /// The position of this severity in the severity order.
    pub fn rank(&self) -> (r: u8)
        ensures
            r as int == severity_rank(*self),
    {
        match self {
            Severity::Info => 0,
            Severity::Refactor => 1,
            Severity::Convention => 2,
            Severity::Warning => 3,
            Severity::Error => 4,
            Severity::Fatal => 5,
        }
    }
}

/// The severity a configuration names: `info`, `refactor`, `convention`,
/// `warning`, `error` or `fatal`.
pub open spec fn severity_named(name: Seq<u8>) -> Option<Severity> {
    if name == bytes_of("info") {
        Some(Severity::Info)
    } else if name == bytes_of("refactor") {
        Some(Severity::Refactor)
    } else if name == bytes_of("convention") {
        Some(Severity::Convention)
    } else if name == bytes_of("warning") {
        Some(Severity::Warning)
    } else if name == bytes_of("error") {
        Some(Severity::Error)
    } else if name == bytes_of("fatal") {
        Some(Severity::Fatal)
    } else {
        None
    }
}

impl Severity {
    /// The severity that a configuration's `Severity:` value names, if any.
    pub fn from_name(name: &str) -> (r: Option<Severity>)
        ensures
            r == severity_named(bytes_of(name)),
    {
        let b = name.as_bytes();
        if eq_str(b, "info") {
            Some(Severity::Info)
        } else if eq_str(b, "refactor") {
            Some(Severity::Refactor)
        } else if eq_str(b, "convention") {
            Some(Severity::Convention)
        } else if eq_str(b, "warning") {
            Some(Severity::Warning)
        } else if eq_str(b, "error") {
            Some(Severity::Error)
        } else if eq_str(b, "fatal") {
            Some(Severity::Fatal)
        } else {
            None
        }
    }
}

/// Distinct severities have distinct codes, and the code determines the severity.
pub proof fn lemma_severity_code_injective(a: Severity, b: Severity)
    ensures
        severity_code(a) == severity_code(b) <==> a == b,
        severity_rank(a) == severity_rank(b) <==> a == b,
{
}

/// Every offense in `offs` carries the cop's name and severity.
pub open spec fn attributed(offs: Seq<OffenseView>, name: Seq<char>, severity: Severity) -> bool {
    forall|i: int| 0 <= i < offs.len() ==> (#[trigger] offs[i]).cop == name && offs[i].severity == severity
}

/// The core trait that all cops implement.
pub trait Cop: Send + Sync {
    /// Fully qualified name, e.g. "Layout/TrailingWhitespace".
    spec fn spec_name(&self) -> Seq<char>;

    spec fn spec_category(&self) -> Category;

    spec fn spec_severity(&self) -> Severity;

    /// What the cop finds in a source file: positions and messages, in order.
    spec fn spec_check(&self, src: SourceView) -> Seq<FindingView>;

    /// Fully qualified name, e.g. "Layout/TrailingWhitespace".
    fn name(&self) -> (r: &str)
        ensures
            r@ == self.spec_name(),
    ;

    /// Category of the cop.
    fn category(&self) -> (r: Category)
        ensures
            r == self.spec_category(),
    ;

    /// Default severity.
    fn severity(&self) -> (r: Severity)
        ensures
            r == self.spec_severity(),
    ;

    /// Human-readable description.
    spec fn spec_description(&self) -> Seq<char>;

    /// Human-readable description.
    fn description(&self) -> (r: &str)
        ensures
            r@ == self.spec_description(),
    ;

    /// Check a source file and return all offenses found: each finding of
    /// `spec_check`, stamped with the cop's name and severity.
    fn check(&self, source: &SourceFile) -> (r: Vec<Offense>)
        ensures
            offense_views(r@) == stamp(self.spec_check(source@), self.spec_name(), self.spec_severity()),
    ;
}

/// The cop at position `k` of `cops` has the given name, category and
/// severity.
pub open spec fn cop_at(cops: Seq<Box<dyn Cop>>, k: int, name: Seq<char>, category: Category, severity: Severity) -> bool {
    cops[k].spec_name() == name && cops[k].spec_category() == category && cops[k].spec_severity() == severity
}

/// The cop at position `k` of `cops` finds in every source file what `d`
/// finds there.
pub open spec fn checks_as<C: Cop>(cops: Seq<Box<dyn Cop>>, k: int, d: C) -> bool {
    forall|src: SourceView| #[trigger] cops[k].spec_check(src) == d.spec_check(src)
}

/// Every offense a cop reports carries that cop's name and its severity.
pub proof fn law_offenses_carry_cop_identity(findings: Seq<FindingView>, name: Seq<char>, severity: Severity)
    ensures
        attributed(stamp(findings, name, severity), name, severity),
        stamp(findings, name, severity).len() == findings.len(),
{
}

} // verus!
