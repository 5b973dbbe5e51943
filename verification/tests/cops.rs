use oxicop::cop::{Category, Cop, Severity};
use oxicop::cops::all_cops;

#[test]
fn test_all_cops_returns_many() {
    let cops = all_cops();
    assert!(cops.len() > 100, "Expected 100+ cops, got {}", cops.len());
}

#[test]
fn test_all_cops_have_unique_names() {
    let cops = all_cops();
    let names: Vec<&str> = cops.iter().map(|c| c.name()).collect();
    let mut unique_names = names.clone();
    unique_names.sort();
    unique_names.dedup();
    assert_eq!(names.len(), unique_names.len(), "Duplicate cop names found");
}

#[test]
fn test_cop_names_follow_convention() {
    let cops = all_cops();
    for cop in &cops {
        let name = cop.name();
        assert!(
            name.contains('/'),
            "Cop name '{}' should contain category separator '/'",
            name
        );
    }
}

#[test]
fn cops_all_cops_count() {
    assert_eq!(all_cops().len(), 388);
}

#[test]
fn cops_every_cop_runs_on_a_sample() {
    let source = oxicop::source::SourceFile::from_string(
        "sample.rb",
        "# frozen_string_literal: true\n\nclass Foo\n  def bar(a, b)\n    a + b if a\n  end\nend\n".to_string(),
    );
    for cop in all_cops() {
        for o in cop.check(&source) {
            assert_eq!(o.cop_name, cop.name());
            assert_eq!(o.severity, cop.severity());
            assert!(o.location.line >= 1);
        }
    }
}

#[test]
fn cops_descriptions_are_set() {
    for cop in all_cops() {
        assert!(!cop.description().is_empty(), "{} has no description", cop.name());
    }
    let m = oxicop::cops::metrics::MethodLength::new();
    assert_eq!(m.description(), "Methods should not be too long");
}

#[test]
fn test_cop_lists_in_order() {
    let all = all_cops();
    assert_eq!(all[0].name(), "Layout/TrailingWhitespace");
    assert_eq!(all[110].name(), "Naming/ConstantName");
    assert_eq!(all[111].name(), "Style/AndOr");
    assert_eq!(all[372].name(), "Metrics/MethodLength");
    assert_eq!(all[387].name(), "Security/CompoundHash");
    let metrics = oxicop::cops::metrics::all_metrics_cops();
    assert_eq!(metrics[9].category(), Category::Lint);
    assert_eq!(metrics[9].severity(), Severity::Warning);
    let gems = oxicop::cops::bundler_gemspec::all_bundler_gemspec_cops();
    assert!(gems[..7].iter().all(|c| c.name().starts_with("Bundler/")));
    assert!(gems[7..].iter().all(|c| c.name().starts_with("Gemspec/")));
}
