use oxicop::cop::{Category, Severity};

#[test]
fn test_severity_ordering() {
    assert!(Severity::Info < Severity::Convention);
    assert!(Severity::Convention < Severity::Warning);
    assert!(Severity::Warning < Severity::Error);
    assert!(Severity::Error < Severity::Fatal);
}

#[test]
fn test_severity_codes() {
    assert_eq!(Severity::Convention.code(), 'C');
    assert_eq!(Severity::Warning.code(), 'W');
    assert_eq!(Severity::Error.code(), 'E');
}

#[test]
fn test_category_display() {
    assert_eq!(Category::Layout.to_string(), "Layout");
    assert_eq!(Category::Style.to_string(), "Style");
    assert_eq!(Category::Lint.to_string(), "Lint");
    assert_eq!(Category::Naming.to_string(), "Naming");
}

#[test]
fn cop_severity_rank_follows_order() {
    let all = [Severity::Info, Severity::Refactor, Severity::Convention, Severity::Warning, Severity::Error, Severity::Fatal];
    for (k, s) in all.iter().enumerate() {
        assert_eq!(s.rank() as usize, k);
    }
    assert_eq!(Severity::Info.code(), 'I');
    assert_eq!(Severity::Refactor.code(), 'R');
    assert_eq!(Severity::Fatal.code(), 'F');
}

#[test]
fn cop_metrics_category_display() {
    assert_eq!(Category::Metrics.to_string(), "Metrics");
}
