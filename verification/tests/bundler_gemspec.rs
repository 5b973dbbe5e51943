use oxicop::cop::{Category, Cop, Severity};
use oxicop::source::SourceFile;
use oxicop::cops::bundler_gemspec::{AddRuntimeDependency, AttributeAssignment, DependencyVersion, DeprecatedAttributeAssignment, DevelopmentDependencies, DuplicatedAssignment, DuplicatedGem, DuplicatedGroup, GemComment, GemFilename, GemVersion, InsecureProtocolSource, OrderedDependencies, OrderedGems, RequireMFA, RequiredRubyVersion, RubyVersionGlobalsUsage};

fn test_source(content: &str) -> SourceFile {
    SourceFile::from_string("Gemfile", content.to_string())
}

fn test_gemspec(content: &str) -> SourceFile {
    SourceFile::from_string("test.gemspec", content.to_string())
}

// ===== DuplicatedGem Tests =====

#[test]
fn test_duplicated_gem_no_duplicates() {
    let source = test_source("gem 'rails'\ngem 'rspec'\n");
    let cop = DuplicatedGem;
    let offenses = cop.check(&source);
    assert_eq!(offenses.len(), 0);
}

#[test]
fn test_duplicated_gem_with_duplicate() {
    let source = test_source("gem 'rails'\ngem 'rspec'\ngem 'rails'\n");
    let cop = DuplicatedGem;
    let offenses = cop.check(&source);
    assert_eq!(offenses.len(), 1);
    assert!(offenses[0].message.contains("rails"));
}

// ===== DuplicatedGroup Tests =====

#[test]
fn test_duplicated_group_no_duplicates() {
    let source = test_source("group :development do\nend\ngroup :test do\nend\n");
    let cop = DuplicatedGroup;
    let offenses = cop.check(&source);
    assert_eq!(offenses.len(), 0);
}

#[test]
fn test_duplicated_group_with_duplicate() {
    let source = test_source("group :development do\nend\ngroup :development do\nend\n");
    let cop = DuplicatedGroup;
    let offenses = cop.check(&source);
    assert_eq!(offenses.len(), 1);
    assert!(offenses[0].message.contains("development"));
}

// ===== GemComment Tests =====

#[test]
fn test_gem_comment_with_comment() {
    let source = test_source("# Web framework\ngem 'rails'\n");
    let cop = GemComment;
    let offenses = cop.check(&source);
    assert_eq!(offenses.len(), 0);
}

#[test]
fn test_gem_comment_without_comment() {
    let source = test_source("gem 'rails'\n");
    let cop = GemComment;
    let offenses = cop.check(&source);
    assert_eq!(offenses.len(), 1);
    assert!(offenses[0].message.contains("comment"));
}

#[test]
fn test_gem_comment_inline_comment() {
    let source = test_source("gem 'rails' # Web framework\n");
    let cop = GemComment;
    let offenses = cop.check(&source);
    assert_eq!(offenses.len(), 0);
}

// ===== GemFilename Tests =====

#[test]
fn test_gem_filename_correct() {
    let source = SourceFile::from_string("Gemfile", "gem 'rails'\n".to_string());
    let cop = GemFilename;
    let offenses = cop.check(&source);
    assert_eq!(offenses.len(), 0);
}

#[test]
fn test_gem_filename_incorrect() {
    let source = SourceFile::from_string("gemfile", "gem 'rails'\n".to_string());
    let cop = GemFilename;
    let offenses = cop.check(&source);
    assert_eq!(offenses.len(), 1);
    assert!(offenses[0].message.contains("Gemfile"));
}

// ===== GemVersion Tests =====

#[test]
fn test_gem_version_with_version() {
    let source = test_source("gem 'rails', '~> 7.0'\n");
    let cop = GemVersion;
    let offenses = cop.check(&source);
    assert_eq!(offenses.len(), 0);
}

#[test]
fn test_gem_version_without_version() {
    let source = test_source("gem 'rails'\n");
    let cop = GemVersion;
    let offenses = cop.check(&source);
    assert_eq!(offenses.len(), 1);
    assert!(offenses[0].message.contains("version constraint"));
}

// ===== InsecureProtocolSource Tests =====

#[test]
fn test_insecure_protocol_https() {
    let source = test_source("source 'https://rubygems.org'\n");
    let cop = InsecureProtocolSource;
    let offenses = cop.check(&source);
    assert_eq!(offenses.len(), 0);
}

#[test]
fn test_insecure_protocol_http() {
    let source = test_source("source 'http://rubygems.org'\n");
    let cop = InsecureProtocolSource;
    let offenses = cop.check(&source);
    assert_eq!(offenses.len(), 1);
    assert!(offenses[0].message.contains("https"));
}

// ===== OrderedGems Tests =====

#[test]
fn test_ordered_gems_sorted() {
    let source = test_source("gem 'rails'\ngem 'rspec'\ngem 'sqlite3'\n");
    let cop = OrderedGems;
    let offenses = cop.check(&source);
    assert_eq!(offenses.len(), 0);
}

#[test]
fn test_ordered_gems_unsorted() {
    let source = test_source("gem 'rspec'\ngem 'rails'\n");
    let cop = OrderedGems;
    let offenses = cop.check(&source);
    assert_eq!(offenses.len(), 1);
    assert!(offenses[0].message.contains("sorted"));
}

// ===== AddRuntimeDependency Tests =====

#[test]
fn test_add_runtime_dependency_correct() {
    let source = test_gemspec("spec.add_dependency 'rails'\n");
    let cop = AddRuntimeDependency;
    let offenses = cop.check(&source);
    assert_eq!(offenses.len(), 0);
}

#[test]
fn test_add_runtime_dependency_incorrect() {
    let source = test_gemspec("spec.add_runtime_dependency 'rails'\n");
    let cop = AddRuntimeDependency;
    let offenses = cop.check(&source);
    assert_eq!(offenses.len(), 1);
    assert!(offenses[0].message.contains("add_dependency"));
}

// ===== AttributeAssignment Tests =====

#[test]
fn test_attribute_assignment_unconditional() {
    let source = test_gemspec("spec.name = 'mygem'\n");
    let cop = AttributeAssignment;
    let offenses = cop.check(&source);
    assert_eq!(offenses.len(), 0);
}

#[test]
fn test_attribute_assignment_conditional() {
    let source = test_gemspec("if true\n  spec.name = 'mygem'\nend\n");
    let cop = AttributeAssignment;
    let offenses = cop.check(&source);
    assert_eq!(offenses.len(), 1);
    assert!(offenses[0].message.contains("conditionally"));
}

// ===== DependencyVersion Tests =====

#[test]
fn test_dependency_version_with_version() {
    let source = test_gemspec("spec.add_dependency 'rails', '~> 7.0'\n");
    let cop = DependencyVersion;
    let offenses = cop.check(&source);
    assert_eq!(offenses.len(), 0);
}

#[test]
fn test_dependency_version_without_version() {
    let source = test_gemspec("spec.add_dependency 'rails'\n");
    let cop = DependencyVersion;
    let offenses = cop.check(&source);
    assert_eq!(offenses.len(), 1);
    assert!(offenses[0].message.contains("version constraint"));
}

// ===== DeprecatedAttributeAssignment Tests =====

#[test]
fn test_deprecated_attribute_clean() {
    let source = test_gemspec("spec.name = 'mygem'\n");
    let cop = DeprecatedAttributeAssignment;
    let offenses = cop.check(&source);
    assert_eq!(offenses.len(), 0);
}

#[test]
fn test_deprecated_attribute_rubyforge() {
    let source = test_gemspec("spec.rubyforge_project = 'mygem'\n");
    let cop = DeprecatedAttributeAssignment;
    let offenses = cop.check(&source);
    assert_eq!(offenses.len(), 1);
    assert!(offenses[0].message.contains("Deprecated"));
}

// ===== DevelopmentDependencies Tests =====

#[test]
fn test_development_dependencies_correct() {
    let source = test_gemspec("spec.add_development_dependency 'rspec'\n");
    let cop = DevelopmentDependencies;
    let offenses = cop.check(&source);
    assert_eq!(offenses.len(), 0);
}

#[test]
fn test_development_dependencies_gem_in_gemspec() {
    let source = test_gemspec("gem 'rspec'\n");
    let cop = DevelopmentDependencies;
    let offenses = cop.check(&source);
    assert_eq!(offenses.len(), 1);
    assert!(offenses[0].message.contains("add_development_dependency"));
}

// ===== DuplicatedAssignment Tests =====

#[test]
fn test_duplicated_assignment_no_duplicates() {
    let source = test_gemspec("spec.name = 'mygem'\nspec.version = '1.0'\n");
    let cop = DuplicatedAssignment;
    let offenses = cop.check(&source);
    assert_eq!(offenses.len(), 0);
}

#[test]
fn test_duplicated_assignment_with_duplicate() {
    let source = test_gemspec("spec.name = 'mygem'\nspec.name = 'othergem'\n");
    let cop = DuplicatedAssignment;
    let offenses = cop.check(&source);
    assert_eq!(offenses.len(), 1);
    assert!(offenses[0].message.contains("name"));
}

// ===== OrderedDependencies Tests =====

#[test]
fn test_ordered_dependencies_sorted() {
    let source = test_gemspec("spec.add_dependency 'rails'\nspec.add_dependency 'rspec'\n");
    let cop = OrderedDependencies;
    let offenses = cop.check(&source);
    assert_eq!(offenses.len(), 0);
}

#[test]
fn test_ordered_dependencies_unsorted() {
    let source = test_gemspec("spec.add_dependency 'rspec'\nspec.add_dependency 'rails'\n");
    let cop = OrderedDependencies;
    let offenses = cop.check(&source);
    assert_eq!(offenses.len(), 1);
    assert!(offenses[0].message.contains("sorted"));
}

// ===== RequireMFA Tests =====

#[test]
fn test_require_mfa_present() {
    let source = test_gemspec("spec.metadata['mfa_required'] = 'true'\n");
    let cop = RequireMFA;
    let offenses = cop.check(&source);
    assert_eq!(offenses.len(), 0);
}

#[test]
fn test_require_mfa_missing() {
    let source = test_gemspec("spec.metadata['homepage'] = 'http://example.com'\n");
    let cop = RequireMFA;
    let offenses = cop.check(&source);
    assert_eq!(offenses.len(), 1);
    assert!(offenses[0].message.contains("MFA"));
}

// ===== RequiredRubyVersion Tests =====

#[test]
fn test_required_ruby_version_present() {
    let source = test_gemspec("spec.required_ruby_version = '>= 2.7'\n");
    let cop = RequiredRubyVersion;
    let offenses = cop.check(&source);
    assert_eq!(offenses.len(), 0);
}

#[test]
fn test_required_ruby_version_missing() {
    let source = test_gemspec("spec.name = 'mygem'\n");
    let cop = RequiredRubyVersion;
    let offenses = cop.check(&source);
    assert_eq!(offenses.len(), 1);
    assert!(offenses[0].message.contains("required_ruby_version"));
}

// ===== RubyVersionGlobalsUsage Tests =====

#[test]
fn test_ruby_version_globals_clean() {
    let source = test_gemspec("spec.required_ruby_version = '>= 2.7'\n");
    let cop = RubyVersionGlobalsUsage;
    let offenses = cop.check(&source);
    assert_eq!(offenses.len(), 0);
}

#[test]
fn test_ruby_version_globals_usage() {
    let source = test_gemspec("if RUBY_VERSION >= '2.7'\n  spec.name = 'mygem'\nend\n");
    let cop = RubyVersionGlobalsUsage;
    let offenses = cop.check(&source);
    assert_eq!(offenses.len(), 1);
    assert!(offenses[0].message.contains("Gem::Version"));
}
