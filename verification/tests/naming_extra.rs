use oxicop::cop::{Category, Cop, Severity};
use oxicop::source::SourceFile;
use oxicop::cops::naming_extra::{AccessorMethodName, AsciiIdentifiers, BinaryOperatorParameterName, BlockForwarding, BlockParameterName, ClassAndModuleCamelCase, FileName, HeredocDelimiterCase, HeredocDelimiterNaming, InclusiveLanguage, MemoizedInstanceVariableName, MethodParameterName, PredicateMethod, PredicatePrefix, RescuedExceptionsVariableName, VariableNumber, all_naming_extra_cops};

fn test_source(content: &str) -> SourceFile {
    SourceFile::from_string("test.rb", content.to_string())
}

#[test]
fn test_accessor_method_name() {
    let cop = AccessorMethodName;
    let source = test_source("def get_name\n  @name\nend\n");
    let offenses = cop.check(&source);
    assert_eq!(offenses.len(), 1);
    assert!(offenses[0].message.contains("name"));
}

#[test]
fn test_accessor_method_name_valid() {
    let cop = AccessorMethodName;
    let source = test_source("def name\n  @name\nend\n");
    let offenses = cop.check(&source);
    assert_eq!(offenses.len(), 0);
}

#[test]
fn test_ascii_identifiers() {
    let cop = AsciiIdentifiers;
    let source = test_source("def café\nend\n");
    let offenses = cop.check(&source);
    assert!(offenses.len() >= 1);
}

#[test]
fn test_binary_operator_parameter_name() {
    let cop = BinaryOperatorParameterName;
    let source = test_source("def +(value)\n  @x + value\nend\n");
    let offenses = cop.check(&source);
    assert_eq!(offenses.len(), 1);
    assert!(offenses[0].message.contains("other"));
}

#[test]
fn test_binary_operator_parameter_correct() {
    let cop = BinaryOperatorParameterName;
    let source = test_source("def +(other)\n  @x + other\nend\n");
    let offenses = cop.check(&source);
    assert_eq!(offenses.len(), 0);
}

#[test]
fn test_class_camel_case() {
    let cop = ClassAndModuleCamelCase;
    let source = test_source("class my_class\nend\n");
    let offenses = cop.check(&source);
    assert_eq!(offenses.len(), 1);
}

#[test]
fn test_heredoc_delimiter_case() {
    let cop = HeredocDelimiterCase;
    let source = test_source("sql = <<-Sql\nSELECT * FROM users\nSql\n");
    let offenses = cop.check(&source);
    assert_eq!(offenses.len(), 1);
}

#[test]
fn test_inclusive_language() {
    let cop = InclusiveLanguage;
    let source = test_source("whitelist = ['allowed']\n");
    let offenses = cop.check(&source);
    assert_eq!(offenses.len(), 1);
    assert!(offenses[0].message.contains("allowlist"));
}

#[test]
fn test_method_parameter_name() {
    let cop = MethodParameterName;
    let source = test_source("def process(x)\n  x * 2\nend\n");
    let offenses = cop.check(&source);
    assert_eq!(offenses.len(), 1);
}

#[test]
fn test_predicate_prefix() {
    let cop = PredicatePrefix;
    let source = test_source("def is_valid?\n  true\nend\n");
    let offenses = cop.check(&source);
    assert_eq!(offenses.len(), 1);
    assert!(offenses[0].message.contains("valid?"));
}

#[test]
fn test_rescued_exception_variable() {
    let cop = RescuedExceptionsVariableName;
    let source = test_source("rescue StandardError => error\n");
    let offenses = cop.check(&source);
    assert_eq!(offenses.len(), 1);
    assert!(offenses[0].message.contains("=> e"));
}

#[test]
fn test_rescued_exception_variable_correct() {
    let cop = RescuedExceptionsVariableName;
    let source = test_source("rescue StandardError => e\n");
    let offenses = cop.check(&source);
    assert_eq!(offenses.len(), 0);
}

fn text_of(o: &oxicop::offense::Offense) -> String {
    String::from_utf8(o.message.as_bytes().to_vec()).unwrap()
}

#[test]
fn naming_extra_accessor_message() {
    let offenses = AccessorMethodName.check(&test_source("  def set_value(v)\nend\n"));
    assert_eq!(offenses.len(), 1);
    assert_eq!(text_of(&offenses[0]), "Use `value` instead of `set_value`");
    assert_eq!(offenses[0].location.column, 1);
    assert_eq!(offenses[0].location.length, 15);
}

#[test]
fn naming_extra_predicate_prefix_message() {
    let offenses = PredicatePrefix.check(&test_source("def has_items?\nend\n"));
    assert_eq!(offenses.len(), 1);
    assert_eq!(text_of(&offenses[0]), "Avoid `has_` prefix. Use `items?` instead of `has_items?`");
}

#[test]
fn naming_extra_block_forwarding() {
    let offenses = BlockForwarding.check(&test_source("def run(a, &block)\nend\n"));
    assert_eq!(offenses.len(), 1);
    assert_eq!(offenses[0].location.length, 18);
}

#[test]
fn naming_extra_block_parameter_name() {
    let offenses = BlockParameterName.check(&test_source("items.each { |x| puts x }\nitems.each { |item| item }\n"));
    assert_eq!(offenses.len(), 1);
    assert_eq!(text_of(&offenses[0]), "Block parameter `x` is too short. Use descriptive names.");
    assert_eq!(offenses[0].location.column, 12);
}

#[test]
fn naming_extra_file_name() {
    let bad = SourceFile::from_string("lib/MyFile.rb", "x = 1\n".to_string());
    let offenses = FileName.check(&bad);
    assert_eq!(offenses.len(), 1);
    assert_eq!(text_of(&offenses[0]), "File name `MyFile.rb` should use snake_case");
    assert_eq!(offenses[0].location.line, 1);
    assert_eq!(offenses[0].location.length, 0);
    let good = SourceFile::from_string("lib/my_file.rb", "x = 1\n".to_string());
    assert_eq!(FileName.check(&good).len(), 0);
    let other = SourceFile::from_string("Rakefile", "x = 1\n".to_string());
    assert_eq!(FileName.check(&other).len(), 0);
}

#[test]
fn naming_extra_heredoc_naming() {
    let offenses = HeredocDelimiterNaming.check(&test_source("a = <<~EOS\nx\nEOS\nb = <<~SQL_QUERY\n"));
    assert_eq!(offenses.len(), 1);
    assert_eq!(text_of(&offenses[0]), "Use meaningful heredoc delimiter instead of `EOS`");
}

#[test]
fn naming_extra_heredoc_case_upper_ok() {
    assert_eq!(HeredocDelimiterCase.check(&test_source("sql = <<-SQL\nSQL\n")).len(), 0);
}

#[test]
fn naming_extra_inclusive_language_order() {
    let offenses = InclusiveLanguage.check(&test_source("master = blacklist\n"));
    assert_eq!(offenses.len(), 2);
    assert_eq!(text_of(&offenses[0]), "Use `denylist` instead of `blacklist`");
    assert_eq!(text_of(&offenses[1]), "Use `primary` instead of `master`");
    assert_eq!(offenses[1].location.column, 1);
}

#[test]
fn naming_extra_inclusive_language_in_comment() {
    assert_eq!(InclusiveLanguage.check(&test_source("x = 1 # whitelist\n")).len(), 0);
}

#[test]
fn naming_extra_memoized_variable() {
    let offenses = MemoizedInstanceVariableName.check(&test_source("def items = @list ||= []\ndef list = @list ||= []\n"));
    assert_eq!(offenses.len(), 1);
    assert_eq!(text_of(&offenses[0]), "Memoized variable `@list` should match method name `items`");
}

#[test]
fn naming_extra_predicate_method() {
    let offenses = PredicateMethod.check(&test_source("def is_ready\nend\n"));
    assert_eq!(offenses.len(), 1);
    assert_eq!(text_of(&offenses[0]), "Predicate methods should end with `?`");
}

#[test]
fn naming_extra_variable_number() {
    let offenses = VariableNumber.check(&test_source("item1a = 2\n"));
    assert_eq!(offenses.len(), 1);
    assert_eq!(text_of(&offenses[0]), "Variable `item1a` has poor number placement");
}

#[test]
fn naming_extra_all_cops() {
    let cops = all_naming_extra_cops();
    assert_eq!(cops.len(), 16);
    for c in &cops {
        assert_eq!(c.category(), Category::Naming);
        assert_eq!(c.severity(), Severity::Convention);
    }
}
