use oxicop::cop::{Category, Cop, Severity};
use oxicop::source::SourceFile;
use oxicop::cops::lint_extra::{AmbiguousAssignment, AmbiguousOperator, AmbiguousRange, AssignmentInCondition, BigDecimalNew, BinaryOperatorWithIdenticalOperands, BooleanSymbol, ConstantDefinitionInBlock, DeprecatedClassMethods, DuplicateHashKey, EmptyBlock, EmptyFile, EmptyInterpolation, FloatComparison, Loop, RandOne, RedundantStringCoercion, RescueException, SelfAssignment, SuppressedException, all_lint_extra_cops};

fn test_source(content: &str) -> SourceFile {
    SourceFile::from_string("test.rb", content.to_string())
}

#[test]
fn test_ambiguous_assignment() {
    let cop = AmbiguousAssignment;
    let source = test_source("x =+ 1\n");
    let offenses = cop.check(&source);
    assert_eq!(offenses.len(), 1);
    assert!(offenses[0].message.contains("=+"));
}

#[test]
fn test_ambiguous_assignment_correct() {
    let cop = AmbiguousAssignment;
    let source = test_source("x += 1\n");
    let offenses = cop.check(&source);
    assert_eq!(offenses.len(), 0);
}

#[test]
fn test_bigdecimal_new() {
    let cop = BigDecimalNew;
    let source = test_source("x = BigDecimal.new('1.5')\n");
    let offenses = cop.check(&source);
    assert_eq!(offenses.len(), 1);
    assert!(offenses[0].message.contains("BigDecimal()"));
}

#[test]
fn test_binary_identical_operands() {
    let cop = BinaryOperatorWithIdenticalOperands;
    let source = test_source("if x == x\nend\n");
    let offenses = cop.check(&source);
    assert_eq!(offenses.len(), 1);
}

#[test]
fn test_boolean_symbol() {
    let cop = BooleanSymbol;
    let source = test_source("hash = { value: :true }\n");
    let offenses = cop.check(&source);
    assert_eq!(offenses.len(), 1);
}

#[test]
fn test_deprecated_class_methods() {
    let cop = DeprecatedClassMethods;
    let source = test_source("if File.exists?('path')\nend\n");
    let offenses = cop.check(&source);
    assert_eq!(offenses.len(), 1);
    assert!(offenses[0].message.contains("File.exist?"));
}

#[test]
fn test_empty_block() {
    let cop = EmptyBlock;
    let source = test_source("items.each { }\n");
    let offenses = cop.check(&source);
    assert_eq!(offenses.len(), 1);
}

#[test]
fn lint_extra_test_empty_file() {
    let cop = EmptyFile;
    let source = test_source("");
    let offenses = cop.check(&source);
    assert_eq!(offenses.len(), 1);
}

#[test]
fn test_empty_interpolation() {
    let cop = EmptyInterpolation;
    let source = test_source("\"Hello #{} world\"\n");
    let offenses = cop.check(&source);
    assert_eq!(offenses.len(), 1);
}

#[test]
fn test_float_comparison() {
    let cop = FloatComparison;
    let source = test_source("if value.to_f == 3.14\nend\n");
    let offenses = cop.check(&source);
    assert_eq!(offenses.len(), 1);
}

#[test]
fn test_loop_while_true() {
    let cop = Loop;
    let source = test_source("while true\n  break if done\nend\n");
    let offenses = cop.check(&source);
    assert_eq!(offenses.len(), 1);
    assert!(offenses[0].message.contains("loop"));
}

#[test]
fn test_rand_one() {
    let cop = RandOne;
    let source = test_source("x = rand(1)\n");
    let offenses = cop.check(&source);
    assert_eq!(offenses.len(), 1);
}

#[test]
fn test_redundant_string_coercion() {
    let cop = RedundantStringCoercion;
    let source = test_source("\"Value: #{x.to_s}\"\n");
    let offenses = cop.check(&source);
    assert_eq!(offenses.len(), 1);
}

#[test]
fn test_rescue_exception() {
    let cop = RescueException;
    let source = test_source("begin\n  risky\nrescue Exception\nend\n");
    let offenses = cop.check(&source);
    assert_eq!(offenses.len(), 1);
}

#[test]
fn test_self_assignment() {
    let cop = SelfAssignment;
    let source = test_source("x = x\n");
    let offenses = cop.check(&source);
    assert_eq!(offenses.len(), 1);
}

#[test]
fn test_suppressed_exception() {
    let cop = SuppressedException;
    let source = test_source("begin\n  risky\nrescue\nend\n");
    let offenses = cop.check(&source);
    assert_eq!(offenses.len(), 1);
}

fn text_of(o: &oxicop::offense::Offense) -> String {
    String::from_utf8(o.message.as_bytes().to_vec()).unwrap()
}

#[test]
fn lint_extra_ambiguous_assignment_message() {
    let offenses = AmbiguousAssignment.check(&test_source("count =- 1\n"));
    assert_eq!(offenses.len(), 1);
    assert_eq!(text_of(&offenses[0]), "Suspicious assignment '=-'. Did you mean '+='?");
    assert_eq!(offenses[0].location.column, 1);
    assert_eq!(offenses[0].location.length, 9);
}

#[test]
fn lint_extra_ambiguous_operator_and_range() {
    assert_eq!(AmbiguousOperator.check(&test_source("puts(-x)\n")).len(), 0);
    assert_eq!(AmbiguousOperator.check(&test_source("a + b\n")).len(), 1);
    assert_eq!(AmbiguousRange.check(&test_source("r = 1..-1\n")).len(), 1);
}

#[test]
fn lint_extra_assignment_in_condition_column() {
    let offenses = AssignmentInCondition.check(&test_source("if (x == 1) && y = 2\nend\n"));
    assert_eq!(offenses.len(), 1);
    assert_eq!(offenses[0].location.column, 18);
    assert_eq!(offenses[0].location.length, 1);
    assert_eq!(text_of(&offenses[0]), "Assignment in condition - use comparison or wrap in parentheses.");
}

#[test]
fn lint_extra_assignment_in_condition_comparisons_only() {
    assert_eq!(AssignmentInCondition.check(&test_source("if a == b && c != d\nend\n")).len(), 0);
    assert_eq!(AssignmentInCondition.check(&test_source("# if a = b\n")).len(), 0);
}

#[test]
fn lint_extra_assignment_in_condition_char_column() {
    let offenses = AssignmentInCondition.check(&test_source("if é = 1\n"));
    assert_eq!(offenses.len(), 1);
    assert_eq!(offenses[0].location.column, 6);
}

#[test]
fn lint_extra_identical_operands_message() {
    let offenses = BinaryOperatorWithIdenticalOperands.check(&test_source("ok = a == a\nok = a == b\n"));
    assert_eq!(offenses.len(), 1);
    assert_eq!(text_of(&offenses[0]), "Binary operator with identical operands: `a == a`");
    assert_eq!(offenses[0].location.column, 6);
}

#[test]
fn lint_extra_boolean_symbol_message() {
    let offenses = BooleanSymbol.check(&test_source("x = :false\n"));
    assert_eq!(text_of(&offenses[0]), "Avoid using `:false` - use boolean instead.");
}

#[test]
fn lint_extra_constant_in_block() {
    let offenses = ConstantDefinitionInBlock.check(&test_source("items.each do |i|\n  LIMIT = 3\nend\nTOP = 1\n"));
    assert_eq!(offenses.len(), 1);
    assert_eq!(offenses[0].location.line, 2);
    assert_eq!(offenses[0].location.column, 3);
    assert_eq!(text_of(&offenses[0]), "Do not define constants in blocks.");
}

#[test]
fn lint_extra_deprecated_dir_exists() {
    let offenses = DeprecatedClassMethods.check(&test_source("Dir.exists?(d)\n"));
    assert_eq!(offenses.len(), 1);
    assert_eq!(text_of(&offenses[0]), "`Dir.exists?` is deprecated. Use `Dir.exist?` instead.");
}

#[test]
fn lint_extra_empty_file_location() {
    let offenses = EmptyFile.check(&test_source(""));
    assert_eq!(offenses[0].location.line, 1);
    assert_eq!(offenses[0].location.column, 1);
    assert_eq!(offenses[0].location.length, 0);
    assert_eq!(EmptyFile.check(&test_source("\n")).len(), 0);
}

#[test]
fn lint_extra_empty_interpolation_inside_string() {
    let offenses = EmptyInterpolation.check(&test_source("s = \"a#{}b\"\n"));
    assert_eq!(offenses.len(), 1);
    assert_eq!(offenses[0].location.column, 7);
    assert_eq!(offenses[0].location.length, 3);
}

#[test]
fn lint_extra_float_comparison_needs_float_sign() {
    assert_eq!(FloatComparison.check(&test_source("if a == b\nend\n")).len(), 0);
    assert_eq!(FloatComparison.check(&test_source("if x == 1.0\nend\n")).len(), 1);
}

#[test]
fn lint_extra_self_assignment_message() {
    let offenses = SelfAssignment.check(&test_source("total = total\ntotal = other\n"));
    assert_eq!(offenses.len(), 1);
    assert_eq!(text_of(&offenses[0]), "Self-assignment detected: `total = total`");
}

#[test]
fn lint_extra_suppressed_exception_location() {
    let offenses = SuppressedException.check(&test_source("begin\n  x\n  rescue  \nend\n"));
    assert_eq!(offenses.len(), 1);
    assert_eq!(offenses[0].location.line, 3);
    assert_eq!(offenses[0].location.length, 10);
}

#[test]
fn lint_extra_quiet_cops() {
    let source = test_source("x = rand(2)\nloop do\nend\n{ a: 1, a: 2 }\n");
    assert_eq!(RandOne.check(&source).len(), 0);
    assert_eq!(Loop.check(&source).len(), 0);
    assert_eq!(DuplicateHashKey.check(&source).len(), 0);
    assert_eq!(BigDecimalNew.check(&source).len(), 0);
    assert_eq!(RescueException.check(&source).len(), 0);
    assert_eq!(RedundantStringCoercion.check(&source).len(), 0);
    assert_eq!(EmptyBlock.check(&source).len(), 0);
}

#[test]
fn lint_extra_all_cops() {
    let cops = all_lint_extra_cops();
    assert_eq!(cops.len(), 150);
    for c in &cops {
        assert_eq!(c.category(), Category::Lint);
        assert_eq!(c.severity(), Severity::Warning);
        assert!(c.name().starts_with("Lint/"));
    }
}
