use oxicop::cop::{Category, Cop, Severity};
use oxicop::source::SourceFile;
use oxicop::cops::layout_extra::{AccessModifierIndentation, ArgumentAlignment, ArrayAlignment, CaseIndentation, ConditionPosition, DefEndAlignment, DotPosition, ElseAlignment, EmptyComment, EmptyLineAfterGuardClause, EmptyLineAfterMagicComment, EmptyLines, EndAlignment, ErrorA, ExtraSpacing, HashAlignment, IndentationConsistency, InitialIndentation, LeadingCommentSpace, LineLength, RescueEnsureAlignment, SpaceAfterColon, SpaceAfterMethodName, SpaceAfterNot, SpaceAfterSemicolon, SpaceBeforeComma, SpaceBeforeComment, SpaceBeforeSemicolon, SpaceInsideArrayLiteralBrackets, SpaceInsideHashLiteralBraces, SpaceInsideRangeLiteral};

fn test_source(content: &str) -> SourceFile {
    SourceFile::from_string("test.rb", content.to_string())
}

// LineLength tests
#[test]
fn test_line_length_pass() {
    let source = test_source("x = 1\n");
    let cop = LineLength;
    assert_eq!(cop.check(&source).len(), 0);
}

#[test]
fn test_line_length_fail() {
    let long_line = "x".repeat(121);
    let source = test_source(&long_line);
    let cop = LineLength;
    assert_eq!(cop.check(&source).len(), 1);
}

// EmptyComment tests
#[test]
fn test_empty_comment_pass() {
    let source = test_source("# This is a comment\n");
    let cop = EmptyComment;
    assert_eq!(cop.check(&source).len(), 0);
}

#[test]
fn test_empty_comment_fail() {
    let source = test_source("#\n");
    let cop = EmptyComment;
    assert_eq!(cop.check(&source).len(), 1);
}

// EmptyLines tests
#[test]
fn test_empty_lines_pass() {
    let source = test_source("x = 1\n\ny = 2\n");
    let cop = EmptyLines;
    assert_eq!(cop.check(&source).len(), 0);
}

#[test]
fn test_empty_lines_fail() {
    let source = test_source("x = 1\n\n\ny = 2\n");
    let cop = EmptyLines;
    assert_eq!(cop.check(&source).len(), 1);
}

// LeadingCommentSpace tests
#[test]
fn test_leading_comment_space_pass() {
    let source = test_source("# Good comment\n");
    let cop = LeadingCommentSpace;
    assert_eq!(cop.check(&source).len(), 0);
}

#[test]
fn test_leading_comment_space_fail() {
    let source = test_source("#Bad comment\n");
    let cop = LeadingCommentSpace;
    assert_eq!(cop.check(&source).len(), 1);
}

// ExtraSpacing tests
#[test]
fn test_extra_spacing_pass() {
    let source = test_source("x = 1 + 2\n");
    let cop = ExtraSpacing;
    assert_eq!(cop.check(&source).len(), 0);
}

#[test]
fn test_extra_spacing_fail() {
    let source = test_source("x = 1  + 2\n");
    let cop = ExtraSpacing;
    assert_eq!(cop.check(&source).len(), 1);
}

// SpaceAfterColon tests
#[test]
fn test_space_after_colon_pass() {
    let source = test_source("{a: 1}\n");
    let cop = SpaceAfterColon;
    assert_eq!(cop.check(&source).len(), 0);
}

#[test]
fn test_space_after_colon_fail() {
    let source = test_source("{a:1}\n");
    let cop = SpaceAfterColon;
    assert_eq!(cop.check(&source).len(), 1);
}

// SpaceAfterMethodName tests
#[test]
fn test_space_after_method_name_pass() {
    let source = test_source("def foo(x)\nend\n");
    let cop = SpaceAfterMethodName;
    assert_eq!(cop.check(&source).len(), 0);
}

#[test]
fn test_space_after_method_name_fail() {
    let source = test_source("def foo (x)\nend\n");
    let cop = SpaceAfterMethodName;
    assert_eq!(cop.check(&source).len(), 1);
}

// SpaceAfterNot tests
#[test]
fn test_space_after_not_pass() {
    let source = test_source("!x\n");
    let cop = SpaceAfterNot;
    assert_eq!(cop.check(&source).len(), 0);
}

#[test]
fn test_space_after_not_fail() {
    let source = test_source("! x\n");
    let cop = SpaceAfterNot;
    assert_eq!(cop.check(&source).len(), 1);
}

// SpaceAfterSemicolon tests
#[test]
fn test_space_after_semicolon_pass() {
    let source = test_source("x = 1; y = 2\n");
    let cop = SpaceAfterSemicolon;
    assert_eq!(cop.check(&source).len(), 0);
}

#[test]
fn test_space_after_semicolon_fail() {
    let source = test_source("x = 1;y = 2\n");
    let cop = SpaceAfterSemicolon;
    assert_eq!(cop.check(&source).len(), 1);
}

// SpaceBeforeComma tests
#[test]
fn test_space_before_comma_pass() {
    let source = test_source("[1, 2, 3]\n");
    let cop = SpaceBeforeComma;
    assert_eq!(cop.check(&source).len(), 0);
}

#[test]
fn test_space_before_comma_fail() {
    let source = test_source("[1 , 2]\n");
    let cop = SpaceBeforeComma;
    assert_eq!(cop.check(&source).len(), 1);
}

// SpaceBeforeComment tests
#[test]
fn test_space_before_comment_pass() {
    let source = test_source("x = 1 # comment\n");
    let cop = SpaceBeforeComment;
    assert_eq!(cop.check(&source).len(), 0);
}

#[test]
fn test_space_before_comment_fail() {
    let source = test_source("x = 1# comment\n");
    let cop = SpaceBeforeComment;
    assert_eq!(cop.check(&source).len(), 1);
}

// SpaceBeforeSemicolon tests
#[test]
fn test_space_before_semicolon_pass() {
    let source = test_source("x = 1; y = 2\n");
    let cop = SpaceBeforeSemicolon;
    assert_eq!(cop.check(&source).len(), 0);
}

#[test]
fn test_space_before_semicolon_fail() {
    let source = test_source("x = 1 ;\n");
    let cop = SpaceBeforeSemicolon;
    assert_eq!(cop.check(&source).len(), 1);
}

// SpaceInsideArrayLiteralBrackets tests
#[test]
fn test_space_inside_array_pass() {
    let source = test_source("[1, 2, 3]\n");
    let cop = SpaceInsideArrayLiteralBrackets;
    assert_eq!(cop.check(&source).len(), 0);
}

#[test]
fn test_space_inside_array_fail() {
    let source = test_source("[ 1, 2 ]\n");
    let cop = SpaceInsideArrayLiteralBrackets;
    assert!(!cop.check(&source).is_empty());
}

// SpaceInsideHashLiteralBraces tests
#[test]
fn test_space_inside_hash_pass() {
    let source = test_source("{a: 1}\n");
    let cop = SpaceInsideHashLiteralBraces;
    assert_eq!(cop.check(&source).len(), 0);
}

#[test]
fn test_space_inside_hash_fail() {
    let source = test_source("{ a: 1 }\n");
    let cop = SpaceInsideHashLiteralBraces;
    assert!(!cop.check(&source).is_empty());
}

// SpaceInsideRangeLiteral tests
#[test]
fn test_space_inside_range_pass() {
    let source = test_source("1..10\n");
    let cop = SpaceInsideRangeLiteral;
    assert_eq!(cop.check(&source).len(), 0);
}

#[test]
fn test_space_inside_range_fail() {
    let source = test_source("1 .. 10\n");
    let cop = SpaceInsideRangeLiteral;
    assert!(!cop.check(&source).is_empty());
}

// Additional tests for remaining cops
#[test]
fn test_initial_indentation_pass() {
    let source = test_source("x = 1\n");
    let cop = InitialIndentation;
    assert_eq!(cop.check(&source).len(), 0);
}

#[test]
fn test_initial_indentation_fail() {
    let source = test_source("  x = 1\n");
    let cop = InitialIndentation;
    assert_eq!(cop.check(&source).len(), 1);
}

#[test]
fn test_indentation_consistency_pass() {
    let source = test_source("  x = 1\n  y = 2\n");
    let cop = IndentationConsistency;
    assert_eq!(cop.check(&source).len(), 0);
}

#[test]
fn test_indentation_consistency_fail() {
    let source = test_source("  x = 1\n\ty = 2\n");
    let cop = IndentationConsistency;
    assert_eq!(cop.check(&source).len(), 1);
}

#[test]
fn test_dot_position_pass() {
    let source = test_source("foo\n  .bar\n");
    let cop = DotPosition;
    assert_eq!(cop.check(&source).len(), 0);
}

#[test]
fn test_dot_position_fail() {
    let source = test_source("foo.\n  bar\n");
    let cop = DotPosition;
    assert_eq!(cop.check(&source).len(), 1);
}

#[test]
fn test_condition_position_pass() {
    let source = test_source("if x > 1\nend\n");
    let cop = ConditionPosition;
    assert_eq!(cop.check(&source).len(), 0);
}

#[test]
fn test_condition_position_fail() {
    let source = test_source("if\n  x > 1\nend\n");
    let cop = ConditionPosition;
    assert_eq!(cop.check(&source).len(), 1);
}

#[test]
fn test_empty_line_after_magic_comment_pass() {
    let source = test_source("# frozen_string_literal: true\n\nx = 1\n");
    let cop = EmptyLineAfterMagicComment;
    assert_eq!(cop.check(&source).len(), 0);
}

#[test]
fn test_empty_line_after_magic_comment_fail() {
    let source = test_source("# frozen_string_literal: true\nx = 1\n");
    let cop = EmptyLineAfterMagicComment;
    assert_eq!(cop.check(&source).len(), 1);
}

#[test]
fn test_empty_line_after_guard_clause_pass() {
    let source = test_source("return if x\n\ny = 1\n");
    let cop = EmptyLineAfterGuardClause;
    assert_eq!(cop.check(&source).len(), 0);
}

#[test]
fn test_empty_line_after_guard_clause_fail() {
    let source = test_source("return if x\ny = 1\n");
    let cop = EmptyLineAfterGuardClause;
    assert_eq!(cop.check(&source).len(), 1);
}

#[test]
fn test_case_indentation_pass() {
    let source = test_source("case x\n  when 1\nend\n");
    let cop = CaseIndentation;
    assert_eq!(cop.check(&source).len(), 0);
}

#[test]
fn test_case_indentation_fail() {
    let source = test_source("when 1\n");
    let cop = CaseIndentation;
    assert_eq!(cop.check(&source).len(), 1);
}

// Placeholder tests for simplified cops
#[test]
fn test_simplified_cops_dont_crash() {
    let source = test_source("x = 1\n");
    
    // Test that all simplified cops at least don't crash
    assert_eq!(EndAlignment.check(&source).len(), 0);
    assert_eq!(DefEndAlignment.check(&source).len(), 0);
    assert_eq!(ElseAlignment.check(&source).len(), 0);
    assert_eq!(RescueEnsureAlignment.check(&source).len(), 0);
    assert_eq!(AccessModifierIndentation.check(&source).len(), 0);
    assert_eq!(ArgumentAlignment.check(&source).len(), 0);
    assert_eq!(ArrayAlignment.check(&source).len(), 0);
    assert_eq!(HashAlignment.check(&source).len(), 0);
    assert_eq!(ErrorA.check(&source).len(), 0);
}

#[test]
fn test_initial_indentation_ideographic_space() {
    let source = test_source("\u{3000}x = 1\n");
    let offenses = InitialIndentation.check(&source);
    assert_eq!(offenses.len(), 1);
    assert_eq!(offenses[0].location.length, 3);
}
