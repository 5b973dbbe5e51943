use oxicop::cop::{Category, Cop, Severity};
use oxicop::source::SourceFile;
use oxicop::cops::layout::{EmptyLineBetweenDefs, EndOfLine, IndentationStyle, IndentationWidth, LeadingEmptyLines, SpaceAfterComma, SpaceAroundOperators, SpaceInsideParens, TrailingEmptyLines, TrailingWhitespace};

fn test_source(content: &str) -> SourceFile {
    SourceFile::from_string("test.rb", content.to_string())
}

// ========================================================================
// TrailingWhitespace tests
// ========================================================================

#[test]
fn test_trailing_whitespace_no_offense() {
    let source = test_source("def foo\n  bar\nend\n");
    let cop = TrailingWhitespace;
    let offenses = cop.check(&source);
    assert_eq!(offenses.len(), 0);
}

#[test]
fn test_trailing_whitespace_with_spaces() {
    let source = test_source("def foo  \n  bar\nend\n");
    let cop = TrailingWhitespace;
    let offenses = cop.check(&source);
    assert_eq!(offenses.len(), 1);
    assert_eq!(offenses[0].location.line, 1);
}

#[test]
fn test_trailing_whitespace_skip_blank_lines() {
    let source = test_source("def foo\n  \nend\n");
    let cop = TrailingWhitespace;
    let offenses = cop.check(&source);
    assert_eq!(offenses.len(), 0);
}

#[test]
fn test_trailing_whitespace_empty_file() {
    let source = test_source("");
    let cop = TrailingWhitespace;
    let offenses = cop.check(&source);
    assert_eq!(offenses.len(), 0);
}

#[test]
fn test_trailing_whitespace_multiple_lines() {
    let source = test_source("line1  \nline2\nline3 \n");
    let cop = TrailingWhitespace;
    let offenses = cop.check(&source);
    assert_eq!(offenses.len(), 2);
}

// ========================================================================
// TrailingEmptyLines tests
// ========================================================================

#[test]
fn test_trailing_empty_lines_correct() {
    let source = test_source("def foo\n  bar\nend\n");
    let cop = TrailingEmptyLines;
    let offenses = cop.check(&source);
    assert_eq!(offenses.len(), 0);
}

#[test]
fn test_trailing_empty_lines_missing_newline() {
    let source = test_source("def foo\n  bar\nend");
    let cop = TrailingEmptyLines;
    let offenses = cop.check(&source);
    assert_eq!(offenses.len(), 1);
    assert!(offenses[0].message.contains("should end with a newline"));
}

#[test]
fn test_trailing_empty_lines_too_many() {
    let source = test_source("def foo\n  bar\nend\n\n\n");
    let cop = TrailingEmptyLines;
    let offenses = cop.check(&source);
    assert_eq!(offenses.len(), 1);
    assert!(offenses[0].message.contains("trailing blank lines"));
}

#[test]
fn test_trailing_empty_lines_empty_file() {
    let source = test_source("");
    let cop = TrailingEmptyLines;
    let offenses = cop.check(&source);
    assert_eq!(offenses.len(), 0);
}

// ========================================================================
// LeadingEmptyLines tests
// ========================================================================

#[test]
fn test_leading_empty_lines_no_offense() {
    let source = test_source("def foo\n  bar\nend\n");
    let cop = LeadingEmptyLines;
    let offenses = cop.check(&source);
    assert_eq!(offenses.len(), 0);
}

#[test]
fn test_leading_empty_lines_with_leading() {
    let source = test_source("\n\ndef foo\n  bar\nend\n");
    let cop = LeadingEmptyLines;
    let offenses = cop.check(&source);
    assert_eq!(offenses.len(), 1);
    assert!(offenses[0].message.contains("2 leading empty lines"));
}

#[test]
fn test_leading_empty_lines_empty_file() {
    let source = test_source("");
    let cop = LeadingEmptyLines;
    let offenses = cop.check(&source);
    assert_eq!(offenses.len(), 0);
}

#[test]
fn test_leading_empty_lines_single_leading() {
    let source = test_source("\ncode\n");
    let cop = LeadingEmptyLines;
    let offenses = cop.check(&source);
    assert_eq!(offenses.len(), 1);
}

// ========================================================================
// EndOfLine tests
// ========================================================================

#[test]
fn test_end_of_line_lf_only() {
    let source = test_source("def foo\n  bar\nend\n");
    let cop = EndOfLine;
    let offenses = cop.check(&source);
    assert_eq!(offenses.len(), 0);
}

#[test]
fn test_end_of_line_crlf() {
    let source = SourceFile::from_string(
        "test.rb",
        "def foo\r\n  bar\r\nend\r\n".to_string(),
    );
    let cop = EndOfLine;
    let offenses = cop.check(&source);
    assert_eq!(offenses.len(), 3);
}

#[test]
fn test_end_of_line_mixed() {
    let source = SourceFile::from_string(
        "test.rb",
        "line1\nline2\r\nline3\n".to_string(),
    );
    let cop = EndOfLine;
    let offenses = cop.check(&source);
    assert_eq!(offenses.len(), 1);
}

#[test]
fn test_end_of_line_empty() {
    let source = test_source("");
    let cop = EndOfLine;
    let offenses = cop.check(&source);
    assert_eq!(offenses.len(), 0);
}

// ========================================================================
// IndentationStyle tests
// ========================================================================

#[test]
fn test_indentation_style_spaces_only() {
    let source = test_source("def foo\n  bar\nend\n");
    let cop = IndentationStyle;
    let offenses = cop.check(&source);
    assert_eq!(offenses.len(), 0);
}

#[test]
fn test_indentation_style_with_tabs() {
    let source = test_source("def foo\n\tbar\nend\n");
    let cop = IndentationStyle;
    let offenses = cop.check(&source);
    assert_eq!(offenses.len(), 1);
    assert!(offenses[0].message.contains("spaces for indentation"));
}

#[test]
fn test_indentation_style_tabs_not_leading() {
    let source = test_source("def foo\n  bar\tbaz\nend\n");
    let cop = IndentationStyle;
    let offenses = cop.check(&source);
    assert_eq!(offenses.len(), 0);
}

#[test]
fn test_indentation_style_empty() {
    let source = test_source("");
    let cop = IndentationStyle;
    let offenses = cop.check(&source);
    assert_eq!(offenses.len(), 0);
}

// ========================================================================
// IndentationWidth tests
// ========================================================================

#[test]
fn test_indentation_width_correct() {
    let source = test_source("def foo\n  bar\nend\n");
    let cop = IndentationWidth;
    let offenses = cop.check(&source);
    assert_eq!(offenses.len(), 0);
}

#[test]
fn test_indentation_width_incorrect() {
    let source = test_source("def foo\n    bar\nend\n");
    let cop = IndentationWidth;
    let offenses = cop.check(&source);
    assert_eq!(offenses.len(), 1);
    assert!(offenses[0].message.contains("expected 2 spaces, found 4"));
}

#[test]
fn test_indentation_width_nested() {
    let source = test_source("class Foo\n  def bar\n    baz\n  end\nend\n");
    let cop = IndentationWidth;
    let offenses = cop.check(&source);
    assert_eq!(offenses.len(), 0);
}

#[test]
fn test_indentation_width_empty() {
    let source = test_source("");
    let cop = IndentationWidth;
    let offenses = cop.check(&source);
    assert_eq!(offenses.len(), 0);
}

#[test]
fn test_indentation_width_if_block() {
    let source = test_source("if condition\n  do_something\nend\n");
    let cop = IndentationWidth;
    let offenses = cop.check(&source);
    assert_eq!(offenses.len(), 0);
}

// ========================================================================
// SpaceAfterComma tests
// ========================================================================

#[test]
fn test_space_after_comma_correct() {
    let source = test_source("foo(a, b, c)\n");
    let cop = SpaceAfterComma;
    let offenses = cop.check(&source);
    assert_eq!(offenses.len(), 0);
}

#[test]
fn test_space_after_comma_missing() {
    let source = test_source("foo(a,b,c)\n");
    let cop = SpaceAfterComma;
    let offenses = cop.check(&source);
    assert_eq!(offenses.len(), 2);
}

#[test]
fn test_space_after_comma_in_string() {
    let source = test_source("x = \"a,b,c\"\n");
    let cop = SpaceAfterComma;
    let offenses = cop.check(&source);
    assert_eq!(offenses.len(), 0);
}

#[test]
fn test_space_after_comma_in_comment() {
    let source = test_source("# a,b,c\n");
    let cop = SpaceAfterComma;
    let offenses = cop.check(&source);
    assert_eq!(offenses.len(), 0);
}

#[test]
fn test_space_after_comma_end_of_line() {
    let source = test_source("foo(a,\n  b)\n");
    let cop = SpaceAfterComma;
    let offenses = cop.check(&source);
    assert_eq!(offenses.len(), 0);
}

// ========================================================================
// SpaceAroundOperators tests
// ========================================================================

#[test]
fn test_space_around_operators_correct() {
    let source = test_source("x = 1 + 2\n");
    let cop = SpaceAroundOperators;
    let offenses = cop.check(&source);
    assert_eq!(offenses.len(), 0);
}

#[test]
fn test_space_around_operators_missing() {
    let source = test_source("x=1+2\n");
    let cop = SpaceAroundOperators;
    let offenses = cop.check(&source);
    assert!(offenses.len() >= 2); // At least = and +
}

#[test]
fn test_space_around_operators_unary() {
    let source = test_source("x = -1\n");
    let cop = SpaceAroundOperators;
    let offenses = cop.check(&source);
    // Should not report the unary minus
    assert_eq!(offenses.len(), 0);
}

#[test]
fn test_space_around_operators_in_string() {
    let source = test_source("x = \"1+2\"\n");
    let cop = SpaceAroundOperators;
    let offenses = cop.check(&source);
    assert_eq!(offenses.len(), 0);
}

#[test]
fn test_space_around_operators_comparison() {
    let source = test_source("if x==5\n  foo\nend\n");
    let cop = SpaceAroundOperators;
    let offenses = cop.check(&source);
    assert!(!offenses.is_empty());
}

// ========================================================================
// EmptyLineBetweenDefs tests
// ========================================================================

#[test]
fn test_empty_line_between_defs_correct() {
    let source = test_source("def foo\n  bar\nend\n\ndef baz\n  qux\nend\n");
    let cop = EmptyLineBetweenDefs;
    let offenses = cop.check(&source);
    assert_eq!(offenses.len(), 0);
}

#[test]
fn test_empty_line_between_defs_missing() {
    let source = test_source("def foo\n  bar\nend\ndef baz\n  qux\nend\n");
    let cop = EmptyLineBetweenDefs;
    let offenses = cop.check(&source);
    assert_eq!(offenses.len(), 1);
}

#[test]
fn test_empty_line_between_defs_single_def() {
    let source = test_source("def foo\n  bar\nend\n");
    let cop = EmptyLineBetweenDefs;
    let offenses = cop.check(&source);
    assert_eq!(offenses.len(), 0);
}

#[test]
fn test_empty_line_between_defs_nested() {
    let source = test_source("class Foo\n  def bar\n    baz\n  end\n\n  def qux\n    quux\n  end\nend\n");
    let cop = EmptyLineBetweenDefs;
    let offenses = cop.check(&source);
    assert_eq!(offenses.len(), 0);
}

#[test]
fn test_empty_line_between_defs_empty() {
    let source = test_source("");
    let cop = EmptyLineBetweenDefs;
    let offenses = cop.check(&source);
    assert_eq!(offenses.len(), 0);
}

// ========================================================================
// SpaceInsideParens tests
// ========================================================================

#[test]
fn test_space_inside_parens_no_offense() {
    let source = test_source("foo(bar)\n");
    let cop = SpaceInsideParens;
    let offenses = cop.check(&source);
    assert_eq!(offenses.len(), 0);
}

#[test]
fn test_space_inside_parens_after_opening() {
    let source = test_source("foo( bar)\n");
    let cop = SpaceInsideParens;
    let offenses = cop.check(&source);
    assert_eq!(offenses.len(), 1);
    assert!(offenses[0].message.contains("opening parenthesis"));
}

#[test]
fn test_space_inside_parens_before_closing() {
    let source = test_source("foo(bar )\n");
    let cop = SpaceInsideParens;
    let offenses = cop.check(&source);
    assert_eq!(offenses.len(), 1);
    assert!(offenses[0].message.contains("closing parenthesis"));
}

#[test]
fn test_space_inside_parens_both() {
    let source = test_source("foo( bar )\n");
    let cop = SpaceInsideParens;
    let offenses = cop.check(&source);
    assert_eq!(offenses.len(), 2);
}

#[test]
fn test_space_inside_parens_empty_parens() {
    let source = test_source("foo( )\n");
    let cop = SpaceInsideParens;
    let offenses = cop.check(&source);
    // Empty parens with space should not trigger (edge case)
    assert_eq!(offenses.len(), 0);
}

#[test]
fn test_space_inside_parens_in_string() {
    let source = test_source("x = \"foo( bar )\"\n");
    let cop = SpaceInsideParens;
    let offenses = cop.check(&source);
    assert_eq!(offenses.len(), 0);
}

#[test]
fn test_trailing_whitespace_no_break_space() {
    let source = test_source("x = 1\u{a0}\n");
    let offenses = TrailingWhitespace.check(&source);
    assert_eq!(offenses.len(), 1);
    assert_eq!(offenses[0].location.column, 6);
    assert_eq!(offenses[0].location.length, 2);
}

#[test]
fn test_trailing_whitespace_ideographic_space() {
    let source = test_source("x = 1\u{3000}\n");
    let offenses = TrailingWhitespace.check(&source);
    assert_eq!(offenses.len(), 1);
    assert_eq!(offenses[0].location.column, 6);
    assert_eq!(offenses[0].location.length, 3);
}

#[test]
fn test_trailing_whitespace_blank_unicode_line() {
    let source = test_source("x = 1\n\u{a0}\u{2003}\n");
    assert_eq!(TrailingWhitespace.check(&source).len(), 0);
}

#[test]
fn test_space_around_operators_no_break_space() {
    let source = test_source("x\u{a0}=\u{a0}1\n");
    assert_eq!(SpaceAroundOperators.check(&source).len(), 0);
}

#[test]
fn test_trailing_whitespace_whole_run() {
    let source = test_source("def foo  \n  bar\nend\n");
    let offenses = TrailingWhitespace.check(&source);
    assert_eq!(offenses.len(), 1);
    assert_eq!(offenses[0].location.column, 8);
    assert_eq!(offenses[0].location.length, 2);
}

#[test]
fn test_indentation_width_two_methods_in_class() {
    let source = test_source("class Foo\n  def a\n  end\n  def b\n  end\nend\n");
    assert_eq!(IndentationWidth.check(&source).len(), 0);
}

#[test]
fn test_indentation_width_else_branch() {
    let source = test_source("if a\n  b\nelse\n  c\nend\n");
    assert_eq!(IndentationWidth.check(&source).len(), 0);
}

#[test]
fn test_indentation_width_case_when() {
    let source = test_source("case x\nwhen 1\n  a\nwhen 2\n  b\nend\n");
    assert_eq!(IndentationWidth.check(&source).len(), 0);
}

#[test]
fn test_indentation_width_wrong_after_nested_end() {
    let source = test_source("class Foo\n  def a\n  end\n    def b\n    end\nend\n");
    let offenses = IndentationWidth.check(&source);
    assert_eq!(offenses.len(), 2);
    assert!(offenses[0].message.contains("expected 2 spaces, found 4"));
    assert_eq!(offenses[0].location.line, 4);
}

#[test]
fn test_space_around_operators_binary_op_position() {
    assert!(!SpaceAroundOperators::is_likely_unary(b"a == -b", 2, b"=="));
    assert!(SpaceAroundOperators::is_likely_unary(b"x = -1", 4, b"-"));
    assert!(!SpaceAroundOperators::is_likely_unary(b"x=1+2", 3, b"+"));
}

#[test]
fn test_space_after_comma_character_column() {
    let source = test_source("é,b\n");
    let offenses = SpaceAfterComma.check(&source);
    assert_eq!(offenses.len(), 1);
    assert_eq!(offenses[0].location.column, 3);
}

#[test]
fn test_space_inside_parens_character_columns() {
    let source = test_source("é( x )\n");
    let offenses = SpaceInsideParens.check(&source);
    assert_eq!(offenses.len(), 2);
    assert_eq!(offenses[0].location.column, 3);
    assert_eq!(offenses[1].location.column, 5);
}

#[test]
fn test_empty_line_between_defs_reports_only_crowded_def() {
    let crowded = test_source("def a\nend\ndef b\nend\n");
    let offenses = EmptyLineBetweenDefs.check(&crowded);
    assert_eq!(offenses.len(), 1);
    assert_eq!(offenses[0].location.line, 3);
    let spaced = test_source("def a\nend\n\ndef b\nend\n");
    assert_eq!(EmptyLineBetweenDefs.check(&spaced).len(), 0);
}
