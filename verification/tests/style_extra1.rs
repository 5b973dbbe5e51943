use oxicop::cop::{Category, Cop, Severity};
use oxicop::source::SourceFile;
use oxicop::cops::style_extra1::{all_style_extra1_cops, AndOr, AsciiComments, Attr, BarePercentLiterals, BeginBlock, BlockComments, CaseEquality, CharacterLiteral, ClassCheck, ClassVars, ColonMethodCall, ColonMethodDefinition, CommandLiteral, CommentAnnotation, CommentedKeyword, Copyright, DateTime, DefWithParentheses, DoubleNegation, EachForSimpleLoop, EmptyBlockParameter, EmptyCaseCondition, EmptyElse, EmptyHeredoc, EmptyLambdaParameter, EmptyLiteral, Encoding, EndBlock, EvenOdd, For, FormatString, GlobalStdStream, GlobalVars, GuardClause, HashSyntax, IdenticalConditionalBranches, IfInsideElse, IfUnlessModifier, IfWithBooleanLiteralBranches, IfWithSemicolon, InfiniteLoop, InlineComment, Lambda, LambdaCall, MagicCommentFormat, MethodCallWithoutArgsParentheses, MethodDefParentheses, MixinUsage, MultilineIfThen, MultilineTernaryOperator, MultilineWhenThen, MutableConstant, NegatedUnless, NegatedWhile, NestedModifier, NestedTernaryOperator, Next, NilComparison, NonNilCheck, Not, NumericLiteralPrefix, NumericLiterals, NumericPredicate, OneLineConditional, OptionalBooleanParameter, OrAssignment, ParenthesesAroundCondition, PercentLiteralDelimiters, PercentQLiterals, PerlBackrefs, Proc, RaiseArgs, RedundantBegin, RedundantException, RedundantFreeze, RedundantInterpolation, RedundantParentheses, RedundantPercentQ, RedundantSelf, RegexpLiteral, RescueModifier, RescueStandardError, SafeNavigation, SelfAssignment, Semicolon, Send, SignalException, SingleLineMethods, SpecialGlobalVars, StderrPuts, StringConcatenation, StructInheritance, SymbolArray, SymbolLiteral, TernaryParentheses};

fn test_source(content: &str) -> SourceFile {
    SourceFile::from_string("test.rb", content.to_string())
}

#[test]
fn test_and_or_pass() {
    let source = test_source("x = true && false\ny = true || false\n");
    let cop = AndOr;
    assert_eq!(cop.check(&source).len(), 0);
}

#[test]
fn test_and_or_fail() {
    let source = test_source("x = true and false\n");
    let cop = AndOr;
    assert_eq!(cop.check(&source).len(), 1);
}

#[test]
fn test_ascii_comments_pass() {
    let source = test_source("# This is a comment\n");
    let cop = AsciiComments;
    assert_eq!(cop.check(&source).len(), 0);
}

#[test]
fn test_ascii_comments_fail() {
    let source = test_source("# This is a comment with émoji\n");
    let cop = AsciiComments;
    assert_eq!(cop.check(&source).len(), 1);
}

#[test]
fn test_attr_pass() {
    let source = test_source("attr_reader :name\n");
    let cop = Attr;
    assert_eq!(cop.check(&source).len(), 0);
}

#[test]
fn test_attr_fail() {
    let source = test_source("attr :name\n");
    let cop = Attr;
    assert_eq!(cop.check(&source).len(), 1);
}

#[test]
fn test_bare_percent_literals_pass() {
    let source = test_source("%q(hello)\n");
    let cop = BarePercentLiterals;
    assert_eq!(cop.check(&source).len(), 0);
}

#[test]
fn test_bare_percent_literals_fail() {
    let source = test_source("%(hello)\n");
    let cop = BarePercentLiterals;
    assert_eq!(cop.check(&source).len(), 1);
}

#[test]
fn test_begin_block_pass() {
    let source = test_source("begin\n  x = 1\nend\n");
    let cop = BeginBlock;
    assert_eq!(cop.check(&source).len(), 0);
}

#[test]
fn test_begin_block_fail() {
    let source = test_source("BEGIN { puts 'hello' }\n");
    let cop = BeginBlock;
    assert_eq!(cop.check(&source).len(), 1);
}

#[test]
fn test_block_comments_pass() {
    let source = test_source("# comment\n# another\n");
    let cop = BlockComments;
    assert_eq!(cop.check(&source).len(), 0);
}

#[test]
fn test_block_comments_fail() {
    let source = test_source("=begin\ncomment\n=end\n");
    let cop = BlockComments;
    assert_eq!(cop.check(&source).len(), 2);
}

#[test]
fn test_case_equality_pass() {
    let source = test_source("x == y\n");
    let cop = CaseEquality;
    assert_eq!(cop.check(&source).len(), 0);
}

#[test]
fn test_case_equality_fail() {
    let source = test_source("x === y\n");
    let cop = CaseEquality;
    assert_eq!(cop.check(&source).len(), 1);
}

#[test]
fn test_character_literal_pass() {
    let source = test_source("x = 'a'\n");
    let cop = CharacterLiteral;
    assert_eq!(cop.check(&source).len(), 0);
}

#[test]
fn test_character_literal_fail() {
    let source = test_source("x = ?a\n");
    let cop = CharacterLiteral;
    assert_eq!(cop.check(&source).len(), 1);
}

#[test]
fn test_class_check_pass() {
    let source = test_source("x.is_a?(String)\n");
    let cop = ClassCheck;
    assert_eq!(cop.check(&source).len(), 0);
}

#[test]
fn test_class_check_fail() {
    let source = test_source("x.kind_of?(String)\n");
    let cop = ClassCheck;
    assert_eq!(cop.check(&source).len(), 1);
}

#[test]
fn test_class_vars_pass() {
    let source = test_source("@instance_var = 1\n");
    let cop = ClassVars;
    assert_eq!(cop.check(&source).len(), 0);
}

#[test]
fn test_class_vars_fail() {
    let source = test_source("@@class_var = 1\n");
    let cop = ClassVars;
    assert_eq!(cop.check(&source).len(), 1);
}

#[test]
fn test_colon_method_call_pass() {
    let source = test_source("Foo.bar\n");
    let cop = ColonMethodCall;
    assert_eq!(cop.check(&source).len(), 0);
}

#[test]
fn test_colon_method_call_fail() {
    let source = test_source("Foo::bar()\n");
    let cop = ColonMethodCall;
    assert_eq!(cop.check(&source).len(), 1);
}

#[test]
fn test_colon_method_definition_pass() {
    let source = test_source("def self.method\nend\n");
    let cop = ColonMethodDefinition;
    assert_eq!(cop.check(&source).len(), 0);
}

#[test]
fn test_colon_method_definition_fail() {
    let source = test_source("def self::method\nend\n");
    let cop = ColonMethodDefinition;
    assert_eq!(cop.check(&source).len(), 1);
}

#[test]
fn test_command_literal_pass() {
    let source = test_source("`ls`\n");
    let cop = CommandLiteral;
    assert_eq!(cop.check(&source).len(), 0);
}

#[test]
fn test_command_literal_fail() {
    let source = test_source("%x(ls)\n");
    let cop = CommandLiteral;
    assert_eq!(cop.check(&source).len(), 1);
}

#[test]
fn test_comment_annotation_pass() {
    let source = test_source("# TODO: fix this\n");
    let cop = CommentAnnotation;
    assert_eq!(cop.check(&source).len(), 0);
}

#[test]
fn test_comment_annotation_fail() {
    let source = test_source("# TODO fix this\n");
    let cop = CommentAnnotation;
    assert_eq!(cop.check(&source).len(), 1);
}

#[test]
fn test_double_negation_pass() {
    let source = test_source("!x\n");
    let cop = DoubleNegation;
    assert_eq!(cop.check(&source).len(), 0);
}

#[test]
fn test_double_negation_fail() {
    let source = test_source("!!x\n");
    let cop = DoubleNegation;
    assert_eq!(cop.check(&source).len(), 1);
}

#[test]
fn test_datetime_pass() {
    let source = test_source("Time.now\n");
    let cop = DateTime;
    assert_eq!(cop.check(&source).len(), 0);
}

#[test]
fn test_datetime_fail() {
    let source = test_source("DateTime.now\n");
    let cop = DateTime;
    assert_eq!(cop.check(&source).len(), 1);
}

#[test]
fn test_empty_block_parameter_pass() {
    let source = test_source("{ |x| puts x }\n");
    let cop = EmptyBlockParameter;
    assert_eq!(cop.check(&source).len(), 0);
}

#[test]
fn test_empty_block_parameter_fail() {
    let source = test_source("{ || puts 'hi' }\n");
    let cop = EmptyBlockParameter;
    assert_eq!(cop.check(&source).len(), 1);
}

#[test]
fn test_empty_literal_pass() {
    let source = test_source("x = []\ny = {}\n");
    let cop = EmptyLiteral;
    assert_eq!(cop.check(&source).len(), 0);
}

#[test]
fn test_empty_literal_fail() {
    let source = test_source("x = Array.new\n");
    let cop = EmptyLiteral;
    assert_eq!(cop.check(&source).len(), 1);
}

#[test]
fn test_end_block_pass() {
    let source = test_source("at_exit { puts 'bye' }\n");
    let cop = EndBlock;
    assert_eq!(cop.check(&source).len(), 0);
}

#[test]
fn test_end_block_fail() {
    let source = test_source("END { puts 'bye' }\n");
    let cop = EndBlock;
    assert_eq!(cop.check(&source).len(), 1);
}

#[test]
fn test_even_odd_pass() {
    let source = test_source("x.even?\n");
    let cop = EvenOdd;
    assert_eq!(cop.check(&source).len(), 0);
}

#[test]
fn test_even_odd_fail() {
    let source = test_source("x % 2 == 0\n");
    let cop = EvenOdd;
    assert_eq!(cop.check(&source).len(), 1);
}

#[test]
fn test_for_pass() {
    let source = test_source("items.each do |item|\nend\n");
    let cop = For;
    assert_eq!(cop.check(&source).len(), 0);
}

#[test]
fn test_for_fail() {
    let source = test_source("for item in items\nend\n");
    let cop = For;
    assert_eq!(cop.check(&source).len(), 1);
}

#[test]
fn test_global_std_stream_pass() {
    let source = test_source("$stdout.puts 'hi'\n");
    let cop = GlobalStdStream;
    assert_eq!(cop.check(&source).len(), 0);
}

#[test]
fn test_global_std_stream_fail() {
    let source = test_source("STDOUT.puts 'hi'\n");
    let cop = GlobalStdStream;
    assert_eq!(cop.check(&source).len(), 1);
}

#[test]
fn test_hash_syntax_pass() {
    let source = test_source("{ a: 1 }\n");
    let cop = HashSyntax;
    assert_eq!(cop.check(&source).len(), 0);
}

#[test]
fn test_hash_syntax_fail() {
    let source = test_source("{ :a => 1 }\n");
    let cop = HashSyntax;
    assert_eq!(cop.check(&source).len(), 1);
}

#[test]
fn test_infinite_loop_pass() {
    let source = test_source("loop do\nend\n");
    let cop = InfiniteLoop;
    assert_eq!(cop.check(&source).len(), 0);
}

#[test]
fn test_infinite_loop_fail() {
    let source = test_source("while true\nend\n");
    let cop = InfiniteLoop;
    assert_eq!(cop.check(&source).len(), 1);
}

#[test]
fn test_lambda_pass() {
    let source = test_source("-> { puts 'hi' }\n");
    let cop = Lambda;
    assert_eq!(cop.check(&source).len(), 0);
}

#[test]
fn test_lambda_fail() {
    let source = test_source("lambda { puts 'hi' }\n");
    let cop = Lambda;
    assert_eq!(cop.check(&source).len(), 1);
}

#[test]
fn test_lambda_call_pass() {
    let source = test_source("my_lambda.call\n");
    let cop = LambdaCall;
    assert_eq!(cop.check(&source).len(), 0);
}

#[test]
fn test_lambda_call_fail() {
    let source = test_source("my_lambda.()\n");
    let cop = LambdaCall;
    assert_eq!(cop.check(&source).len(), 1);
}

#[test]
fn test_negated_unless_pass() {
    let source = test_source("unless x\nend\n");
    let cop = NegatedUnless;
    assert_eq!(cop.check(&source).len(), 0);
}

#[test]
fn test_negated_unless_fail() {
    let source = test_source("unless !x\nend\n");
    let cop = NegatedUnless;
    assert_eq!(cop.check(&source).len(), 1);
}

#[test]
fn test_negated_while_pass() {
    let source = test_source("until x\nend\n");
    let cop = NegatedWhile;
    assert_eq!(cop.check(&source).len(), 0);
}

#[test]
fn test_negated_while_fail() {
    let source = test_source("while !x\nend\n");
    let cop = NegatedWhile;
    assert_eq!(cop.check(&source).len(), 1);
}

#[test]
fn test_nil_comparison_pass() {
    let source = test_source("x.nil?\n");
    let cop = NilComparison;
    assert_eq!(cop.check(&source).len(), 0);
}

#[test]
fn test_nil_comparison_fail() {
    let source = test_source("x == nil\n");
    let cop = NilComparison;
    assert_eq!(cop.check(&source).len(), 1);
}

#[test]
fn test_not_pass() {
    let source = test_source("!x\n");
    let cop = Not;
    assert_eq!(cop.check(&source).len(), 0);
}

#[test]
fn test_not_fail() {
    let source = test_source("not x\n");
    let cop = Not;
    assert_eq!(cop.check(&source).len(), 1);
}

#[test]
fn test_numeric_literals_pass() {
    let source = test_source("x = 1_000_000\n");
    let cop = NumericLiterals;
    assert_eq!(cop.check(&source).len(), 0);
}

#[test]
fn test_numeric_literals_fail() {
    let source = test_source("x = 1000000\n");
    let cop = NumericLiterals;
    assert_eq!(cop.check(&source).len(), 1);
}

#[test]
fn test_numeric_predicate_pass() {
    let source = test_source("x.zero?\n");
    let cop = NumericPredicate;
    assert_eq!(cop.check(&source).len(), 0);
}

#[test]
fn test_numeric_predicate_fail() {
    let source = test_source("x == 0\n");
    let cop = NumericPredicate;
    assert_eq!(cop.check(&source).len(), 1);
}

#[test]
fn test_proc_pass() {
    let source = test_source("proc { }\n");
    let cop = Proc;
    assert_eq!(cop.check(&source).len(), 0);
}

#[test]
fn test_proc_fail() {
    let source = test_source("Proc.new { }\n");
    let cop = Proc;
    assert_eq!(cop.check(&source).len(), 1);
}

#[test]
fn test_rescue_modifier_pass() {
    let source = test_source("begin\n  foo\nrescue\n  bar\nend\n");
    let cop = RescueModifier;
    assert_eq!(cop.check(&source).len(), 0);
}

#[test]
fn test_rescue_modifier_fail() {
    let source = test_source("foo rescue bar\n");
    let cop = RescueModifier;
    assert_eq!(cop.check(&source).len(), 1);
}

#[test]
fn test_self_assignment_pass() {
    let source = test_source("x += 1\n");
    let cop = SelfAssignment;
    assert_eq!(cop.check(&source).len(), 0);
}

#[test]
fn test_self_assignment_fail() {
    let source = test_source("x = x + 1\n");
    let cop = SelfAssignment;
    assert_eq!(cop.check(&source).len(), 1);
}

#[test]
fn test_semicolon_pass() {
    let source = test_source("x = 1\ny = 2\n");
    let cop = Semicolon;
    assert_eq!(cop.check(&source).len(), 0);
}

#[test]
fn test_semicolon_fail() {
    let source = test_source("x = 1; y = 2\n");
    let cop = Semicolon;
    assert_eq!(cop.check(&source).len(), 1);
}

#[test]
fn test_send_pass() {
    let source = test_source("obj.public_send(:method)\n");
    let cop = Send;
    assert_eq!(cop.check(&source).len(), 0);
}

#[test]
fn test_send_fail() {
    let source = test_source("obj.send(:method)\n");
    let cop = Send;
    assert_eq!(cop.check(&source).len(), 1);
}

#[test]
fn test_signal_exception_pass() {
    let source = test_source("raise 'error'\n");
    let cop = SignalException;
    assert_eq!(cop.check(&source).len(), 0);
}

#[test]
fn test_signal_exception_fail() {
    let source = test_source("fail 'error'\n");
    let cop = SignalException;
    assert_eq!(cop.check(&source).len(), 1);
}

#[test]
fn test_stderr_puts_pass() {
    let source = test_source("warn 'message'\n");
    let cop = StderrPuts;
    assert_eq!(cop.check(&source).len(), 0);
}

#[test]
fn test_stderr_puts_fail() {
    let source = test_source("$stderr.puts 'message'\n");
    let cop = StderrPuts;
    assert_eq!(cop.check(&source).len(), 1);
}

#[test]
fn test_string_concatenation_pass() {
    let source = test_source("\"hello #{name}\"\n");
    let cop = StringConcatenation;
    assert_eq!(cop.check(&source).len(), 0);
}

#[test]
fn test_string_concatenation_fail() {
    let source = test_source("\"hello \" + \"world\"\n");
    let cop = StringConcatenation;
    assert_eq!(cop.check(&source).len(), 1);
}

#[test]
fn test_symbol_literal_pass() {
    let source = test_source(":symbol\n");
    let cop = SymbolLiteral;
    assert_eq!(cop.check(&source).len(), 0);
}

#[test]
fn test_symbol_literal_fail() {
    let source = test_source(":\"symbol\"\n");
    let cop = SymbolLiteral;
    assert_eq!(cop.check(&source).len(), 1);
}


#[test]
fn test_commented_keyword_pass() {
    let source = test_source("begin\n  x = 1\nend\n");
    let cop = CommentedKeyword;
    assert_eq!(cop.check(&source).len(), 0);
}

#[test]
fn test_commented_keyword_fail() {
    let source = test_source("end # comment\n");
    let cop = CommentedKeyword;
    assert_eq!(cop.check(&source).len(), 1);
}

#[test]
fn test_copyright_pass() {
    let source = test_source("# Copyright 2024\nclass Foo\nend\n");
    let cop = Copyright;
    assert_eq!(cop.check(&source).len(), 0);
}

#[test]
fn test_copyright_fail() {
    let source = test_source("class Foo\nend\n");
    let cop = Copyright;
    assert_eq!(cop.check(&source).len(), 1);
}

#[test]
fn test_def_with_parentheses_pass() {
    let source = test_source("def foo(x)\nend\n");
    let cop = DefWithParentheses;
    assert_eq!(cop.check(&source).len(), 0);
}

#[test]
fn test_def_with_parentheses_fail() {
    let source = test_source("def foo x\nend\n");
    let cop = DefWithParentheses;
    assert_eq!(cop.check(&source).len(), 1);
}

#[test]
fn test_each_for_simple_loop_pass() {
    let source = test_source("10.times do\nend\n");
    let cop = EachForSimpleLoop;
    assert_eq!(cop.check(&source).len(), 0);
}

#[test]
fn test_each_for_simple_loop_fail() {
    let source = test_source("(0...10).each do\nend\n");
    let cop = EachForSimpleLoop;
    assert_eq!(cop.check(&source).len(), 1);
}

#[test]
fn test_empty_case_condition_pass() {
    let source = test_source("case x\nwhen 1\nend\n");
    let cop = EmptyCaseCondition;
    assert_eq!(cop.check(&source).len(), 0);
}

#[test]
fn test_empty_case_condition_fail() {
    let source = test_source("case\nwhen x == 1\nend\n");
    let cop = EmptyCaseCondition;
    assert_eq!(cop.check(&source).len(), 1);
}

#[test]
fn test_empty_else_pass() {
    let source = test_source("if x\n  y\nelse\n  z\nend\n");
    let cop = EmptyElse;
    assert_eq!(cop.check(&source).len(), 0);
}

#[test]
fn test_empty_else_fail() {
    let source = test_source("if x\n  y\nelse\nend\n");
    let cop = EmptyElse;
    assert_eq!(cop.check(&source).len(), 1);
}

#[test]
fn test_empty_heredoc_pass() {
    let source = test_source("<<~TEXT\nHello\nTEXT\n");
    let cop = EmptyHeredoc;
    assert_eq!(cop.check(&source).len(), 0);
}

#[test]
fn test_empty_heredoc_fail() {
    let source = test_source("<<TEXT\nTEXT\n");
    let cop = EmptyHeredoc;
    assert_eq!(cop.check(&source).len(), 1);
}

#[test]
fn test_empty_lambda_parameter_pass() {
    let source = test_source("-> { puts 'hi' }\n");
    let cop = EmptyLambdaParameter;
    assert_eq!(cop.check(&source).len(), 0);
}

#[test]
fn test_empty_lambda_parameter_fail() {
    let source = test_source("-> () { puts 'hi' }\n");
    let cop = EmptyLambdaParameter;
    assert_eq!(cop.check(&source).len(), 1);
}

#[test]
fn test_encoding_pass() {
    let source = test_source("# encoding: utf-8\nclass Foo\nend\n");
    let cop = Encoding;
    assert_eq!(cop.check(&source).len(), 0);
}

#[test]
fn test_encoding_fail() {
    let source = test_source("# café\nclass Foo\nend\n");
    let cop = Encoding;
    assert_eq!(cop.check(&source).len(), 1);
}

#[test]
fn test_format_string_pass() {
    let source = test_source("format('%d', x)\n");
    let cop = FormatString;
    assert_eq!(cop.check(&source).len(), 0);
}

#[test]
fn test_format_string_fail() {
    let source = test_source("sprintf('%d', x)\n");
    let cop = FormatString;
    assert_eq!(cop.check(&source).len(), 1);
}

#[test]
fn test_global_vars_pass() {
    let source = test_source("$stdout.puts 'hi'\n");
    let cop = GlobalVars;
    assert_eq!(cop.check(&source).len(), 0);
}

#[test]
fn test_global_vars_fail() {
    let source = test_source("$my_global = 1\n");
    let cop = GlobalVars;
    assert_eq!(cop.check(&source).len(), 1);
}

#[test]
fn test_guard_clause_pass() {
    let source = test_source("def foo\n  return if x\n  bar\nend\n");
    let cop = GuardClause;
    assert_eq!(cop.check(&source).len(), 0);
}

#[test]
fn test_guard_clause_fail() {
    let source = test_source("def foo\n  if x\n    bar\n  end\nend\n");
    let cop = GuardClause;
    assert_eq!(cop.check(&source).len(), 1);
}

#[test]
fn test_identical_conditional_branches_pass() {
    let source = test_source("if x\n  a\nelse\n  b\nend\n");
    let cop = IdenticalConditionalBranches;
    assert_eq!(cop.check(&source).len(), 0);
}

#[test]
fn test_identical_conditional_branches_fail() {
    let source = test_source("if x\n  foo\nelse\n  foo\nend\n");
    let cop = IdenticalConditionalBranches;
    assert_eq!(cop.check(&source).len(), 1);
}

#[test]
fn test_if_inside_else_pass() {
    let source = test_source("if x\n  a\nelsif y\n  b\nend\n");
    let cop = IfInsideElse;
    assert_eq!(cop.check(&source).len(), 0);
}

#[test]
fn test_if_inside_else_fail() {
    let source = test_source("if x\n  a\nelse\n  if y\n    b\n  end\nend\n");
    let cop = IfInsideElse;
    assert_eq!(cop.check(&source).len(), 1);
}

#[test]
fn test_if_unless_modifier_pass() {
    let source = test_source("foo if x\n");
    let cop = IfUnlessModifier;
    assert_eq!(cop.check(&source).len(), 0);
}

#[test]
fn test_if_unless_modifier_fail() {
    let source = test_source("if x\n  foo\nend\n");
    let cop = IfUnlessModifier;
    assert_eq!(cop.check(&source).len(), 1);
}

#[test]
fn test_if_with_boolean_literal_branches_pass() {
    let source = test_source("x ? foo : bar\n");
    let cop = IfWithBooleanLiteralBranches;
    assert_eq!(cop.check(&source).len(), 0);
}

#[test]
fn test_if_with_boolean_literal_branches_fail() {
    let source = test_source("if x then true else false\n");
    let cop = IfWithBooleanLiteralBranches;
    assert_eq!(cop.check(&source).len(), 1);
}

#[test]
fn test_if_with_semicolon_pass() {
    let source = test_source("if x\n  y\nend\n");
    let cop = IfWithSemicolon;
    assert_eq!(cop.check(&source).len(), 0);
}

#[test]
fn test_if_with_semicolon_fail() {
    let source = test_source("if x; y; end\n");
    let cop = IfWithSemicolon;
    assert_eq!(cop.check(&source).len(), 1);
}

#[test]
fn test_inline_comment_pass() {
    let source = test_source("# comment\nfoo\n");
    let cop = InlineComment;
    assert_eq!(cop.check(&source).len(), 0);
}

#[test]
fn test_inline_comment_fail() {
    let source = test_source("foo # comment\n");
    let cop = InlineComment;
    assert_eq!(cop.check(&source).len(), 1);
}

#[test]
fn test_magic_comment_format_pass() {
    let source = test_source("# frozen_string_literal: true\n");
    let cop = MagicCommentFormat;
    assert_eq!(cop.check(&source).len(), 0);
}

#[test]
fn test_magic_comment_format_fail() {
    let source = test_source("#coding: utf-8\n");
    let cop = MagicCommentFormat;
    assert_eq!(cop.check(&source).len(), 1);
}

#[test]
fn test_method_call_without_args_parentheses_pass() {
    let source = test_source("foo.bar\n");
    let cop = MethodCallWithoutArgsParentheses;
    assert_eq!(cop.check(&source).len(), 0);
}

#[test]
fn test_method_call_without_args_parentheses_fail() {
    let source = test_source("foo.bar()\n");
    let cop = MethodCallWithoutArgsParentheses;
    assert_eq!(cop.check(&source).len(), 1);
}

#[test]
fn test_method_def_parentheses_pass() {
    let source = test_source("def foo()\nend\n");
    let cop = MethodDefParentheses;
    assert_eq!(cop.check(&source).len(), 0);
}

#[test]
fn test_method_def_parentheses_fail() {
    let source = test_source("def foo\nend\n");
    let cop = MethodDefParentheses;
    assert_eq!(cop.check(&source).len(), 1);
}

#[test]
fn test_mixin_usage_pass() {
    let source = test_source("class Foo\n  include Bar\n  def x\n  end\nend\n");
    let cop = MixinUsage;
    assert_eq!(cop.check(&source).len(), 0);
}

#[test]
fn test_mixin_usage_fail() {
    let source = test_source("class Foo\n  def x\n  end\n  def y\n  end\n  def z\n  end\n  def a\n  end\n  def b\n  end\n  def c\n  end\n  include Bar\nend\n");
    let cop = MixinUsage;
    assert_eq!(cop.check(&source).len(), 1);
}

#[test]
fn test_multiline_if_then_pass() {
    let source = test_source("if x\n  y\nend\n");
    let cop = MultilineIfThen;
    assert_eq!(cop.check(&source).len(), 0);
}

#[test]
fn test_multiline_if_then_fail() {
    let source = test_source("if x then\n  y\nend\n");
    let cop = MultilineIfThen;
    assert_eq!(cop.check(&source).len(), 1);
}

#[test]
fn test_multiline_ternary_operator_pass() {
    let source = test_source("x ? y : z\n");
    let cop = MultilineTernaryOperator;
    assert_eq!(cop.check(&source).len(), 0);
}

#[test]
fn test_multiline_ternary_operator_fail() {
    let source = test_source("x ?\n  y : z\n");
    let cop = MultilineTernaryOperator;
    assert_eq!(cop.check(&source).len(), 1);
}

#[test]
fn test_multiline_when_then_pass() {
    let source = test_source("case x\nwhen 1\n  y\nend\n");
    let cop = MultilineWhenThen;
    assert_eq!(cop.check(&source).len(), 0);
}

#[test]
fn test_multiline_when_then_fail() {
    let source = test_source("case x\nwhen 1 then\n  y\nend\n");
    let cop = MultilineWhenThen;
    assert_eq!(cop.check(&source).len(), 1);
}

#[test]
fn test_mutable_constant_pass() {
    let source = test_source("FOO = [1, 2].freeze\n");
    let cop = MutableConstant;
    assert_eq!(cop.check(&source).len(), 0);
}

#[test]
fn test_mutable_constant_fail() {
    let source = test_source("FOO = [1, 2]\n");
    let cop = MutableConstant;
    assert_eq!(cop.check(&source).len(), 1);
}

#[test]
fn test_nested_modifier_pass() {
    let source = test_source("foo if x\n");
    let cop = NestedModifier;
    assert_eq!(cop.check(&source).len(), 0);
}

#[test]
fn test_nested_modifier_fail() {
    let source = test_source("foo if x if y\n");
    let cop = NestedModifier;
    assert_eq!(cop.check(&source).len(), 1);
}

#[test]
fn test_nested_ternary_operator_pass() {
    let source = test_source("x ? y : z\n");
    let cop = NestedTernaryOperator;
    assert_eq!(cop.check(&source).len(), 0);
}

#[test]
fn test_nested_ternary_operator_fail() {
    let source = test_source("x ? y ? a : b : z\n");
    let cop = NestedTernaryOperator;
    assert_eq!(cop.check(&source).len(), 1);
}

#[test]
fn test_next_pass() {
    let source = test_source("[1,2].each do |x|\n  next if x == 1\n  puts x\nend\n");
    let cop = Next;
    assert_eq!(cop.check(&source).len(), 0);
}

#[test]
fn test_next_fail() {
    let source = test_source("[1,2].each do |x|\n  if x == 1\n    puts x\n  end\nend\n");
    let cop = Next;
    assert_eq!(cop.check(&source).len(), 1);
}

#[test]
fn test_non_nil_check_pass() {
    let source = test_source("!x.nil?\n");
    let cop = NonNilCheck;
    assert_eq!(cop.check(&source).len(), 0);
}

#[test]
fn test_non_nil_check_fail() {
    let source = test_source("x != nil\n");
    let cop = NonNilCheck;
    assert_eq!(cop.check(&source).len(), 1);
}

#[test]
fn test_numeric_literal_prefix_pass() {
    let source = test_source("x = 0o755\n");
    let cop = NumericLiteralPrefix;
    assert_eq!(cop.check(&source).len(), 0);
}

#[test]
fn test_numeric_literal_prefix_fail() {
    let source = test_source("x = 0755\n");
    let cop = NumericLiteralPrefix;
    assert_eq!(cop.check(&source).len(), 1);
}

#[test]
fn test_one_line_conditional_pass() {
    let source = test_source("x ? y : z\n");
    let cop = OneLineConditional;
    assert_eq!(cop.check(&source).len(), 0);
}

#[test]
fn test_one_line_conditional_fail() {
    let source = test_source("if x\n  y\nelse\n  z\nend\n");
    let cop = OneLineConditional;
    assert_eq!(cop.check(&source).len(), 1);
}

#[test]
fn test_optional_boolean_parameter_pass() {
    let source = test_source("def foo(bar = nil)\nend\n");
    let cop = OptionalBooleanParameter;
    assert_eq!(cop.check(&source).len(), 0);
}

#[test]
fn test_optional_boolean_parameter_fail() {
    let source = test_source("def foo(bar = true)\nend\n");
    let cop = OptionalBooleanParameter;
    assert_eq!(cop.check(&source).len(), 1);
}

#[test]
fn test_or_assignment_pass() {
    let source = test_source("x ||= 1\n");
    let cop = OrAssignment;
    assert_eq!(cop.check(&source).len(), 0);
}

#[test]
fn test_or_assignment_fail() {
    let source = test_source("x = x || 1\n");
    let cop = OrAssignment;
    assert_eq!(cop.check(&source).len(), 1);
}

#[test]
fn test_parentheses_around_condition_pass() {
    let source = test_source("if x == 1\nend\n");
    let cop = ParenthesesAroundCondition;
    assert_eq!(cop.check(&source).len(), 0);
}

#[test]
fn test_parentheses_around_condition_fail() {
    let source = test_source("if (x == 1)\nend\n");
    let cop = ParenthesesAroundCondition;
    assert_eq!(cop.check(&source).len(), 1);
}

#[test]
fn test_percent_literal_delimiters_pass() {
    let source = test_source("%w(foo bar)\n");
    let cop = PercentLiteralDelimiters;
    assert_eq!(cop.check(&source).len(), 0);
}

#[test]
fn test_percent_literal_delimiters_fail() {
    let source = test_source("%w{foo bar}\n");
    let cop = PercentLiteralDelimiters;
    assert_eq!(cop.check(&source).len(), 1);
}

#[test]
fn test_percent_q_literals_pass() {
    let source = test_source("'hello'\n");
    let cop = PercentQLiterals;
    assert_eq!(cop.check(&source).len(), 0);
}

#[test]
fn test_percent_q_literals_fail() {
    let source = test_source("%q(hello)\n");
    let cop = PercentQLiterals;
    assert_eq!(cop.check(&source).len(), 1);
}

#[test]
fn test_perl_backrefs_pass() {
    let source = test_source("match[:name]\n");
    let cop = PerlBackrefs;
    assert_eq!(cop.check(&source).len(), 0);
}

#[test]
fn test_perl_backrefs_fail() {
    let source = test_source("puts $1\n");
    let cop = PerlBackrefs;
    assert_eq!(cop.check(&source).len(), 1);
}

#[test]
fn test_raise_args_pass() {
    let source = test_source("raise StandardError, 'error'\n");
    let cop = RaiseArgs;
    assert_eq!(cop.check(&source).len(), 0);
}

#[test]
fn test_raise_args_fail() {
    let source = test_source("raise StandardError.new('error')\n");
    let cop = RaiseArgs;
    assert_eq!(cop.check(&source).len(), 1);
}

#[test]
fn test_redundant_begin_pass() {
    let source = test_source("def foo\n  bar\nrescue\n  baz\nend\n");
    let cop = RedundantBegin;
    assert_eq!(cop.check(&source).len(), 0);
}

#[test]
fn test_redundant_begin_fail() {
    let source = test_source("def foo\n  begin\n    bar\n  end\nend\n");
    let cop = RedundantBegin;
    assert_eq!(cop.check(&source).len(), 1);
}

#[test]
fn test_redundant_exception_pass() {
    let source = test_source("raise 'error'\n");
    let cop = RedundantException;
    assert_eq!(cop.check(&source).len(), 0);
}

#[test]
fn test_redundant_exception_fail() {
    let source = test_source("raise RuntimeError, 'error'\n");
    let cop = RedundantException;
    assert_eq!(cop.check(&source).len(), 1);
}

#[test]
fn test_redundant_freeze_pass() {
    let source = test_source("[1, 2].freeze\n");
    let cop = RedundantFreeze;
    assert_eq!(cop.check(&source).len(), 0);
}

#[test]
fn test_redundant_freeze_fail() {
    let source = test_source("42.freeze\n");
    let cop = RedundantFreeze;
    assert_eq!(cop.check(&source).len(), 1);
}

#[test]
fn test_redundant_interpolation_pass() {
    let source = test_source("\"hello #{name} world\"\n");
    let cop = RedundantInterpolation;
    assert_eq!(cop.check(&source).len(), 0);
}

#[test]
fn test_redundant_interpolation_fail() {
    let source = test_source("\"#{name}\"\n");
    let cop = RedundantInterpolation;
    assert_eq!(cop.check(&source).len(), 1);
}

#[test]
fn test_redundant_parentheses_pass() {
    let source = test_source("return x\n");
    let cop = RedundantParentheses;
    assert_eq!(cop.check(&source).len(), 0);
}

#[test]
fn test_redundant_parentheses_fail() {
    let source = test_source("return (x)\n");
    let cop = RedundantParentheses;
    assert_eq!(cop.check(&source).len(), 1);
}

#[test]
fn test_redundant_percent_q_pass() {
    let source = test_source("'hello'\n");
    let cop = RedundantPercentQ;
    assert_eq!(cop.check(&source).len(), 0);
}

#[test]
fn test_redundant_percent_q_fail() {
    let source = test_source("%q(hello)\n");
    let cop = RedundantPercentQ;
    assert_eq!(cop.check(&source).len(), 1);
}

#[test]
fn test_redundant_self_pass() {
    let source = test_source("def self.foo\nend\n");
    let cop = RedundantSelf;
    assert_eq!(cop.check(&source).len(), 0);
}

#[test]
fn test_redundant_self_fail() {
    let source = test_source("self.foo\n");
    let cop = RedundantSelf;
    assert_eq!(cop.check(&source).len(), 1);
}

#[test]
fn test_regexp_literal_pass() {
    let source = test_source("/regex/\n");
    let cop = RegexpLiteral;
    assert_eq!(cop.check(&source).len(), 0);
}

#[test]
fn test_regexp_literal_fail() {
    let source = test_source("%r{regex}\n");
    let cop = RegexpLiteral;
    assert_eq!(cop.check(&source).len(), 1);
}

#[test]
fn test_rescue_standard_error_pass() {
    let source = test_source("rescue StandardError\n");
    let cop = RescueStandardError;
    assert_eq!(cop.check(&source).len(), 0);
}

#[test]
fn test_rescue_standard_error_fail() {
    let source = test_source("rescue\n");
    let cop = RescueStandardError;
    assert_eq!(cop.check(&source).len(), 1);
}

#[test]
fn test_safe_navigation_pass() {
    let source = test_source("obj&.method\n");
    let cop = SafeNavigation;
    assert_eq!(cop.check(&source).len(), 0);
}

#[test]
fn test_safe_navigation_fail() {
    let source = test_source("obj && obj.method\n");
    let cop = SafeNavigation;
    assert_eq!(cop.check(&source).len(), 1);
}

#[test]
fn test_single_line_methods_pass() {
    let source = test_source("def foo\n  bar\nend\n");
    let cop = SingleLineMethods;
    assert_eq!(cop.check(&source).len(), 0);
}

#[test]
fn test_single_line_methods_fail() {
    let source = test_source("def foo; bar; end\n");
    let cop = SingleLineMethods;
    assert_eq!(cop.check(&source).len(), 1);
}

#[test]
fn test_special_global_vars_pass() {
    let source = test_source("$LOAD_PATH << 'lib'\n");
    let cop = SpecialGlobalVars;
    assert_eq!(cop.check(&source).len(), 0);
}

#[test]
fn test_special_global_vars_fail() {
    let source = test_source("puts $:\n");
    let cop = SpecialGlobalVars;
    assert_eq!(cop.check(&source).len(), 1);
}

#[test]
fn test_struct_inheritance_pass() {
    let source = test_source("Foo = Struct.new(:name)\n");
    let cop = StructInheritance;
    assert_eq!(cop.check(&source).len(), 0);
}

#[test]
fn test_struct_inheritance_fail() {
    let source = test_source("class Foo < Struct.new(:name)\nend\n");
    let cop = StructInheritance;
    assert_eq!(cop.check(&source).len(), 1);
}

#[test]
fn test_symbol_array_pass() {
    let source = test_source("%i[foo bar]\n");
    let cop = SymbolArray;
    assert_eq!(cop.check(&source).len(), 0);
}

#[test]
fn test_symbol_array_fail() {
    let source = test_source("[:foo, :bar, :baz]\n");
    let cop = SymbolArray;
    assert_eq!(cop.check(&source).len(), 1);
}

#[test]
fn test_ternary_parentheses_pass() {
    let source = test_source("x ? y : z\n");
    let cop = TernaryParentheses;
    assert_eq!(cop.check(&source).len(), 0);
}

#[test]
fn test_ternary_parentheses_fail() {
    let source = test_source("(x) ? y : z\n");
    let cop = TernaryParentheses;
    assert_eq!(cop.check(&source).len(), 1);
}

fn text_of(o: &oxicop::offense::Offense) -> String {
    String::from_utf8(o.message.as_bytes().to_vec()).unwrap()
}

#[test]
fn style_extra1_and_or_message() {
    let offenses = AndOr.check(&test_source("a or b and c\n"));
    assert_eq!(offenses.len(), 2);
    assert_eq!(text_of(&offenses[0]), "Use `||` instead of `or`");
    assert_eq!(offenses[0].location.column, 3);
    assert_eq!(offenses[0].location.length, 2);
    assert_eq!(text_of(&offenses[1]), "Use `&&` instead of `and`");
    assert_eq!(offenses[1].location.column, 8);
}

#[test]
fn style_extra1_global_std_stream_message() {
    let offenses = GlobalStdStream.check(&test_source("STDERR.puts x\n"));
    assert_eq!(offenses.len(), 1);
    assert_eq!(text_of(&offenses[0]), "Use `$stderr` instead of `STDERR`");
}

#[test]
fn style_extra1_commented_keyword_location() {
    let offenses = CommentedKeyword.check(&test_source("  begin # start\n"));
    assert_eq!(offenses.len(), 1);
    assert_eq!(text_of(&offenses[0]), "Do not place comments on the same line as the `begin` keyword");
    assert_eq!(offenses[0].location.column, 9);
    assert_eq!(offenses[0].location.length, 7);
}

#[test]
fn style_extra1_copyright_on_line_five() {
    assert_eq!(Copyright.check(&test_source("a\nb\nc\nd\n# COPYRIGHT 2024\n")).len(), 0);
    assert_eq!(Copyright.check(&test_source("a\nb\nc\nd\ne\n# Copyright\n")).len(), 1);
    assert_eq!(Copyright.check(&test_source("")).len(), 0);
}

#[test]
fn style_extra1_encoding_needs_non_ascii() {
    assert_eq!(Encoding.check(&test_source("x = 'é'\n")).len(), 1);
    assert_eq!(Encoding.check(&test_source("# encoding: utf-8\nx = 'é'\n")).len(), 0);
    assert_eq!(Encoding.check(&test_source("x = 1\n")).len(), 0);
}

#[test]
fn style_extra1_guard_clause_location() {
    let offenses = GuardClause.check(&test_source("def foo\n  if ok\n    run\n  end\nend\n"));
    assert_eq!(offenses.len(), 1);
    assert_eq!(offenses[0].location.line, 2);
    assert_eq!(offenses[0].location.length, 7);
}

#[test]
fn style_extra1_mixin_far_from_class_line() {
    let mut code = String::from("class Foo\n");
    for _ in 0..10 {
        code.push_str("  x = 1\n");
    }
    code.push_str("  include Bar\nend\n");
    let offenses = MixinUsage.check(&test_source(&code));
    assert_eq!(offenses.len(), 1);
    assert_eq!(offenses[0].location.line, 12);
    let near = MixinUsage.check(&test_source("class Foo\n  include Bar\nend\n"));
    assert_eq!(near.len(), 0);
}

#[test]
fn style_extra1_next_inside_loop_only() {
    assert_eq!(Next.check(&test_source("items.each do |i|\n  if i\n    go\n  end\nend\n")).len(), 1);
    assert_eq!(Next.check(&test_source("def x\n  if i\n    go\n  end\nend\n")).len(), 0);
}

#[test]
fn style_extra1_special_global_vars_each_variable() {
    let offenses = SpecialGlobalVars.check(&test_source("a = $; + $:\n"));
    assert_eq!(offenses.len(), 2);
    assert_eq!(text_of(&offenses[0]), "Use readable name instead of `$:`");
    assert_eq!(offenses[0].location.column, 10);
    assert_eq!(text_of(&offenses[1]), "Use readable name instead of `$;`");
}

#[test]
fn style_extra1_redundant_self_after_assignment() {
    assert_eq!(RedundantSelf.check(&test_source("x = self.name\n")).len(), 1);
    assert_eq!(RedundantSelf.check(&test_source("self.name = x\n")).len(), 0);
    assert_eq!(RedundantSelf.check(&test_source("def self.name\n")).len(), 0);
}

#[test]
fn style_extra1_semicolon_first_only() {
    let offenses = Semicolon.check(&test_source("a; b; c\n"));
    assert_eq!(offenses.len(), 1);
    assert_eq!(offenses[0].location.column, 2);
}

#[test]
fn style_extra1_percent_delimiters() {
    assert_eq!(PercentLiteralDelimiters.check(&test_source("%w{a b}\n")).len(), 1);
    assert_eq!(PercentLiteralDelimiters.check(&test_source("%w[a b]\n")).len(), 0);
}

#[test]
fn style_extra1_all_cops() {
    let cops = all_style_extra1_cops();
    assert_eq!(cops.len(), 95);
    for c in &cops {
        assert_eq!(c.category(), Category::Style);
        assert_eq!(c.severity(), Severity::Convention);
    }
}
