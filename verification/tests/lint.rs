use oxicop::cop::{Category, Cop, Severity};
use oxicop::source::SourceFile;
use oxicop::cops::lint::{Debugger, DuplicateMethods, LiteralInCondition};

fn text_of(o: &oxicop::offense::Offense) -> String {
    String::from_utf8(o.message.as_bytes().to_vec()).unwrap()
}

fn test_source(content: &str) -> SourceFile {
    SourceFile::from_string("test.rb", content.to_string())
}

// ===== Debugger Tests =====

#[test]
fn test_debugger_no_offense() {
    let cop = Debugger::new();
    let source = test_source("puts 'hello world'\nx = 42\n");
    let offenses = cop.check(&source);
    assert_eq!(offenses.len(), 0);
}

#[test]
fn test_debugger_detects_binding_pry() {
    let cop = Debugger::new();
    let source = test_source("def foo\n  binding.pry\n  x = 1\nend\n");
    let offenses = cop.check(&source);
    assert_eq!(offenses.len(), 1);
    assert_eq!(offenses[0].location.line, 2);
    assert!(offenses[0].message.contains("binding.pry"));
}

#[test]
fn test_debugger_detects_byebug() {
    let cop = Debugger::new();
    let source = test_source("x = 1\nbyebug\ny = 2\n");
    let offenses = cop.check(&source);
    assert_eq!(offenses.len(), 1);
    assert_eq!(offenses[0].location.line, 2);
    assert!(offenses[0].message.contains("byebug"));
}

#[test]
fn test_debugger_detects_debugger() {
    let cop = Debugger::new();
    let source = test_source("debugger\n");
    let offenses = cop.check(&source);
    assert_eq!(offenses.len(), 1);
    assert_eq!(offenses[0].location.line, 1);
    assert!(offenses[0].message.contains("debugger"));
}

#[test]
fn test_debugger_detects_pry() {
    let cop = Debugger::new();
    let source = test_source("pry\n");
    let offenses = cop.check(&source);
    assert_eq!(offenses.len(), 1);
    assert_eq!(offenses[0].location.line, 1);
    assert!(offenses[0].message.contains("pry"));
}

#[test]
fn test_debugger_skips_in_string() {
    let cop = Debugger::new();
    let source = test_source("puts 'binding.pry'\n");
    let offenses = cop.check(&source);
    assert_eq!(offenses.len(), 0);
}

#[test]
fn test_debugger_skips_in_double_quoted_string() {
    let cop = Debugger::new();
    let source = test_source("puts \"binding.pry\"\n");
    let offenses = cop.check(&source);
    assert_eq!(offenses.len(), 0);
}

#[test]
fn test_debugger_skips_in_comment() {
    let cop = Debugger::new();
    let source = test_source("# binding.pry\n");
    let offenses = cop.check(&source);
    assert_eq!(offenses.len(), 0);
}

#[test]
fn test_debugger_skips_in_inline_comment() {
    let cop = Debugger::new();
    let source = test_source("x = 1 # binding.pry\n");
    let offenses = cop.check(&source);
    assert_eq!(offenses.len(), 0);
}

#[test]
fn test_debugger_multiple_on_same_line() {
    let cop = Debugger::new();
    let source = test_source("binding.pry; byebug\n");
    let offenses = cop.check(&source);
    assert_eq!(offenses.len(), 2);
}

#[test]
fn test_debugger_empty_file() {
    let cop = Debugger::new();
    let source = test_source("");
    let offenses = cop.check(&source);
    assert_eq!(offenses.len(), 0);
}

#[test]
fn test_debugger_does_not_match_partial_words() {
    let cop = Debugger::new();
    let source = test_source("my_pry_method\n");
    let offenses = cop.check(&source);
    assert_eq!(offenses.len(), 0);
}

#[test]
fn test_debugger_all_patterns() {
    let cop = Debugger::new();
    let source = test_source(
        "binding.pry\n\
         binding.irb\n\
         byebug\n\
         debugger\n\
         binding.break\n\
         pry\n\
         save_and_open_page\n\
         save_and_open_screenshot\n",
    );
    let offenses = cop.check(&source);
    assert_eq!(offenses.len(), 8);
}

// ===== LiteralInCondition Tests =====

#[test]
fn test_literal_in_condition_no_offense() {
    let cop = LiteralInCondition::new();
    let source = test_source("if x\n  puts 'hello'\nend\n");
    let offenses = cop.check(&source);
    assert_eq!(offenses.len(), 0);
}

#[test]
fn test_literal_in_condition_if_true() {
    let cop = LiteralInCondition::new();
    let source = test_source("if true\n  puts 'hello'\nend\n");
    let offenses = cop.check(&source);
    assert_eq!(offenses.len(), 1);
    assert_eq!(offenses[0].location.line, 1);
    assert!(offenses[0].message.contains("true"));
    assert!(offenses[0].message.contains("if"));
}

#[test]
fn test_literal_in_condition_if_false() {
    let cop = LiteralInCondition::new();
    let source = test_source("if false\n  puts 'hello'\nend\n");
    let offenses = cop.check(&source);
    assert_eq!(offenses.len(), 1);
    assert_eq!(offenses[0].location.line, 1);
    assert!(offenses[0].message.contains("false"));
}

#[test]
fn test_literal_in_condition_if_nil() {
    let cop = LiteralInCondition::new();
    let source = test_source("if nil\n  puts 'hello'\nend\n");
    let offenses = cop.check(&source);
    assert_eq!(offenses.len(), 1);
    assert_eq!(offenses[0].location.line, 1);
    assert!(offenses[0].message.contains("nil"));
}

#[test]
fn test_literal_in_condition_unless_true() {
    let cop = LiteralInCondition::new();
    let source = test_source("unless true\n  puts 'hello'\nend\n");
    let offenses = cop.check(&source);
    assert_eq!(offenses.len(), 1);
    assert!(offenses[0].message.contains("unless"));
}

#[test]
fn test_literal_in_condition_unless_false() {
    let cop = LiteralInCondition::new();
    let source = test_source("unless false\n  puts 'hello'\nend\n");
    let offenses = cop.check(&source);
    assert_eq!(offenses.len(), 1);
    assert!(offenses[0].message.contains("unless"));
}

#[test]
fn test_literal_in_condition_skips_while_true() {
    let cop = LiteralInCondition::new();
    let source = test_source("while true\n  break if done\nend\n");
    let offenses = cop.check(&source);
    // while true is a common idiom and should not be flagged
    // Our regex only matches if/unless, so this should pass
    assert_eq!(offenses.len(), 0);
}

#[test]
fn test_literal_in_condition_skips_in_string() {
    let cop = LiteralInCondition::new();
    let source = test_source("puts 'if true'\n");
    let offenses = cop.check(&source);
    assert_eq!(offenses.len(), 0);
}

#[test]
fn test_literal_in_condition_skips_in_comment() {
    let cop = LiteralInCondition::new();
    let source = test_source("# if true\n");
    let offenses = cop.check(&source);
    assert_eq!(offenses.len(), 0);
}

#[test]
fn test_literal_in_condition_empty_file() {
    let cop = LiteralInCondition::new();
    let source = test_source("");
    let offenses = cop.check(&source);
    assert_eq!(offenses.len(), 0);
}

#[test]
fn test_literal_in_condition_does_not_match_variables() {
    let cop = LiteralInCondition::new();
    let source = test_source("if true_value\n  puts 'hello'\nend\n");
    let offenses = cop.check(&source);
    assert_eq!(offenses.len(), 0);
}

#[test]
fn test_literal_in_condition_inline() {
    let cop = LiteralInCondition::new();
    let source = test_source("puts 'hello' if true\n");
    let offenses = cop.check(&source);
    assert_eq!(offenses.len(), 1);
}

// ===== DuplicateMethods Tests =====

#[test]
fn test_duplicate_methods_no_offense() {
    let cop = DuplicateMethods::new();
    let source = test_source("def foo\nend\n\ndef bar\nend\n");
    let offenses = cop.check(&source);
    assert_eq!(offenses.len(), 0);
}

#[test]
fn test_duplicate_methods_detects_duplicate() {
    let cop = DuplicateMethods::new();
    let source = test_source("def foo\nend\n\ndef foo\nend\n");
    let offenses = cop.check(&source);
    assert_eq!(offenses.len(), 1);
    assert_eq!(offenses[0].location.line, 4);
    assert!(offenses[0].message.contains("foo"));
}

#[test]
fn test_duplicate_methods_detects_multiple_duplicates() {
    let cop = DuplicateMethods::new();
    let source = test_source("def foo\nend\n\ndef foo\nend\n\ndef foo\nend\n");
    let offenses = cop.check(&source);
    // Should report 2 offenses (2nd and 3rd occurrences)
    assert_eq!(offenses.len(), 2);
}

#[test]
fn test_duplicate_methods_with_question_mark() {
    let cop = DuplicateMethods::new();
    let source = test_source("def valid?\nend\n\ndef valid?\nend\n");
    let offenses = cop.check(&source);
    assert_eq!(offenses.len(), 1);
    assert!(offenses[0].message.contains("valid?"));
}

#[test]
fn test_duplicate_methods_with_exclamation_mark() {
    let cop = DuplicateMethods::new();
    let source = test_source("def save!\nend\n\ndef save!\nend\n");
    let offenses = cop.check(&source);
    assert_eq!(offenses.len(), 1);
    assert!(offenses[0].message.contains("save!"));
}

#[test]
fn test_duplicate_methods_skips_class_methods() {
    let cop = DuplicateMethods::new();
    let source = test_source("def self.foo\nend\n\ndef foo\nend\n");
    let offenses = cop.check(&source);
    // self.foo and foo are different, and we don't match self.foo anyway
    assert_eq!(offenses.len(), 0);
}

#[test]
fn test_duplicate_methods_skips_in_string() {
    let cop = DuplicateMethods::new();
    let source = test_source("def foo\nend\n\nputs 'def foo'\n");
    let offenses = cop.check(&source);
    assert_eq!(offenses.len(), 0);
}

#[test]
fn test_duplicate_methods_skips_in_comment() {
    let cop = DuplicateMethods::new();
    let source = test_source("def foo\nend\n\n# def foo\n");
    let offenses = cop.check(&source);
    assert_eq!(offenses.len(), 0);
}

#[test]
fn test_duplicate_methods_empty_file() {
    let cop = DuplicateMethods::new();
    let source = test_source("");
    let offenses = cop.check(&source);
    assert_eq!(offenses.len(), 0);
}

#[test]
fn test_duplicate_methods_with_indentation() {
    let cop = DuplicateMethods::new();
    let source = test_source("  def foo\n  end\n\n  def foo\n  end\n");
    let offenses = cop.check(&source);
    assert_eq!(offenses.len(), 1);
}

#[test]
fn test_duplicate_methods_different_methods_same_prefix() {
    let cop = DuplicateMethods::new();
    let source = test_source("def foo\nend\n\ndef foobar\nend\n");
    let offenses = cop.check(&source);
    assert_eq!(offenses.len(), 0);
}

#[test]
fn lint_debugger_overlap_reported_once() {
    let cop = Debugger::new();
    let offenses = cop.check(&test_source("binding.pry\n"));
    assert_eq!(offenses.len(), 1);
    assert_eq!(text_of(&offenses[0]), "Remove debugger entry point `binding.pry`.");
    assert_eq!(offenses[0].location.column, 1);
    assert_eq!(offenses[0].location.length, 11);
}

#[test]
fn lint_debugger_findings_in_position_order() {
    let cop = Debugger::default();
    let offenses = cop.check(&test_source("byebug; binding.pry; pry\n"));
    assert_eq!(offenses.len(), 3);
    assert_eq!(offenses[0].location.column, 1);
    assert_eq!(offenses[1].location.column, 9);
    assert_eq!(offenses[2].location.column, 22);
    for w in offenses.windows(2) {
        assert!(w[0].location.column + w[0].location.length <= w[1].location.column);
    }
}

#[test]
fn lint_literal_in_condition_message() {
    let offenses = LiteralInCondition::default().check(&test_source("x if nil\n"));
    assert_eq!(offenses.len(), 1);
    assert_eq!(text_of(&offenses[0]), "Literal `nil` used in `if` condition.");
    assert_eq!(offenses[0].location.column, 3);
    assert_eq!(offenses[0].location.length, 6);
}

#[test]
fn lint_duplicate_methods_grouped_by_name() {
    let cop = DuplicateMethods::default();
    let offenses = cop.check(&test_source("def a\nend\ndef b\nend\ndef b\nend\ndef a\nend\n"));
    assert_eq!(offenses.len(), 2);
    assert_eq!(text_of(&offenses[0]), "Method `a` is defined multiple times.");
    assert_eq!(offenses[0].location.line, 7);
    assert_eq!(text_of(&offenses[1]), "Method `b` is defined multiple times.");
    assert_eq!(offenses[1].location.line, 5);
    assert_eq!(offenses[1].location.column, 1);
    assert_eq!(offenses[1].location.length, 3);
}

#[test]
fn test_debugger_dot_is_literal() {
    let source = test_source("bindingXpry\nbinding.pry\n");
    let offenses = Debugger::new().check(&source);
    assert_eq!(offenses.len(), 1);
    assert_eq!(offenses[0].location.line, 2);
}
