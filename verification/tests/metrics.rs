use oxicop::cop::{Category, Cop, Severity};
use oxicop::source::SourceFile;
use oxicop::cops::metrics::{AbcSize, BlockLength, BlockNesting, ClassLength, CollectionLiteralLength, CompoundHash, CyclomaticComplexity, Eval, IoMethods, JSONLoad, MarshalLoad, MethodLength, ModuleLength, Open, ParameterLists, YAMLLoad, all_metrics_cops};

fn test_source(content: &str) -> SourceFile {
    SourceFile::from_string("test.rb", content.to_string())
}

#[test]
fn test_method_length() {
    let cop = MethodLength::new();
    let source = test_source("def foo\n  a = 1\n  b = 2\n  c = 3\n  d = 4\n  e = 5\n  f = 6\n  g = 7\n  h = 8\n  i = 9\n  j = 10\n  k = 11\nend\n");
    let offenses = cop.check(&source);
    assert_eq!(offenses.len(), 1);
}

#[test]
fn test_method_length_ok() {
    let cop = MethodLength::new();
    let source = test_source("def foo\n  1 + 1\nend\n");
    let offenses = cop.check(&source);
    assert_eq!(offenses.len(), 0);
}

#[test]
fn test_class_length() {
    let cop = ClassLength::with_max_lines(5);
    let mut code = String::from("class Foo\n");
    for i in 0..10 {
        code.push_str(&format!("  def method{}\n  end\n", i));
    }
    code.push_str("end\n");
    let source = test_source(&code);
    let offenses = cop.check(&source);
    assert_eq!(offenses.len(), 1);
}

#[test]
fn test_parameter_lists() {
    let cop = ParameterLists::new();
    let source = test_source("def foo(a, b, c, d, e, f)\nend\n");
    let offenses = cop.check(&source);
    assert_eq!(offenses.len(), 1);
}

#[test]
fn test_parameter_lists_ok() {
    let cop = ParameterLists::new();
    let source = test_source("def foo(a, b, c)\nend\n");
    let offenses = cop.check(&source);
    assert_eq!(offenses.len(), 0);
}

#[test]
fn test_eval() {
    let cop = Eval;
    let source = test_source("eval(user_input)\n");
    let offenses = cop.check(&source);
    assert_eq!(offenses.len(), 1);
    assert!(offenses[0].message.contains("security"));
}

#[test]
fn test_open() {
    let cop = Open;
    let source = test_source("open(filename)\n");
    let offenses = cop.check(&source);
    assert_eq!(offenses.len(), 1);
    assert!(offenses[0].message.contains("injection"));
}

#[test]
fn test_yaml_load() {
    let cop = YAMLLoad;
    let source = test_source("data = YAML.load(file)\n");
    let offenses = cop.check(&source);
    assert_eq!(offenses.len(), 1);
    assert!(offenses[0].message.contains("safe_load"));
}

#[test]
fn test_json_load() {
    let cop = JSONLoad;
    let source = test_source("data = JSON.load(file)\n");
    let offenses = cop.check(&source);
    assert_eq!(offenses.len(), 1);
    assert!(offenses[0].message.contains("parse"));
}

#[test]
fn test_marshal_load() {
    let cop = MarshalLoad;
    let source = test_source("data = Marshal.load(file)\n");
    let offenses = cop.check(&source);
    assert_eq!(offenses.len(), 1);
    assert!(offenses[0].message.contains("unsafe"));
}

#[test]
fn test_block_nesting() {
    let cop = BlockNesting::new();
    let source = test_source("items.each do |i|\n  i.map do |j|\n    j.select do |k|\n      k.each do |l|\n        puts l\n      end\n    end\n  end\nend\n");
    let offenses = cop.check(&source);
    assert!(offenses.len() >= 1);
}

#[test]
fn test_cyclomatic_complexity() {
    let cop = CyclomaticComplexity::with_max_complexity(3);
    let source = test_source("def foo\n  if a\n    if b\n      if c\n        if d\n          x\n        end\n      end\n    end\n  end\nend\n");
    let offenses = cop.check(&source);
    assert_eq!(offenses.len(), 1);
}

fn text_of(o: &oxicop::offense::Offense) -> String {
    String::from_utf8(o.message.as_bytes().to_vec()).unwrap()
}

#[test]
fn metrics_method_length_message_and_location() {
    let cop = MethodLength::with_max_lines(2);
    let source = test_source("x = 1\ndef foo\n  a\n  b\nend\n");
    let offenses = cop.check(&source);
    assert_eq!(offenses.len(), 1);
    assert_eq!(text_of(&offenses[0]), "Method has 4 lines (max 2)");
    assert_eq!(offenses[0].location.line, 2);
    assert_eq!(offenses[0].location.column, 1);
    assert_eq!(offenses[0].location.length, 3);
    assert_eq!(offenses[0].cop_name, "Metrics/MethodLength");
    assert_eq!(offenses[0].severity, Severity::Convention);
}

#[test]
fn metrics_nested_methods_count_outermost() {
    let cop = MethodLength::with_max_lines(3);
    let source = test_source("def a\n  def b\n  end\nend\n");
    let offenses = cop.check(&source);
    assert_eq!(offenses.len(), 1);
    assert_eq!(offenses[0].location.line, 1);
    assert_eq!(text_of(&offenses[0]), "Method has 4 lines (max 3)");
}

#[test]
fn metrics_commented_def_is_ignored() {
    let cop = MethodLength::with_max_lines(1);
    let source = test_source("# def foo\n  a\nend\n");
    assert_eq!(cop.check(&source).len(), 0);
}

#[test]
fn metrics_module_length() {
    let cop = ModuleLength::with_max_lines(2);
    let source = test_source("module M\n  X = 1\nend\n");
    let offenses = cop.check(&source);
    assert_eq!(offenses.len(), 1);
    assert_eq!(text_of(&offenses[0]), "Module has 3 lines (max 2)");
    assert_eq!(offenses[0].location.length, 6);
}

#[test]
fn metrics_class_length_default_ok() {
    let cop = ClassLength::new();
    let source = test_source("class Foo\nend\n");
    assert_eq!(cop.check(&source).len(), 0);
}

#[test]
fn metrics_block_length() {
    let cop = BlockLength::with_max_lines(2);
    let source = test_source("items.each do |i|\n  puts i\nend\n[1].map { |x| x }\n");
    let offenses = cop.check(&source);
    assert_eq!(offenses.len(), 1);
    assert_eq!(text_of(&offenses[0]), "Block has 3 lines (max 2)");
    assert_eq!(offenses[0].location.line, 1);
    assert_eq!(offenses[0].location.length, 2);
}

#[test]
fn metrics_block_nesting_message() {
    let cop = BlockNesting::with_max_depth(1);
    let source = test_source("a.each do\n  b.each do\n  end\nend\n");
    let offenses = cop.check(&source);
    assert_eq!(offenses.len(), 1);
    assert_eq!(text_of(&offenses[0]), "Block nesting depth is 2 (max 1)");
    assert_eq!(offenses[0].location.line, 2);
    assert_eq!(offenses[0].location.length, 11);
}

#[test]
fn metrics_parameter_lists_message() {
    let cop = ParameterLists::with_max_params(2);
    let source = test_source("def foo(a, b, c)\nend\n");
    let offenses = cop.check(&source);
    assert_eq!(offenses.len(), 1);
    assert_eq!(text_of(&offenses[0]), "Method has 3 parameters (max 2)");
}

#[test]
fn metrics_cyclomatic_complexity_message() {
    let cop = CyclomaticComplexity::with_max_complexity(2);
    let source = test_source("def foo\n  if a&&b\n    x\n  end\nend\n");
    let offenses = cop.check(&source);
    assert_eq!(offenses.len(), 1);
    assert_eq!(text_of(&offenses[0]), "Cyclomatic complexity is 3 (max 2)");
}

#[test]
fn metrics_abc_size_message() {
    let cop = AbcSize::with_max_size(2);
    let source = test_source("def foo\n  a = 1\n  if b || c\n  end\nend\n");
    let offenses = cop.check(&source);
    assert_eq!(offenses.len(), 1);
    assert_eq!(text_of(&offenses[0]), "ABC size is 3 (max 2)");
    assert_eq!(offenses[0].location.length, 3);
}

#[test]
fn metrics_abc_size_default_ok() {
    let cop = AbcSize::default();
    let source = test_source("def foo\n  a = 1\nend\n");
    assert_eq!(cop.check(&source).len(), 0);
}

#[test]
fn metrics_collection_literal_length_reports_nothing() {
    let cop = CollectionLiteralLength::with_max_length(1);
    let source = test_source("x = [1, 2, 3]\n");
    assert_eq!(cop.check(&source).len(), 0);
}

#[test]
fn metrics_eval_location() {
    let cop = Eval;
    let source = test_source("x = eval(code) # eval(y)\ns = \"eval(z)\"\n");
    let offenses = cop.check(&source);
    assert_eq!(offenses.len(), 1);
    assert_eq!(offenses[0].location.line, 1);
    assert_eq!(offenses[0].location.column, 5);
    assert_eq!(offenses[0].location.length, 5);
    assert_eq!(offenses[0].severity, Severity::Warning);
    assert_eq!(cop.category(), Category::Lint);
}

#[test]
fn metrics_yaml_safe_load_line_ok() {
    let cop = YAMLLoad;
    let source = test_source("YAML.load(a) if YAML.respond_to?(:safe_load)\n");
    assert_eq!(cop.check(&source).len(), 0);
}

#[test]
fn metrics_io_methods_order() {
    let cop = IoMethods;
    let source = test_source("spawn(x); system(y)\n");
    let offenses = cop.check(&source);
    assert_eq!(offenses.len(), 2);
    assert_eq!(text_of(&offenses[0]), "Be careful with `system` - validate inputs to prevent command injection.");
    assert_eq!(offenses[0].location.column, 11);
    assert_eq!(text_of(&offenses[1]), "Be careful with `spawn` - validate inputs to prevent command injection.");
    assert_eq!(offenses[1].location.column, 1);
}

#[test]
fn metrics_open_and_loads_quiet_on_clean_code() {
    let source = test_source("opened = true\nJSON.parse(s)\n");
    assert_eq!(Open.check(&source).len(), 0);
    assert_eq!(JSONLoad.check(&source).len(), 0);
    assert_eq!(MarshalLoad.check(&source).len(), 0);
    assert_eq!(CompoundHash.check(&source).len(), 0);
}

#[test]
fn metrics_all_cops_count() {
    let cops = all_metrics_cops();
    assert_eq!(cops.len(), 16);
    assert_eq!(cops[0].name(), "Metrics/MethodLength");
    assert_eq!(cops[15].name(), "Security/CompoundHash");
}
