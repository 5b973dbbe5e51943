use oxicop::config::{CopConfig, CopSettings, configured_severity, excluded, glob_matches};
use oxicop::cop::Severity;
use oxicop::offense::{Finding, Location, Message, Offense, report, sort_by_position, with_severity};
use oxicop::source::{SourceFile, in_string_or_comment_exec, split_lines_exec};

fn source(content: &str) -> SourceFile {
    SourceFile::from_string("dir/sample.rb", content.to_string())
}

#[test]
fn library_lines_follow_str_lines() {
    let s = source("a\r\nb\n\nc");
    assert_eq!(s.line_count(), 4);
    assert_eq!(s.line(1), Some(&b"a"[..]));
    assert_eq!(s.line(2), Some(&b"b"[..]));
    assert_eq!(s.line(3), Some(&b""[..]));
    assert_eq!(s.line(4), Some(&b"c"[..]));
    assert_eq!(s.line(0), None);
    assert_eq!(s.line(5), None);
    let v = split_lines_exec(b"x\n");
    assert_eq!(v.len(), 1);
    assert_eq!(split_lines_exec(b"").len(), 0);
}

#[test]
fn library_lines_have_no_line_feed() {
    let text = "one\ntwo\r\n\nthree\n";
    for l in split_lines_exec(text.as_bytes()) {
        assert!(!l.contains(&10u8));
    }
}

#[test]
fn library_source_path_and_name() {
    let s = source("x\n");
    assert_eq!(s.path(), b"dir/sample.rb");
    assert_eq!(s.file_name(), Some(&b"sample.rb"[..]));
    assert!(!s.is_empty());
    assert!(source("").is_empty());
    assert_eq!(s.content(), b"x\n");
}

#[test]
fn library_strings_and_comments() {
    let l = b"x = 'a#b' # note \"q\"";
    assert!(!in_string_or_comment_exec(l, 1));
    assert!(in_string_or_comment_exec(l, 6));
    assert!(in_string_or_comment_exec(l, 7));
    assert!(!in_string_or_comment_exec(l, 10));
    assert!(in_string_or_comment_exec(l, 11));
    assert!(in_string_or_comment_exec(l, 12));
    assert!(in_string_or_comment_exec(l, 20));
    assert!(!in_string_or_comment_exec(l, 0));
    assert!(!in_string_or_comment_exec(l, 99));
    let esc = b"s = \"a\\\"b\" + c";
    assert!(in_string_or_comment_exec(esc, 8));
    assert!(!in_string_or_comment_exec(esc, 14));
}

#[test]
fn library_comment_runs_to_line_end() {
    let l = b"a # b 'c' d";
    for col in 3..=l.len() {
        assert!(in_string_or_comment_exec(l, col));
    }
}

#[test]
fn library_message_building() {
    let mut m = Message::from_str("n=");
    m.push_decimal(1234567890123);
    m.push_str(" ok");
    m.push_bytes(b"!");
    assert_eq!(m.as_bytes(), b"n=1234567890123 ok!");
    assert_eq!(m.len(), 19);
    assert!(m.contains("ok"));
    assert!(!m.contains("no"));
    assert_eq!(Message::new().len(), 0);
    let mut z = Message::new();
    z.push_decimal(0);
    assert_eq!(z.as_bytes(), b"0");
}

#[test]
fn library_report_stamps_cop() {
    let fs = vec![Finding::text(3, 4, 5, "bad"), Finding::new(1, 1, 0, Message::from_str("worse"))];
    let offs: Vec<Offense> = report("Style/Example", Severity::Warning, fs);
    assert_eq!(offs.len(), 2);
    assert_eq!(offs[0].cop_name, "Style/Example");
    assert_eq!(offs[0].severity, Severity::Warning);
    assert_eq!(offs[0].location, Location::new(3, 4, 5));
    assert_eq!(offs[0].message.as_bytes(), b"bad");
    assert_eq!(offs[1].location.line, 1);
    assert_eq!(offs[1].message.as_bytes(), b"worse");
    let o = Offense::new("Lint/X", Message::from_str("m"), Severity::Error, Location::new(2, 3, 4));
    assert_eq!(o.cop_name, "Lint/X");
    assert_eq!(o.location.column, 3);
}

#[test]
fn library_config_lookup() {
    let mut c = CopSettings::new();
    assert!(c.is_empty());
    c.insert("Layout/TrailingWhitespace".to_string(), CopConfig { enabled: Some(false), severity: None });
    c.insert("Style/StringLiterals".to_string(), CopConfig { enabled: Some(true), severity: Some("warning".to_string()) });
    assert_eq!(c.len(), 2);
    assert_eq!(c.is_cop_enabled("Layout/TrailingWhitespace"), Some(false));
    assert_eq!(c.is_cop_enabled("Style/StringLiterals"), Some(true));
    assert_eq!(c.cop_severity("Style/StringLiterals"), Some("warning"));
    assert_eq!(c.cop_severity("Layout/TrailingWhitespace"), None);
    assert_eq!(c.is_cop_enabled("Lint/Debugger"), None);
    assert_eq!(c.cop_severity("Lint/Debugger"), None);
}

#[test]
fn library_config_insert_replaces() {
    let mut c = CopSettings::new();
    c.insert("Lint/Debugger".to_string(), CopConfig { enabled: Some(true), severity: Some("error".to_string()) });
    c.insert("Lint/Debugger".to_string(), CopConfig { enabled: None, severity: Some("warning".to_string()) });
    assert_eq!(c.len(), 1);
    assert_eq!(c.is_cop_enabled("Lint/Debugger"), None);
    assert_eq!(c.cop_severity("Lint/Debugger"), Some("warning"));
}

#[test]
fn test_glob_matches_paths() {
    assert!(glob_matches("vendor/**/*", "vendor/a/b/c.rb"));
    assert!(glob_matches("vendor/**/*", "vendor/c.rb"));
    assert!(!glob_matches("vendor/**/*", "app/vendor.rb"));
    assert!(glob_matches("db/schema.rb", "db/schema.rb"));
    assert!(!glob_matches("db/*.rb", "db/migrate/x.rb"));
    assert!(glob_matches("db/?.rb", "db/x.rb"));
    assert!(!glob_matches("*.rb", "a/b.rb"));
}

#[test]
fn test_excluded_by_all_cops_patterns() {
    let patterns = vec!["vendor/**/*".to_string(), "db/schema.rb".to_string()];
    assert!(excluded("./vendor/gems/x.rb", &patterns));
    assert!(excluded("db/schema.rb", &patterns));
    assert!(!excluded("app/models/user.rb", &patterns));
    assert!(!excluded("db/schema.rb", &Vec::new()));
}

#[test]
fn test_file_name_is_final_component() {
    let name = |p: &str| SourceFile::from_string(p, String::new()).file_name().map(|n| n.to_vec());
    assert_eq!(name("dir/Gemfile"), Some(b"Gemfile".to_vec()));
    assert_eq!(name("./x.rb"), Some(b"x.rb".to_vec()));
    assert_eq!(name("a/b/"), Some(b"b".to_vec()));
    assert_eq!(name("a/b/."), Some(b"b".to_vec()));
    assert_eq!(name("a/.."), None);
    assert_eq!(name("."), None);
    assert_eq!(name("/"), None);
    assert_eq!(name(""), None);
    for p in ["dir/Gemfile", "./x.rb", "a/b/", "a/b/.", "a//b//", "a/..", "../x", ".", "./.", "/", "", "gemfile", ".rubocop.yml"] {
        let expected = std::path::Path::new(p).file_name().map(|n| n.to_str().unwrap().as_bytes().to_vec());
        assert_eq!(name(p), expected, "{}", p);
    }
    let s = SourceFile::from_string("lib/foo.gemspec", String::new());
    assert_eq!(s.path(), b"lib/foo.gemspec");
    assert_eq!(s.file_name_lossy(), Some(&b"foo.gemspec"[..]));
}

fn offense_at(name: &str, line: usize, column: usize) -> Offense {
    Offense::new(name, Message::from_str("m"), Severity::Convention, Location::new(line, column, 1))
}

#[test]
fn test_sort_by_position_is_stable() {
    let offs = vec![offense_at("A", 2, 1), offense_at("B", 1, 5), offense_at("C", 1, 2), offense_at("D", 1, 5)];
    let sorted = sort_by_position(offs);
    let names: Vec<&str> = sorted.iter().map(|o| o.cop_name.as_str()).collect();
    assert_eq!(names, vec!["C", "B", "D", "A"]);
}

#[test]
fn test_with_severity_overrides_all() {
    let offs = vec![offense_at("A", 1, 1), offense_at("B", 2, 1)];
    let kept = with_severity(offs, None);
    assert!(kept.iter().all(|o| o.severity == Severity::Convention));
    let changed = with_severity(kept, Some(Severity::Error));
    assert_eq!(changed.len(), 2);
    assert!(changed.iter().all(|o| o.severity == Severity::Error));
    assert_eq!(changed[1].cop_name, "B");
}

#[test]
fn test_configured_severity() {
    let mut c = CopSettings::new();
    c.insert("Lint/Debugger".to_string(), CopConfig { enabled: None, severity: Some("error".to_string()) });
    c.insert("Style/X".to_string(), CopConfig { enabled: None, severity: Some("loud".to_string()) });
    assert_eq!(configured_severity(&c, "Lint/Debugger"), Some(Severity::Error));
    assert_eq!(configured_severity(&c, "Style/X"), None);
    assert_eq!(configured_severity(&c, "Layout/Y"), None);
}
