use compilar::java::class_name;
use compilar::language::Language;
use compilar::sql::split_script;
use compilar::text::is_blank;

#[test]
fn blank_detects_whitespace_only() {
    assert!(is_blank(""));
    assert!(is_blank("  \t\n\r "));
    assert!(is_blank("\u{3000}\u{a0}"));
    assert!(!is_blank("  x "));
}

#[test]
fn registry_maps_every_tag() {
    assert_eq!(Language::from_tag("python"), Language::Python);
    assert_eq!(Language::from_tag("c"), Language::C);
    assert_eq!(Language::from_tag("cpp"), Language::Cpp);
    assert_eq!(Language::from_tag("java"), Language::Java);
    assert_eq!(Language::from_tag("kotlin"), Language::Kotlin);
    assert_eq!(Language::from_tag("javascript"), Language::JavaScript);
    assert_eq!(Language::from_tag("rust"), Language::Rust);
    assert_eq!(Language::from_tag("sql"), Language::Sql);
    assert_eq!(Language::from_tag("text"), Language::Text);
}

#[test]
fn unknown_tag_falls_back_to_python() {
    assert_eq!(Language::from_tag("cobol"), Language::Python);
    assert_eq!(Language::from_tag(""), Language::Python);
    assert_eq!(Language::from_tag("C"), Language::Python);
}

#[test]
fn class_name_is_read_from_declaration() {
    let src = "import java.util.*;\npublic class Hello {\n  public static void main(String[] a) {}\n}\n";
    assert_eq!(class_name(src), "Hello");
}

#[test]
fn class_name_without_brace_on_line() {
    assert_eq!(class_name("public class  Greeter \r\n{\n}"), "Greeter");
}

#[test]
fn class_name_defaults_to_main() {
    assert_eq!(class_name("class Hidden { }"), "Main");
    assert_eq!(class_name(""), "Main");
    assert_eq!(class_name("public class {"), "Main");
    assert_eq!(class_name("public class ../../evil {"), "Main");
}

#[test]
fn sql_statements_split_at_terminators() {
    assert_eq!(split_script("SELECT 1; BAD SQL;"), vec!["SELECT 1;", "BAD SQL;"]);
}

#[test]
fn sql_skips_comments_and_blank_lines() {
    let src = "-- make a table\nCREATE TABLE t(x);\n\n  INSERT INTO t\n   VALUES (1);\n-- done\nSELECT x FROM t";
    assert_eq!(
        split_script(src),
        vec!["CREATE TABLE t(x);", "INSERT INTO t VALUES (1);", "SELECT x FROM t"]
    );
}

#[test]
fn sql_drops_empty_statements() {
    assert_eq!(split_script("SELECT 1;;  ;\n;"), vec!["SELECT 1;"]);
    assert!(split_script("-- only a comment\n\n").is_empty());
    assert!(split_script("").is_empty());
}

#[test]
fn sql_terminator_inside_quotes_does_not_split() {
    assert_eq!(
        split_script("INSERT INTO t VALUES('a;b'); SELECT \"x;y\" FROM t;"),
        vec!["INSERT INTO t VALUES('a;b');", "SELECT \"x;y\" FROM t;"]
    );
    assert_eq!(
        split_script("SELECT 'it''s; fine'; SELECT 2"),
        vec!["SELECT 'it''s; fine';", "SELECT 2"]
    );
}

#[test]
fn class_name_stops_at_the_name() {
    assert_eq!(class_name("public class Foo extends Bar {\n}"), "Foo");
    assert_eq!(class_name("public class Shape implements Comparable<Shape> {"), "Shape");
    assert_eq!(class_name("public class Box<T> {"), "Box");
    assert_eq!(class_name("public class\n  Split\n{"), "Split");
    assert_eq!(class_name("public classic Foo {"), "Main");
}
