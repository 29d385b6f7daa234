use unicreate::yaml_scalar::{format_yaml_field, format_yaml_scalar, needs_yaml_quotes, opt_field, schema_header};

#[test]
fn plain_values_need_no_quotes() {
    assert!(!needs_yaml_quotes("Publisher.Package"));
    assert!(!needs_yaml_quotes("1.2.3"));
    assert!(!needs_yaml_quotes("a:b"));
}

#[test]
fn empty_and_padded_values_need_quotes() {
    assert!(needs_yaml_quotes(""));
    assert!(needs_yaml_quotes(" x"));
    assert!(needs_yaml_quotes("x "));
    assert!(needs_yaml_quotes("x\u{3000}"));
}

#[test]
fn reserved_words_need_quotes_in_any_case() {
    for w in ["null", "~", "true", "FALSE", "Yes", "no", "ON", "off"] {
        assert!(needs_yaml_quotes(w), "{}", w);
    }
    assert!(!needs_yaml_quotes("nulls"));
}

#[test]
fn indicators_and_separators_need_quotes() {
    for w in ["-x", "?x", ":x", ",x", "[x", "]x", "{x", "}x", "#x", "&x", "*x", "!x", "|x", ">x", "@x", "`x", "\"x", "'x"] {
        assert!(needs_yaml_quotes(w), "{}", w);
    }
    assert!(needs_yaml_quotes("a: b"));
    assert!(needs_yaml_quotes("a #b"));
    assert!(needs_yaml_quotes("a:"));
    assert!(needs_yaml_quotes("a\tb"));
    assert!(needs_yaml_quotes("a\u{7f}b"));
    assert!(needs_yaml_quotes("a\u{9f}b"));
    assert!(!needs_yaml_quotes("a\u{a1}b"));
}

#[test]
fn scalar_quotes_and_doubles_single_quotes() {
    assert_eq!(format_yaml_scalar("plain"), "plain");
    assert_eq!(format_yaml_scalar("it's: here"), "'it''s: here'");
    assert_eq!(format_yaml_scalar(""), "''");
    assert_eq!(format_yaml_scalar("/S"), "/S");
}

#[test]
fn field_on_one_line() {
    assert_eq!(format_yaml_field("License", "MIT"), "License: MIT\n");
    assert_eq!(format_yaml_field("Name", "yes"), "Name: 'yes'\n");
}

#[test]
fn field_with_several_lines_is_a_block() {
    assert_eq!(
        format_yaml_field("Description", "first\r\nsecond\n\nlast"),
        "Description: |-\n  first\n  second\n  \n  last\n"
    );
    assert_eq!(format_yaml_field("D", "a\n"), "D: |-\n  a\n");
    assert_eq!(format_yaml_field("D", "\n"), "D: |-\n  \n");
}

#[test]
fn optional_field_is_empty_without_a_value() {
    assert_eq!(opt_field("Author", &None), "");
    assert_eq!(opt_field("Author", &Some(String::new())), "");
    assert_eq!(opt_field("Author", &Some("Ann".to_string())), "Author: Ann\n");
}

#[test]
fn header_names_kind_and_schema_version() {
    assert_eq!(
        schema_header("installer"),
        "# yaml-language-server: $schema=https://aka.ms/winget-manifest.installer.1.9.0.schema.json\n\n"
    );
}
