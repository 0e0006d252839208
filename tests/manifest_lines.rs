use ripper_launcher::vdf::{extract_vdf_value, library_roots, parse_root_line};
use ripper_launcher::text::{collapse_double_backslashes, contains_str, ends_with_str, starts_with_str, to_backslashes};

#[test]
fn path_line_value_is_unescaped() {
    let line = "\"path\"  \"C:\\\\Games\\\\Lib\"";
    assert_eq!(extract_vdf_value(line), Some("C:\\\\Games\\\\Lib".to_string()));
    assert_eq!(parse_root_line(line), Some("C:\\Games\\Lib".to_string()));
}

#[test]
fn value_needs_two_quoted_tokens() {
    assert_eq!(extract_vdf_value("\"path\""), None);
    assert_eq!(extract_vdf_value("\"path\" \"unterminated"), None);
    assert_eq!(extract_vdf_value("no quotes"), None);
    assert_eq!(extract_vdf_value("\"key\" \"\""), None);
}

#[test]
fn value_is_the_rightmost_quoted_token() {
    assert_eq!(extract_vdf_value("\"a\" \"b\" \"c\""), Some("c".to_string()));
}

#[test]
fn root_lines_must_start_with_the_path_key() {
    assert_eq!(parse_root_line("   \"path\"\t\"D:\\\\X\"  "), Some("D:\\X".to_string()));
    assert_eq!(parse_root_line("\"label\"\t\"D:\\\\X\""), None);
}

#[test]
fn library_roots_skip_known_roots_ignoring_case() {
    let manifest = "\"path\"\t\"C:\\\\STEAM\"\r\n\"path\"\t\"E:\\\\Lib\"\n\"path\"\t\"e:\\\\lib\"\n";
    let roots = library_roots("C:\\Steam", Some(manifest));
    assert_eq!(roots, vec!["C:\\Steam".to_string(), "E:\\Lib".to_string()]);
    assert_eq!(library_roots("C:\\Steam", None), vec!["C:\\Steam".to_string()]);
}

#[test]
fn string_helpers() {
    assert!(contains_str("HTTP/1.1 200 OK", "200"));
    assert!(!contains_str("ab", "abc"));
    assert!(contains_str("x", ""));
    assert!(starts_with_str("nxm://a", "nxm://"));
    assert!(ends_with_str("a.item", ".item"));
    assert_eq!(to_backslashes("a/b/c"), "a\\b\\c");
    assert_eq!(collapse_double_backslashes("a\\\\\\b"), "a\\\\b");
}
