use cmdprobe::text::{contains_sub, ends_with_sub, split_lines, str_eq, trim, usize_to_string};

#[test]
fn trim_removes_surrounding_whitespace() {
    assert_eq!(trim("  hi\t"), "hi");
    assert_eq!(trim("hi"), "hi");
    assert_eq!(trim(""), "");
    assert_eq!(trim(" \r\n\t"), "");
    assert_eq!(trim("a b"), "a b");
}

#[test]
fn str_eq_compares_contents() {
    assert!(str_eq("abc", "abc"));
    assert!(!str_eq("abc", "abd"));
    assert!(!str_eq("abc", "ab"));
    assert!(str_eq("", ""));
}

#[test]
fn split_lines_splits_at_newlines() {
    assert_eq!(split_lines("a\nb"), vec!["a", "b"]);
    assert_eq!(split_lines("a\nb\n"), vec!["a", "b"]);
    assert_eq!(split_lines("a\n\nb"), vec!["a", "", "b"]);
    assert_eq!(split_lines(""), Vec::<String>::new());
    assert_eq!(split_lines("\n"), vec![""]);
}

#[test]
fn contains_sub_finds_substrings() {
    assert!(contains_sub("beta not installed", "not installed"));
    assert!(contains_sub("beta not installed", "installed"));
    assert!(!contains_sub("alpha installed", "not installed"));
    assert!(contains_sub("anything", ""));
    assert!(!contains_sub("ab", "abc"));
}

#[test]
fn ends_with_sub_tests_suffixes() {
    assert!(ends_with_sub("beta not installed", "not installed"));
    assert!(!ends_with_sub("not installed here", "not installed"));
    assert!(ends_with_sub("x", ""));
    assert!(!ends_with_sub("", "x"));
}

#[test]
fn usize_to_string_renders_decimal() {
    assert_eq!(usize_to_string(0), "0");
    assert_eq!(usize_to_string(7), "7");
    assert_eq!(usize_to_string(10), "10");
    assert_eq!(usize_to_string(12345), "12345");
}
