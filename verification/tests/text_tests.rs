use teledap::numtext::{decimal_chars, parse_usize, trim_bounds};
use teledap::text::{join_strings, join_strs, vec_contains, vec_ends_with, vec_starts_with};

fn chars(s: &str) -> Vec<char> {
    s.chars().collect()
}

#[test]
fn test_join_strs() {
    assert_eq!(join_strs(&vec!["a", "b", "c"], ", "), "a, b, c");
    assert_eq!(join_strs(&vec![], ", "), "");
    assert_eq!(join_strings(&vec!["x".to_string()], "-"), "x");
}

#[test]
fn test_char_vector_searches() {
    assert!(vec_starts_with(&chars("src/main.c"), &chars("src/")));
    assert!(!vec_starts_with(&chars("sr"), &chars("src")));
    assert!(vec_ends_with(&chars("int*"), &chars("*")));
    assert!(vec_contains(&chars("my_variable"), &chars("var")));
    assert!(!vec_contains(&chars("abc"), &chars("abd")));
}

#[test]
fn test_decimal_and_parse() {
    assert_eq!(decimal_chars(0), vec!['0']);
    assert_eq!(decimal_chars(4096).into_iter().collect::<String>(), "4096");
    let cs = chars("  123 ");
    let (lo, hi) = trim_bounds(&cs, 0, cs.len());
    assert_eq!((lo, hi), (2, 5));
    assert_eq!(parse_usize(&cs, lo, hi), Some(123));
    assert_eq!(parse_usize(&chars("12a"), 0, 3), None);
    assert_eq!(parse_usize(&chars(""), 0, 0), None);
}
