use pg_explorer::{chars_of, contains_text, push_decimal, push_signed, same_text};

#[test]
fn chars_in_order() {
    assert_eq!(chars_of("aé\"z"), vec!['a', 'é', '"', 'z']);
    assert!(chars_of("").is_empty());
}

#[test]
fn contains_text_cases() {
    assert!(contains_text("abcabd", "abd"));
    assert!(contains_text("abc", ""));
    assert!(contains_text("", ""));
    assert!(!contains_text("", "a"));
    assert!(!contains_text("ab", "abc"));
    assert!(!contains_text("abcab", "abd"));
}

#[test]
fn same_text_cases() {
    assert!(same_text("numeric", "numeric"));
    assert!(!same_text("numeric", "numerics"));
    assert!(!same_text("varchar", "bpchar"));
    assert!(same_text("", ""));
}

#[test]
fn decimal_formatting() {
    let mut s = String::from("n=");
    push_decimal(&mut s, 0);
    assert_eq!(s, "n=0");
    let mut s = String::new();
    push_decimal(&mut s, 1234567890);
    assert_eq!(s, "1234567890");
    let mut s = String::new();
    push_decimal(&mut s, u64::MAX);
    assert_eq!(s, "18446744073709551615");
}

#[test]
fn signed_formatting() {
    let mut s = String::new();
    push_signed(&mut s, -7);
    assert_eq!(s, "-7");
    let mut s = String::new();
    push_signed(&mut s, i64::MIN);
    assert_eq!(s, "-9223372036854775808");
    let mut s = String::new();
    push_signed(&mut s, 42);
    assert_eq!(s, "42");
}
