use dmgr::text::{signed_decimal_text, decimal_text, ends_with, list_text, parse_u16, same_text, second_word_of};

#[test]
fn decimals() {
    assert_eq!(decimal_text(0), "0");
    assert_eq!(decimal_text(7), "7");
    assert_eq!(decimal_text(8080), "8080");
    assert_eq!(decimal_text(u64::MAX), "18446744073709551615");
    assert_eq!(list_text(&vec![1, 22, 65535]), "[1, 22, 65535]");
}

#[test]
fn words_and_numbers() {
    assert_eq!(second_word_of("a b c"), Some("b"));
    assert_eq!(second_word_of("\u{3000}a\u{A0}bb "), Some("bb"));
    assert_eq!(second_word_of("single"), None);
    assert_eq!(parse_u16("007"), Some(7));
    assert_eq!(parse_u16("+"), None);
    assert_eq!(parse_u16(""), None);
    assert!(ends_with("x.json", ".json"));
    assert!(!ends_with("json", ".json"));
    assert!(same_text("abc", "abc"));
    assert!(!same_text("abc", "abd"));
}

#[test]
fn signed_decimals() {
    assert_eq!(signed_decimal_text(-42), "-42");
    assert_eq!(signed_decimal_text(i32::MIN), "-2147483648");
    assert_eq!(signed_decimal_text(0), "0");
}
