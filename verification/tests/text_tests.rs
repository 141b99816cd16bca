use desktop_lyrics::text::{i64_to_decimal, is_blank, is_digits, normalize, str_eq};

#[test]
fn writes_integers_in_decimal() {
    assert_eq!(i64_to_decimal(0), "0");
    assert_eq!(i64_to_decimal(7), "7");
    assert_eq!(i64_to_decimal(1842801267), "1842801267");
    assert_eq!(i64_to_decimal(-42), "-42");
    assert_eq!(i64_to_decimal(i64::MAX), i64::MAX.to_string());
    assert_eq!(i64_to_decimal(i64::MIN), i64::MIN.to_string());
}

#[test]
fn blank_text_is_only_whitespace() {
    assert!(is_blank(""));
    assert!(is_blank(" \t\n\u{3000}"));
    assert!(!is_blank(" a "));
}

#[test]
fn digit_strings_are_non_empty_ascii_digits() {
    assert!(is_digits("0123456789"));
    assert!(!is_digits(""));
    assert!(!is_digits("12a"));
    assert!(!is_digits("١٢"));
    assert!(str_eq("知我", "知我"));
    assert!(!str_eq("知我", "知"));
}

#[test]
fn lowercasing_follows_unicode() {
    assert_eq!(normalize("İ"), "i\u{307}");
    assert_eq!(normalize("ΣΑΣ"), "σασ");
}
