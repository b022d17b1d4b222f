use camctrl::text::{joined, equals, push_decimal, push_signed_decimal, starts_with};

#[test]
fn decimal_rendering() {
    let mut s = String::from("n=");
    push_decimal(&mut s, 0);
    assert_eq!(s, "n=0");
    let mut s = String::new();
    push_decimal(&mut s, u64::MAX);
    assert_eq!(s, "18446744073709551615");
    let mut s = String::new();
    push_signed_decimal(&mut s, i64::MIN);
    assert_eq!(s, "-9223372036854775808");
    let mut s = String::new();
    push_signed_decimal(&mut s, 1500);
    assert_eq!(s, "1500");
}

#[test]
fn text_helpers() {
    assert_eq!(joined("ab", "cd"), "abcd");
    assert!(equals("é", "é"));
    assert!(!equals("a", "ab"));
    assert!(starts_with("http://x/y", "http://x/"));
    assert!(!starts_with("http://x", "http://x/"));
    assert!(starts_with("anything", ""));
}
