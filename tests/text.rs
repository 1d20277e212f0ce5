use keyviewer::text::{contains_text, push_decimal, text_is, with_number};

#[test]
fn decimal_text() {
    assert_eq!(with_number("KEY", 0), "KEY0");
    assert_eq!(with_number("", 4_294_967_295), "4294967295");
    let mut s = String::from("x");
    push_decimal(&mut s, 1009);
    assert_eq!(s, "x1009");
}

#[test]
fn text_comparisons() {
    assert!(text_is("héllo", "héllo"));
    assert!(!text_is("héllo", "hello"));
    assert!(!text_is("ab", "abc"));
    assert!(contains_text("abcabd", "abd"));
    assert!(!contains_text("ab", "abc"));
    assert!(contains_text("", ""));
}
