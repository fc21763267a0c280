use hub::text::{decimal_string, join, text_less};

#[test]
fn decimal_of_numbers() {
    assert_eq!(decimal_string(0), "0");
    assert_eq!(decimal_string(7), "7");
    assert_eq!(decimal_string(10), "10");
    assert_eq!(decimal_string(1234567890), "1234567890");
    assert_eq!(decimal_string(u32::MAX), "4294967295");
}

#[test]
fn join_texts() {
    assert_eq!(join("Address: ", "juno1xyz"), "Address: juno1xyz");
    assert_eq!(join("", ""), "");
}

#[test]
fn text_order_is_code_point_order() {
    assert!(text_less("10", "9"));
    assert!(!text_less("9", "10"));
    assert!(text_less("ab", "abc"));
    assert!(!text_less("abc", "abc"));
    assert!(text_less("", "a"));
    assert!(!text_less("a", ""));
    assert!(text_less("Z", "a"));
    assert!(text_less("é", "ü"));
}
