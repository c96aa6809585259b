use ferrosonic::text::{decimal_string, push_decimal};

#[test]
fn decimal_numbers() {
    assert_eq!(decimal_string(0), "0");
    assert_eq!(decimal_string(7), "7");
    assert_eq!(decimal_string(10), "10");
    assert_eq!(decimal_string(1234567890), "1234567890");
    assert_eq!(decimal_string(u64::MAX), u64::MAX.to_string());
    let mut s = String::from("Vol: ");
    push_decimal(&mut s, 42);
    assert_eq!(s, "Vol: 42");
}
