use charm::text::{decimal_len, digit, push_decimal, push_padded_decimal};

fn decimal_of(n: u64) -> String {
    let mut s = String::new();
    push_decimal(&mut s, n);
    s
}

fn padded(n: u64, width: usize) -> String {
    let mut s = String::new();
    push_padded_decimal(&mut s, n, width);
    s
}

#[test]
fn digits_are_ascii_digits() {
    assert_eq!(digit(0), '0');
    assert_eq!(digit(7), '7');
    assert_eq!(digit(9), '9');
}

#[test]
fn decimal_has_no_leading_zeros() {
    assert_eq!(decimal_of(0), "0");
    assert_eq!(decimal_of(9), "9");
    assert_eq!(decimal_of(10), "10");
    assert_eq!(decimal_of(31), "31");
    assert_eq!(decimal_of(12345), "12345");
    assert_eq!(decimal_of(u64::MAX), "18446744073709551615");
}

#[test]
fn decimal_is_appended_to_what_is_there() {
    let mut s = String::from("n=");
    push_decimal(&mut s, 42);
    assert_eq!(s, "n=42");
}

#[test]
fn decimal_length_counts_digits() {
    assert_eq!(decimal_len(0), 1);
    assert_eq!(decimal_len(9), 1);
    assert_eq!(decimal_len(10), 2);
    assert_eq!(decimal_len(99999), 5);
    assert_eq!(decimal_len(100000), 6);
    assert_eq!(decimal_len(u64::MAX), 20);
}

#[test]
fn padding_aligns_to_the_right() {
    assert_eq!(padded(1, 5), "    1");
    assert_eq!(padded(0, 5), "    0");
    assert_eq!(padded(1234, 5), " 1234");
    assert_eq!(padded(12345, 5), "12345");
}

#[test]
fn padding_never_cuts_a_number() {
    assert_eq!(padded(123456, 5), "123456");
    assert_eq!(padded(7, 0), "7");
    assert_eq!(padded(7, 1), "7");
}

#[test]
fn padding_agrees_with_std_formatting() {
    for n in [0u64, 5, 99, 1000, 99999, 100000, 4294967296, u64::MAX] {
        assert_eq!(padded(n, 5), format!("{:>5}", n));
    }
}
