use srm::decimal::{decimal_string, write_decimal};

#[test]
fn zero_is_a_single_digit() {
    assert_eq!(decimal_string(0), "0");
}

#[test]
fn single_digits() {
    let expected = ["0", "1", "2", "3", "4", "5", "6", "7", "8", "9"];
    let mut n: u64 = 0;
    while n < 10 {
        assert_eq!(decimal_string(n), expected[n as usize]);
        n += 1;
    }
}

#[test]
fn digits_come_most_significant_first() {
    assert_eq!(decimal_string(10), "10");
    assert_eq!(decimal_string(42), "42");
    assert_eq!(decimal_string(1203), "1203");
    assert_eq!(decimal_string(9_007_199_254_740_993), "9007199254740993");
}

#[test]
fn inner_and_trailing_zeros_are_kept() {
    assert_eq!(decimal_string(100), "100");
    assert_eq!(decimal_string(1_000_000), "1000000");
    assert_eq!(decimal_string(10_203_040), "10203040");
}

#[test]
fn largest_value() {
    assert_eq!(decimal_string(u64::MAX), "18446744073709551615");
}

#[test]
fn agrees_with_the_standard_rendering() {
    let mut n: u64 = 0;
    while n < 2500 {
        assert_eq!(decimal_string(n), n.to_string());
        n += 1;
    }
    let mut p: u64 = 1;
    while p <= u64::MAX / 10 {
        assert_eq!(decimal_string(p), p.to_string());
        assert_eq!(decimal_string(p - 1), (p - 1).to_string());
        assert_eq!(decimal_string(p + 1), (p + 1).to_string());
        p *= 10;
    }
}

#[test]
fn write_decimal_appends_to_what_is_there() {
    let mut out = String::from("size: ");
    write_decimal(5, &mut out);
    assert_eq!(out, "size: 5");
    write_decimal(120, &mut out);
    assert_eq!(out, "size: 5120");
}
