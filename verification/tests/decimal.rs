use stars_forks::decimal::u32_to_decimal;

#[test]
fn renders_zero() {
    assert_eq!(u32_to_decimal(0), "0");
}

#[test]
fn renders_single_digits() {
    assert_eq!(u32_to_decimal(7), "7");
    assert_eq!(u32_to_decimal(9), "9");
}

#[test]
fn renders_multi_digit_values() {
    assert_eq!(u32_to_decimal(10), "10");
    assert_eq!(u32_to_decimal(135), "135");
    assert_eq!(u32_to_decimal(1723), "1723");
    assert_eq!(u32_to_decimal(1000000), "1000000");
}

#[test]
fn renders_largest_counter() {
    assert_eq!(u32_to_decimal(u32::MAX), "4294967295");
}
