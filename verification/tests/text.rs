use match_ticket::text::decimal_text;

#[test]
fn decimal_text_of_zero_is_one_digit() {
    assert_eq!(decimal_text(0), "0");
}

#[test]
fn decimal_text_of_single_digits() {
    assert_eq!(decimal_text(7), "7");
    assert_eq!(decimal_text(9), "9");
}

#[test]
fn decimal_text_keeps_inner_and_trailing_zeros() {
    assert_eq!(decimal_text(10), "10");
    assert_eq!(decimal_text(1005), "1005");
    assert_eq!(decimal_text(120_000), "120000");
}

#[test]
fn decimal_text_of_largest_value_has_twenty_digits() {
    assert_eq!(decimal_text(u64::MAX), "18446744073709551615");
}

#[test]
fn decimal_text_agrees_with_std() {
    for value in [1u64, 42, 99, 100, 101, 65_535, 1_700_000_000, u64::MAX - 1] {
        assert_eq!(decimal_text(value), format!("{}", value));
    }
}
