use select_monitor::decimal::decimal_string;

#[test]
fn zero_is_one_digit() {
    assert_eq!(decimal_string(0), "0");
}

#[test]
fn positive_numbers_have_no_sign_and_no_padding() {
    assert_eq!(decimal_string(1), "1");
    assert_eq!(decimal_string(9), "9");
    assert_eq!(decimal_string(10), "10");
    assert_eq!(decimal_string(42), "42");
    assert_eq!(decimal_string(100), "100");
    assert_eq!(decimal_string(1234567890), "1234567890");
}

#[test]
fn negative_numbers_have_a_minus_sign() {
    assert_eq!(decimal_string(-1), "-1");
    assert_eq!(decimal_string(-10), "-10");
    assert_eq!(decimal_string(-9876), "-9876");
}

#[test]
fn the_ends_of_the_range_are_written_in_full() {
    assert_eq!(decimal_string(i64::MAX), "9223372036854775807");
    assert_eq!(decimal_string(i64::MIN), "-9223372036854775808");
    assert_eq!(decimal_string(i64::MIN + 1), "-9223372036854775807");
}

#[test]
fn decimal_string_writes_what_the_standard_library_writes() {
    let mut value: i64 = 1;
    for _ in 0..62 {
        for candidate in [value - 1, value, value + 1, -value, -value - 1, -value + 1] {
            assert_eq!(decimal_string(candidate), format!("{}", candidate));
        }
        value *= 2;
    }
    let mut power: i64 = 1;
    for _ in 0..18 {
        for candidate in [power - 1, power, power + 1, -power, 1 - power] {
            assert_eq!(decimal_string(candidate), format!("{}", candidate));
        }
        power *= 10;
    }
}
