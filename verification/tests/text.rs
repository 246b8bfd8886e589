use domeneshop_cli::text::{boolean_text, decimal_text, natural_text, parse_i32};

#[test]
fn reads_plain_numbers() {
    assert_eq!(parse_i32("0"), Some(0));
    assert_eq!(parse_i32("7"), Some(7));
    assert_eq!(parse_i32("1234567"), Some(1234567));
    assert_eq!(parse_i32("0042"), Some(42));
}

#[test]
fn reads_signed_numbers() {
    assert_eq!(parse_i32("+15"), Some(15));
    assert_eq!(parse_i32("-15"), Some(-15));
    assert_eq!(parse_i32("-0"), Some(0));
    assert_eq!(parse_i32("+0"), Some(0));
}

#[test]
fn reads_the_ends_of_the_range() {
    assert_eq!(parse_i32("2147483647"), Some(i32::MAX));
    assert_eq!(parse_i32("-2147483648"), Some(i32::MIN));
    assert_eq!(parse_i32("2147483648"), None);
    assert_eq!(parse_i32("-2147483649"), None);
    assert_eq!(parse_i32("99999999999999999999999999"), None);
    assert_eq!(parse_i32("000000000000000000000000001"), Some(1));
}

#[test]
fn refuses_what_is_no_number() {
    assert_eq!(parse_i32(""), None);
    assert_eq!(parse_i32("+"), None);
    assert_eq!(parse_i32("-"), None);
    assert_eq!(parse_i32(" 1"), None);
    assert_eq!(parse_i32("1 "), None);
    assert_eq!(parse_i32("1.5"), None);
    assert_eq!(parse_i32("--1"), None);
    assert_eq!(parse_i32("1-"), None);
    assert_eq!(parse_i32("example.com"), None);
    assert_eq!(parse_i32("12a"), None);
    assert_eq!(parse_i32("٣"), None);
    assert_eq!(parse_i32("99999999999999999999999999x"), None);
}

#[test]
fn reads_as_the_standard_library_does() {
    let texts = [
        "", "0", "-0", "+7", "-7", "007", "2147483647", "2147483648", "-2147483648",
        "-2147483649", "1e3", "0x10", " 3", "3\n", "+-3", "é", "１２",
    ];
    for text in texts {
        assert_eq!(parse_i32(text), text.parse::<i32>().ok());
    }
}

#[test]
fn writes_natural_numbers() {
    assert_eq!(natural_text(0), "0");
    assert_eq!(natural_text(9), "9");
    assert_eq!(natural_text(10), "10");
    assert_eq!(natural_text(1234567890), "1234567890");
    assert_eq!(natural_text(u64::MAX), "18446744073709551615");
}

#[test]
fn writes_integers() {
    assert_eq!(decimal_text(0), "0");
    assert_eq!(decimal_text(42), "42");
    assert_eq!(decimal_text(-42), "-42");
    assert_eq!(decimal_text(i32::MAX), "2147483647");
    assert_eq!(decimal_text(i32::MIN), "-2147483648");
}

#[test]
fn what_is_written_is_read_back() {
    for n in [0, 1, -1, 9, 10, -10, 99, 100, 65535, -65536, i32::MAX, i32::MIN] {
        assert_eq!(decimal_text(n), n.to_string());
        assert_eq!(parse_i32(&decimal_text(n)), Some(n));
    }
}

#[test]
fn writes_booleans() {
    assert_eq!(boolean_text(true), "true");
    assert_eq!(boolean_text(false), "false");
}
