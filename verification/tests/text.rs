use mandrake::text::{
    address_string, parse_decimal, push_address, push_decimal, push_number, push_signed_decimal,
};

fn number(n: u64, radix: u64, width: usize) -> String {
    let mut out = String::new();
    push_number(&mut out, n, radix, width);
    out
}

#[test]
fn addresses_have_at_least_eight_hex_digits() {
    assert_eq!(address_string(0), "0x00000000");
    assert_eq!(address_string(0x1337), "0x00001337");
    assert_eq!(address_string(0x1337_0000), "0x13370000");
    assert_eq!(address_string(0xffff_ffff), "0xffffffff");
    assert_eq!(address_string(0x1_0000_0000), "0x100000000");
    assert_eq!(address_string(0x7ffd_e3a1_b2c8), "0x7ffde3a1b2c8");
    assert_eq!(address_string(u64::MAX), "0xffffffffffffffff");
    assert_eq!(address_string(0xABCDEF), "0x00abcdef");
}

#[test]
fn addresses_agree_with_the_standard_formatter() {
    for value in [0u64, 1, 15, 16, 255, 0x1000, 0xdead_beef, 0x1234_5678_9abc_def0, u64::MAX] {
        assert_eq!(address_string(value), format!("0x{:08x}", value));
    }
}

#[test]
fn push_address_appends() {
    let mut out = String::from("@ ");
    push_address(&mut out, 0x401000);
    assert_eq!(out, "@ 0x00401000");
}

#[test]
fn decimal_numbers() {
    let mut out = String::new();
    push_decimal(&mut out, 0);
    out.push(' ');
    push_decimal(&mut out, 9);
    out.push(' ');
    push_decimal(&mut out, 10);
    out.push(' ');
    push_decimal(&mut out, 60);
    out.push(' ');
    push_decimal(&mut out, 128);
    out.push(' ');
    push_decimal(&mut out, u64::MAX);
    assert_eq!(out, "0 9 10 60 128 18446744073709551615");
}

#[test]
fn signed_decimal_numbers() {
    for value in [0i64, 1, -1, 42, -42, 255, i32::MIN as i64, i32::MAX as i64, i64::MIN, i64::MAX]
    {
        let mut out = String::new();
        push_signed_decimal(&mut out, value);
        assert_eq!(out, format!("{}", value));
    }
}

#[test]
fn numbers_in_any_radix_and_width() {
    assert_eq!(number(0, 10, 1), "0");
    assert_eq!(number(0, 10, 0), "0");
    assert_eq!(number(0, 16, 4), "0000");
    assert_eq!(number(5, 2, 1), "101");
    assert_eq!(number(5, 2, 8), "00000101");
    assert_eq!(number(255, 16, 1), "ff");
    assert_eq!(number(255, 16, 2), "ff");
    assert_eq!(number(255, 16, 3), "0ff");
    assert_eq!(number(0o777, 8, 1), "777");
    assert_eq!(number(1234, 10, 6), "001234");
}

#[test]
fn parse_decimal_reads_numbers() {
    assert_eq!(parse_decimal("0"), Some(0));
    assert_eq!(parse_decimal("60"), Some(60));
    assert_eq!(parse_decimal("007"), Some(7));
    assert_eq!(parse_decimal("+42"), Some(42));
    assert_eq!(parse_decimal("18446744073709551615"), Some(u64::MAX));
}

#[test]
fn parse_decimal_refuses_what_is_no_number() {
    assert_eq!(parse_decimal(""), None);
    assert_eq!(parse_decimal("+"), None);
    assert_eq!(parse_decimal("-1"), None);
    assert_eq!(parse_decimal("12a"), None);
    assert_eq!(parse_decimal(" 12"), None);
    assert_eq!(parse_decimal("12 "), None);
    assert_eq!(parse_decimal("++1"), None);
    assert_eq!(parse_decimal("1+"), None);
    assert_eq!(parse_decimal("0x10"), None);
    assert_eq!(parse_decimal("18446744073709551616"), None);
    assert_eq!(parse_decimal("99999999999999999999999"), None);
    assert_eq!(parse_decimal("\u{0661}"), None);
}

#[test]
fn parse_decimal_agrees_with_the_standard_parser() {
    for text in [
        "0", "1", "+1", "-0", "+0", "000", "4294967296", "18446744073709551615",
        "18446744073709551616", "1e3", "", "+", "१२", "12\n", "1_000",
    ] {
        assert_eq!(parse_decimal(text), text.parse::<u64>().ok(), "{:?}", text);
    }
}
