use libwdi::text::{decimal, digit, digits, flag_word, hex4, optional, quoted, record};
use libwdi::DeviceInfo;

fn fields(pairs: &[(&str, &str)]) -> Vec<(String, String)> {
    pairs.iter().map(|(name, value)| (name.to_string(), value.to_string())).collect()
}

fn device(vid: u16, mi: u8, desc: &[u8], driver_version: u64) -> DeviceInfo {
    DeviceInfo {
        vid,
        pid: 0xffff,
        is_composite: false,
        mi,
        desc: desc.to_vec(),
        driver: None,
        device_id: None,
        hardware_id: None,
        compatible_id: None,
        upper_filter: None,
        driver_version,
    }
}

fn debug_field(text: &str, name: &str) -> String {
    let start = text.find(&format!("{}: ", name)).unwrap() + name.len() + 2;
    let rest = &text[start..];
    let end = rest.find(", ").unwrap_or(rest.len() - 2);
    rest[..end].to_string()
}

#[test]
fn quoted_puts_double_quotes_around() {
    assert_eq!(quoted(""), "\"\"");
    assert_eq!(quoted("0x1234"), "\"0x1234\"");
}

#[test]
fn flag_word_is_true_or_false() {
    assert_eq!(flag_word(true), "true");
    assert_eq!(flag_word(false), "false");
}

#[test]
fn optional_is_none_or_some() {
    assert_eq!(optional(None), "None");
    assert_eq!(optional(Some("\"x\"")), "Some(\"x\")");
    assert_eq!(optional(Some("")), "Some()");
}

#[test]
fn record_without_fields_is_its_name() {
    assert_eq!(record("Unit", &Vec::new()), "Unit");
}

#[test]
fn record_with_fields_lists_them_between_braces() {
    assert_eq!(record("One", &fields(&[("a", "1")])), "One { a: 1 }");
    assert_eq!(record("Two", &fields(&[("a", "1"), ("b", "\"x\"")])), "Two { a: 1, b: \"x\" }");
    assert_eq!(
        record("Three", &fields(&[("a", "1"), ("b", "2"), ("c", "3")])),
        "Three { a: 1, b: 2, c: 3 }"
    );
}

#[test]
fn ids_are_shown_as_four_hexadecimal_digits() {
    for (vid, text) in [
        (0x0000, "\"0x0000\""),
        (0x0001, "\"0x0001\""),
        (0x00af, "\"0x00af\""),
        (0x0abc, "\"0x0abc\""),
        (0x1d50, "\"0x1d50\""),
        (0xffff, "\"0xffff\""),
    ] {
        let shown = device(vid, 0, b"d\0", 0).debug_string();
        assert_eq!(debug_field(&shown, "vid"), text);
        assert_eq!(debug_field(&shown, "pid"), "\"0xffff\"");
    }
}

#[test]
fn numbers_are_shown_in_decimal() {
    for (mi, version, mi_text, version_text) in [
        (0u8, 0u64, "0", "0"),
        (9, 10, "9", "10"),
        (10, 99, "10", "99"),
        (255, 1_000_000, "255", "1000000"),
        (100, u64::MAX, "100", "18446744073709551615"),
    ] {
        let shown = device(1, mi, b"d\0", version).debug_string();
        assert_eq!(debug_field(&shown, "mi"), mi_text);
        assert_eq!(debug_field(&shown, "driver_version"), version_text);
    }
}

#[test]
fn byte_strings_are_shown_as_text_with_escapes() {
    for (desc, text) in [
        (&b"plain\0"[..], "\"plain\\0\""),
        (&b""[..], "\"\""),
        (&b"tab\there\0"[..], "\"tab\\there\\0\""),
        (&b"quote\"d\0"[..], "\"quote\\\"d\\0\""),
        (&[0xff, 0x00][..], "\"\\xff\\0\""),
        (&[0xc3, 0xa9, 0x00][..], "\"\u{e9}\\0\""),
    ] {
        let shown = device(1, 0, desc, 0).debug_string();
        assert_eq!(debug_field(&shown, "desc"), text);
    }
}

#[test]
fn digit_gives_each_of_the_sixteen() {
    let all: Vec<&str> = (0u8..16).map(digit).collect();
    assert_eq!(all.concat(), "0123456789abcdef");
}

#[test]
fn hex4_agrees_with_the_standard_formatting() {
    assert_eq!(hex4(0), "0x0000");
    assert_eq!(hex4(0x1d50), "0x1d50");
    assert_eq!(hex4(0xffff), "0xffff");
    for value in [0u16, 1, 9, 10, 15, 16, 255, 256, 4095, 4096, 0x6018, 0xabcd, 0xfffe, 0xffff] {
        assert_eq!(hex4(value), format!("0x{:04x}", value));
    }
}

#[test]
fn digits_agree_with_the_standard_formatting() {
    assert_eq!(digits(0), "0");
    assert_eq!(digits(7), "7");
    assert_eq!(digits(10), "10");
    assert_eq!(digits(1234567890), "1234567890");
    assert_eq!(digits(u64::MAX), "18446744073709551615");
    for value in [0u64, 9, 10, 11, 99, 100, 101, 999, 1000, 65535, 1 << 32, u64::MAX - 1] {
        assert_eq!(digits(value), format!("{}", value));
    }
}

#[test]
fn decimal_puts_a_minus_sign_before_negative_numbers() {
    assert_eq!(decimal(0), "0");
    assert_eq!(decimal(-1), "-1");
    assert_eq!(decimal(-99), "-99");
    assert_eq!(decimal(2147483647), "2147483647");
    assert_eq!(decimal(i64::MAX), "9223372036854775807");
    assert_eq!(decimal(i64::MIN), "-9223372036854775808");
    for value in [-1000i64, -10, -9, 9, 10, 1000] {
        assert_eq!(decimal(value), format!("{}", value));
    }
}
