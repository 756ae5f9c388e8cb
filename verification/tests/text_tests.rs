use mini_power_unit::text::{decimal_string, parse_u8};

#[test]
fn decimal_of_zero_and_large_values() {
    assert_eq!(decimal_string(0), "0");
    assert_eq!(decimal_string(7), "7");
    assert_eq!(decimal_string(1234567890), "1234567890");
    assert_eq!(decimal_string(u128::MAX), u128::MAX.to_string());
}

#[test]
fn parse_u8_accepts_what_from_str_accepts() {
    assert_eq!(parse_u8(b"0"), Some(0));
    assert_eq!(parse_u8(b"255"), Some(255));
    assert_eq!(parse_u8(b"+7"), Some(7));
    assert_eq!(parse_u8(b"0042"), Some(42));
}

#[test]
fn parse_u8_refuses_what_from_str_refuses() {
    assert_eq!(parse_u8(b""), None);
    assert_eq!(parse_u8(b"+"), None);
    assert_eq!(parse_u8(b"256"), None);
    assert_eq!(parse_u8(b"99999999999999999999"), None);
    assert_eq!(parse_u8(b"-1"), None);
    assert_eq!(parse_u8(b"1a"), None);
    assert_eq!(parse_u8(b" 1"), None);
}

#[test]
fn parse_u8_agrees_with_std_on_all_decimals() {
    for n in 0u32..1000 {
        let s = n.to_string();
        assert_eq!(parse_u8(s.as_bytes()), s.parse::<u8>().ok());
    }
}
