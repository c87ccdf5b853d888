use keepawake::text::{parse_u64, to_wide};

#[test]
fn parse_u64_accepts_plain_digits() {
    assert_eq!(parse_u64("42"), Some(42));
    assert_eq!(parse_u64("0"), Some(0));
    assert_eq!(parse_u64("007"), Some(7));
}

#[test]
fn parse_u64_accepts_one_plus_sign() {
    assert_eq!(parse_u64("+7"), Some(7));
    assert_eq!(parse_u64("+"), None);
    assert_eq!(parse_u64("++7"), None);
}

#[test]
fn parse_u64_refuses_non_digits() {
    assert_eq!(parse_u64(""), None);
    assert_eq!(parse_u64("-1"), None);
    assert_eq!(parse_u64(" 5"), None);
    assert_eq!(parse_u64("5s"), None);
    assert_eq!(parse_u64("１"), None);
}

#[test]
fn parse_u64_range_limit() {
    assert_eq!(parse_u64("18446744073709551615"), Some(u64::MAX));
    assert_eq!(parse_u64("18446744073709551616"), None);
    assert_eq!(parse_u64("99999999999999999999x"), None);
}

#[test]
fn parse_u64_agrees_with_std() {
    for s in ["", "+", "1", "+12", "-0", "00", "123456789", "4294967296", "18446744073709551615", "184467440737095516150", "1 2", "x"] {
        assert_eq!(parse_u64(s), s.parse::<u64>().ok(), "input {:?}", s);
    }
}

#[test]
fn to_wide_encodes_utf16_with_terminator() {
    assert_eq!(to_wide(""), vec![0u16]);
    assert_eq!(to_wide("A中😀"), vec![0x41, 0x4E2D, 0xD83D, 0xDE00, 0]);
    let s = "No-Sleep-Agent 启动失败";
    let mut expected: Vec<u16> = s.encode_utf16().collect();
    expected.push(0);
    assert_eq!(to_wide(s), expected);
}
