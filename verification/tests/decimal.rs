use notes::decimal::{parse_i64, parse_u64};

#[test]
fn parse_i64_agrees_with_std() {
    let cases = [
        "0", "7", "42", "-42", "+42", "-0", "+0", "", "+", "-", "--1", "+-1", "1a", " 1", "1 ",
        "007", "9223372036854775807", "9223372036854775808", "-9223372036854775808",
        "-9223372036854775809", "99999999999999999999999", "١٢", "12.5",
    ];
    for c in cases {
        assert_eq!(parse_i64(c), c.parse::<i64>().ok(), "input {:?}", c);
    }
}

#[test]
fn parse_u64_agrees_with_std() {
    let cases = [
        "0", "7", "42", "-42", "+42", "-0", "+0", "", "+", "-", "++1", "1a", " 1",
        "18446744073709551615", "18446744073709551616", "99999999999999999999999", "3600",
    ];
    for c in cases {
        assert_eq!(parse_u64(c), c.parse::<u64>().ok(), "input {:?}", c);
    }
}

#[test]
fn parse_exact_values() {
    assert_eq!(parse_i64("-9223372036854775808"), Some(i64::MIN));
    assert_eq!(parse_i64("9223372036854775807"), Some(i64::MAX));
    assert_eq!(parse_u64("18446744073709551615"), Some(u64::MAX));
    assert_eq!(parse_i64("86400"), Some(86400));
}
