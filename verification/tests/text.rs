use kpi_dsa::text::{
    chars_of, decimal_text, parse_i64, text_contains, trim_text, two_digit_decimal,
};

#[test]
fn decimal_text_matches_display() {
    for v in [0i64, 9, 10, -1, 305, i64::MAX, i64::MIN, -1_000_000] {
        assert_eq!(decimal_text(v), v.to_string());
    }
}

#[test]
fn two_digit_decimal_pads() {
    assert_eq!(two_digit_decimal(0), "00");
    assert_eq!(two_digit_decimal(7), "07");
    assert_eq!(two_digit_decimal(31), "31");
    assert_eq!(two_digit_decimal(123), "123");
}

#[test]
fn parse_i64_agrees_with_std() {
    let cases = [
        "", "-", "+", "0", "-0", "+5", "007", "12a", " 1", "1 ", "+-1", "--1",
        "9223372036854775807", "9223372036854775808", "-9223372036854775808",
        "-9223372036854775809", "00000000000000000000000000042", "99999999999999999999999",
        "١٢", "٣",
    ];
    for c in cases {
        assert_eq!(parse_i64(c), c.parse::<i64>().ok(), "input {:?}", c);
    }
}

#[test]
fn trim_text_agrees_with_std() {
    let cases = ["", "   ", " a ", "\u{3000}a b\t\n", "\u{85}x\u{2028}", "a", "\u{180E}a"];
    for c in cases {
        assert_eq!(trim_text(c), c.trim(), "input {:?}", c);
    }
}

#[test]
fn text_contains_agrees_with_std() {
    let cases = [("", ""), ("abc", ""), ("", "a"), ("abc", "abc"), ("abcd", "bc"), ("абв", "бв"), ("ab", "abc"), ("aab", "ab")];
    for (h, n) in cases {
        assert_eq!(text_contains(h, n), h.contains(n), "{:?} {:?}", h, n);
    }
}

#[test]
fn chars_of_lists_characters() {
    assert_eq!(chars_of("аб"), vec!['а', 'б']);
}
