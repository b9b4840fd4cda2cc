use mvdis_license_plate_query::text::{
    contains, is_whitespace, parse_i32, trim, IntErrorKind,
};

fn parse(s: &str) -> Result<i32, IntErrorKind> {
    parse_i32(&s.chars().collect::<Vec<char>>())
}

fn std_kind(s: &str) -> Result<i32, IntErrorKind> {
    match s.parse::<i32>() {
        Ok(v) => Ok(v),
        Err(e) => Err(match e.kind() {
            std::num::IntErrorKind::Empty => IntErrorKind::Empty,
            std::num::IntErrorKind::InvalidDigit => IntErrorKind::InvalidDigit,
            std::num::IntErrorKind::PosOverflow => IntErrorKind::PosOverflow,
            std::num::IntErrorKind::NegOverflow => IntErrorKind::NegOverflow,
            _ => panic!("unexpected kind"),
        }),
    }
}

#[test]
fn parse_i32_agrees_with_std() {
    let cases = [
        "", "+", "-", "0", "-0", "+0", "7", "+42", "-42", "007", "2147483647", "2147483648",
        "-2147483648", "-2147483649", "99999999999", "-99999999999", "12a", "a12", "1 2", " 1",
        "1 ", "99999999999a", "-99999999999a", "１２", "+-1", "--1", "3000", "1,000",
    ];
    for c in cases {
        assert_eq!(parse(c), std_kind(c), "input {:?}", c);
    }
}

#[test]
fn parse_i32_error_kinds() {
    assert_eq!(parse(""), Err(IntErrorKind::Empty));
    assert_eq!(parse("-"), Err(IntErrorKind::InvalidDigit));
    assert_eq!(parse("2147483648"), Err(IntErrorKind::PosOverflow));
    assert_eq!(parse("-2147483649"), Err(IntErrorKind::NegOverflow));
    assert_eq!(parse("-2147483648"), Ok(i32::MIN));
}

#[test]
fn error_descriptions_match_std() {
    for c in ["", "x", "9999999999", "-9999999999"] {
        let ours = parse(c).unwrap_err();
        let theirs = c.parse::<i32>().unwrap_err().to_string();
        assert_eq!(ours.description(), theirs);
    }
}

#[test]
fn trim_agrees_with_std() {
    let cases = ["", "   ", " a ", "\t\n x y \r\n", "\u{3000}全形\u{3000}", "\u{a0}b", "ab", "\u{200b}z"];
    for c in cases {
        assert_eq!(trim(c), c.trim(), "input {:?}", c);
    }
}

#[test]
fn whitespace_agrees_with_std() {
    for c in ['\t', '\n', ' ', '\u{85}', '\u{a0}', '\u{1680}', '\u{2000}', '\u{200a}', '\u{200b}', '\u{2028}', '\u{202f}', '\u{205f}', '\u{3000}', 'a', '元', '\u{feff}'] {
        assert_eq!(is_whitespace(c), c.is_whitespace(), "char {:?}", c);
    }
}

#[test]
fn contains_agrees_with_std() {
    let cases = [
        ("驗證數字輸入錯誤，請重新輸入", "驗證數字輸入錯誤"),
        ("查詢成功", "驗證數字輸入錯誤"),
        ("", ""),
        ("abc", ""),
        ("", "a"),
        ("abcabd", "abd"),
        ("ab", "abc"),
    ];
    for (h, n) in cases {
        assert_eq!(contains(h, n), h.contains(n), "{:?} in {:?}", n, h);
    }
}

#[test]
fn decimal_forms_read_back() {
    for n in [0, 1, 9, 10, 99, 100, 1200, -1, -10, -999, i32::MAX, i32::MIN, 2147483640, -2147483640] {
        assert_eq!(parse(&n.to_string()), Ok(n), "value {}", n);
    }
}
