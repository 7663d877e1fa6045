use progenitor_impl::decimal::{
    int_error_message, parse_u16, split_status_line, u16_to_decimal, IntErrorKind,
};

const SAMPLES: &[&str] = &[
    "", "+", "-", "0", "7", "00500", "+12", "-5", "65535", "65536", "99999x", "6553x", "x", " 1",
    "1 ", "1_000", "１２", "+-1", "++1", "0000000000000000000001", "123456789012345678901234567890",
    "404", "500", "٣",
];

#[test]
fn parsing_codes_agrees_with_std() {
    for s in SAMPLES {
        let ours = parse_u16(s);
        let std_result = s.parse::<u16>();
        match (ours, std_result) {
            (Ok(a), Ok(b)) => assert_eq!(a, b, "value of {:?}", s),
            (Err(k), Err(e)) => {
                assert_eq!(int_error_message(k), e.to_string(), "error of {:?}", s);
            }
            (a, b) => panic!("{:?}: {:?} against {:?}", s, a, b),
        }
    }
}

#[test]
fn reading_errors() {
    assert_eq!(parse_u16(""), Err(IntErrorKind::Empty));
    assert_eq!(parse_u16("+"), Err(IntErrorKind::InvalidDigit));
    assert_eq!(parse_u16("-1"), Err(IntErrorKind::InvalidDigit));
    assert_eq!(parse_u16("65536"), Err(IntErrorKind::PosOverflow));
    assert_eq!(parse_u16("99999x"), Err(IntErrorKind::PosOverflow));
    assert_eq!(parse_u16("6553x"), Err(IntErrorKind::InvalidDigit));
    assert_eq!(parse_u16("+0065535"), Ok(65535));
    assert_eq!(int_error_message(IntErrorKind::Empty), "cannot parse integer from empty string");
    assert_eq!(int_error_message(IntErrorKind::InvalidDigit), "invalid digit found in string");
    assert_eq!(
        int_error_message(IntErrorKind::PosOverflow),
        "number too large to fit in target type"
    );
}

#[test]
fn writing_codes_agrees_with_std() {
    for n in [0u16, 1, 9, 10, 99, 100, 200, 404, 999, 1000, 65534, 65535] {
        assert_eq!(u16_to_decimal(n), n.to_string());
    }
}

#[test]
fn status_lines() {
    assert_eq!(split_status_line("500:{}"), Ok((500, "{}".to_string())));
    assert_eq!(split_status_line("404:a:b"), Ok((404, "a:b".to_string())));
    assert_eq!(split_status_line("201:"), Ok((201, String::new())));
    assert_eq!(
        split_status_line("abc"),
        Err("Unable to split status code and value".to_string())
    );
    assert_eq!(
        split_status_line("x:1"),
        Err("Unable to parse status code: invalid digit found in string".to_string())
    );
    assert_eq!(
        split_status_line(":v"),
        Err("Unable to parse status code: cannot parse integer from empty string".to_string())
    );
    assert_eq!(
        split_status_line("70000:v"),
        Err("Unable to parse status code: number too large to fit in target type".to_string())
    );
}

/// Writing a code and a value as `code:value` and splitting gives them back.
#[test]
fn status_line_roundtrip() {
    for (code, value) in [(0u16, ""), (500, "{\"message\":\"x\"}"), (65535, "a:b:c"), (7, "é:")] {
        let line = format!("{}:{}", u16_to_decimal(code), value);
        assert_eq!(split_status_line(&line), Ok((code, value.to_string())));
    }
}
