use cargo_actions::numbers::{i32_to_string, parse_i32, ParseIntError};

#[test]
fn decimal_text_matches_display() {
    for v in [0, 7, -7, 10, 42, -100, 123456789, i32::MAX, i32::MIN] {
        assert_eq!(i32_to_string(v), v.to_string());
    }
}

#[test]
fn parsing_matches_std() {
    for s in ["", "+", "-", "0", "-0", "+5", "42", "-42", "2147483647", "2147483648",
        "-2147483648", "-2147483649", "12a", "99999999999x", "x9", " 1", "1 ", "٣"]
    {
        let expected = s.parse::<i32>().map_err(|e| format!("{:?}", e.kind()));
        let got = parse_i32(s).map_err(|e| format!("{:?}", e));
        assert_eq!(got, expected, "{:?}", s);
    }
}

#[test]
fn each_parse_error() {
    assert_eq!(parse_i32(""), Err(ParseIntError::Empty));
    assert_eq!(parse_i32("-"), Err(ParseIntError::InvalidDigit));
    assert_eq!(parse_i32("3000000000"), Err(ParseIntError::PosOverflow));
    assert_eq!(parse_i32("-3000000000"), Err(ParseIntError::NegOverflow));
}

#[test]
fn written_numbers_read_back() {
    for v in [0, 1, -1, 99, -12345, i32::MAX, i32::MIN] {
        assert_eq!(parse_i32(&i32_to_string(v)), Ok(v));
    }
}
