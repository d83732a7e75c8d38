use rusty_slack_weather_status::number::{decimal_string, explicit_sign_string, parse_i16};

#[test]
fn decimal_string_writes_as_the_standard_library_does() {
    for v in i16::MIN..=i16::MAX {
        assert_eq!(decimal_string(v), v.to_string());
    }
    assert_eq!(decimal_string(0), "0");
    assert_eq!(decimal_string(10), "10");
    assert_eq!(decimal_string(-3), "-3");
    assert_eq!(decimal_string(i16::MIN), "-32768");
    assert_eq!(decimal_string(i16::MAX), "32767");
}

#[test]
fn explicit_sign_string_always_writes_the_sign() {
    assert_eq!(explicit_sign_string(0), "+0");
    assert_eq!(explicit_sign_string(-5), "-5");
    assert_eq!(explicit_sign_string(3), "+3");
    assert_eq!(explicit_sign_string(100), "+100");
    assert_eq!(explicit_sign_string(i16::MIN), "-32768");
    for v in i16::MIN..=i16::MAX {
        let expected = if v < 0 { format!("{v}") } else { format!("+{v}") };
        assert_eq!(explicit_sign_string(v), expected);
    }
}

#[test]
fn parse_i16_reads_a_sign_and_digits() {
    assert_eq!(parse_i16("0"), Some(0));
    assert_eq!(parse_i16("10"), Some(10));
    assert_eq!(parse_i16("-5"), Some(-5));
    assert_eq!(parse_i16("+3"), Some(3));
    assert_eq!(parse_i16("007"), Some(7));
    assert_eq!(parse_i16("-0"), Some(0));
    assert_eq!(parse_i16("+0"), Some(0));
    assert_eq!(parse_i16("32767"), Some(32767));
    assert_eq!(parse_i16("-32768"), Some(-32768));
    assert_eq!(parse_i16("000000000000000000000000000032767"), Some(32767));
}

#[test]
fn parse_i16_rejects_what_is_no_number() {
    assert_eq!(parse_i16(""), None);
    assert_eq!(parse_i16("+"), None);
    assert_eq!(parse_i16("-"), None);
    assert_eq!(parse_i16("--5"), None);
    assert_eq!(parse_i16("+-5"), None);
    assert_eq!(parse_i16("5-"), None);
    assert_eq!(parse_i16(" 5"), None);
    assert_eq!(parse_i16("5 "), None);
    assert_eq!(parse_i16("1_0"), None);
    assert_eq!(parse_i16("1.5"), None);
    assert_eq!(parse_i16("[+3]"), None);
    assert_eq!(parse_i16("５"), None);
    assert_eq!(parse_i16("10℃"), None);
    assert_eq!(parse_i16("0x10"), None);
}

#[test]
fn parse_i16_rejects_what_is_out_of_range() {
    assert_eq!(parse_i16("32768"), None);
    assert_eq!(parse_i16("-32769"), None);
    assert_eq!(parse_i16("+32768"), None);
    assert_eq!(parse_i16("99999"), None);
    assert_eq!(parse_i16("327670"), None);
    assert_eq!(parse_i16("100000000000000000000000000000000000000"), None);
    assert_eq!(parse_i16("-100000000000000000000000000000000000000"), None);
    assert_eq!(parse_i16("99999x"), None);
}

#[test]
fn parse_i16_reads_as_the_standard_library_does() {
    for text in [
        "", "+", "-", "0", "-0", "+0", "12", "-12", "+12", "0012", "32767", "32768", "-32768",
        "-32769", "65536", "1e3", "１２", " 1", "1 ", "1,000", "--1", "++1", "9999999999999999",
    ] {
        assert_eq!(parse_i16(text), text.parse::<i16>().ok(), "{:?}", text);
    }
}

#[test]
fn parse_i16_inverts_both_ways_of_writing() {
    for v in i16::MIN..=i16::MAX {
        assert_eq!(parse_i16(&decimal_string(v)), Some(v));
        assert_eq!(parse_i16(&explicit_sign_string(v)), Some(v));
    }
}
