use mel_dl::numeral::{parse_u8, to_decimal};

#[test]
fn to_decimal_writes_numbers() {
    assert_eq!(to_decimal(0), "0");
    assert_eq!(to_decimal(7), "7");
    assert_eq!(to_decimal(10), "10");
    assert_eq!(to_decimal(255), "255");
    assert_eq!(to_decimal(1234567890), "1234567890");
    assert_eq!(to_decimal(u64::MAX), u64::MAX.to_string());
}

#[test]
fn parse_u8_reads_numbers() {
    assert_eq!(parse_u8("0"), Some(0));
    assert_eq!(parse_u8("3"), Some(3));
    assert_eq!(parse_u8("+12"), Some(12));
    assert_eq!(parse_u8("007"), Some(7));
    assert_eq!(parse_u8("255"), Some(255));
}

#[test]
fn parse_u8_refuses_non_numbers() {
    assert_eq!(parse_u8(""), None);
    assert_eq!(parse_u8("+"), None);
    assert_eq!(parse_u8("-1"), None);
    assert_eq!(parse_u8("256"), None);
    assert_eq!(parse_u8("99999999999"), None);
    assert_eq!(parse_u8("1a"), None);
    assert_eq!(parse_u8(" 1"), None);
    assert_eq!(parse_u8("٣"), None);
}

#[test]
fn parse_u8_agrees_with_std() {
    let samples = [
        "", "+", "-", "0", "00", "+0", "-0", "1", "+1", "-1", "9", "10", "99", "100", "199", "200",
        "254", "255", "256", "260", "300", "999", "1000", "0255", "+255", "++1", "1+", "12x",
        "x12", " 12", "12 ", "1_0", "٣", "１", "0000000000000000000001",
    ];
    for s in samples.iter() {
        assert_eq!(parse_u8(s), s.parse::<u8>().ok(), "input {:?}", s);
    }
}

#[test]
fn decimal_reads_back() {
    for n in 0..=255u8 {
        assert_eq!(parse_u8(&to_decimal(n as u64)), Some(n));
    }
}
