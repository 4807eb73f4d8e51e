use setu_pipeline::numeral::{parse_i128, zh2num, IntParseError, ZhNumError};

#[test]
fn zh_informal_variant_agrees_with_standard() {
    assert_eq!(zh2num("廿一"), Ok(21));
    assert_eq!(zh2num("二十一"), Ok(21));
}

#[test]
fn zh_standard_digits() {
    assert_eq!(zh2num("三"), Ok(3));
    assert_eq!(zh2num("十"), Ok(10));
    assert_eq!(zh2num("一百二十三"), Ok(123));
}

#[test]
fn zh_archaic_variants() {
    assert_eq!(zh2num("弎"), Ok(3));
    assert_eq!(zh2num("什"), Ok(10));
    assert_eq!(zh2num("皕"), Ok(200));
    assert_eq!(zh2num("卅"), Ok(30));
    assert_eq!(zh2num("卌"), Ok(40));
}

#[test]
fn zh_mixed_variants() {
    assert_eq!(zh2num("兩百"), Ok(200));
    assert_eq!(zh2num("亖十亖"), Ok(44));
}

#[test]
fn zh_empty_is_error() {
    assert_eq!(zh2num(""), Err(ZhNumError::Empty));
}

#[test]
fn zh_bad_character_reports_offset() {
    assert!(matches!(zh2num("abc"), Err(ZhNumError::Incorrect { .. })));
}

#[test]
fn parse_plain_number() {
    assert_eq!(parse_i128("123"), Ok(123));
    assert_eq!(parse_i128("0"), Ok(0));
}

#[test]
fn parse_signed_numbers() {
    assert_eq!(parse_i128("+7"), Ok(7));
    assert_eq!(parse_i128("-5"), Ok(-5));
}

#[test]
fn parse_empty_is_empty_error() {
    assert_eq!(parse_i128(""), Err(IntParseError::Empty));
}

#[test]
fn parse_sign_alone_is_invalid() {
    assert_eq!(parse_i128("-"), Err(IntParseError::InvalidDigit));
    assert_eq!(parse_i128("+"), Err(IntParseError::InvalidDigit));
}

#[test]
fn parse_stray_character_is_invalid() {
    assert_eq!(parse_i128("12a"), Err(IntParseError::InvalidDigit));
    assert_eq!(parse_i128("a12"), Err(IntParseError::InvalidDigit));
}

#[test]
fn parse_extremes() {
    assert_eq!(
        parse_i128("170141183460469231731687303715884105727"),
        Ok(i128::MAX)
    );
    assert_eq!(
        parse_i128("-170141183460469231731687303715884105728"),
        Ok(i128::MIN)
    );
}

#[test]
fn parse_overflow_both_ways() {
    assert_eq!(
        parse_i128("170141183460469231731687303715884105728"),
        Err(IntParseError::PosOverflow)
    );
    assert_eq!(
        parse_i128("-170141183460469231731687303715884105729"),
        Err(IntParseError::NegOverflow)
    );
}

#[test]
fn zh_overflow_is_reported() {
    assert_eq!(zh2num("九垓"), Err(ZhNumError::Overflow));
}
