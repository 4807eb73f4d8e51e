use setu_pipeline::text::{
    chars_of, i128_to_string, i64_to_string, str_eq, string_of, u128_to_string, u8_to_string,
    usize_to_string,
};

#[test]
fn decimal_rendering_basics() {
    assert_eq!(u128_to_string(0), "0");
    assert_eq!(u128_to_string(7), "7");
    assert_eq!(u128_to_string(1234567890), "1234567890");
    assert_eq!(u8_to_string(255), "255");
    assert_eq!(usize_to_string(42), "42");
}

#[test]
fn signed_decimal_rendering() {
    assert_eq!(i128_to_string(0), "0");
    assert_eq!(i128_to_string(-1), "-1");
    assert_eq!(i128_to_string(-123), "-123");
    assert_eq!(i64_to_string(i64::MIN), "-9223372036854775808");
    assert_eq!(
        i128_to_string(i128::MIN),
        "-170141183460469231731687303715884105728"
    );
    assert_eq!(
        i128_to_string(i128::MAX),
        "170141183460469231731687303715884105727"
    );
}

#[test]
fn char_round_trip() {
    let v = chars_of("猫 and 狗");
    assert_eq!(v.len(), 7);
    assert_eq!(string_of(&v), "猫 and 狗");
}

#[test]
fn string_equality_is_by_characters() {
    assert!(str_eq("猫", "猫"));
    assert!(!str_eq("猫", "狗"));
    assert!(!str_eq("猫", "猫猫"));
    assert!(str_eq("", ""));
}
