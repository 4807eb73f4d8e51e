use setu_pipeline::auth::{determine_auth, determine_protocol, parse_md5, AuthChoice, Protocol};

#[test]
fn digest_parses_two_digits_per_byte() {
    let bytes = parse_md5("00112233445566778899aabbccddeeff").unwrap();
    assert_eq!(
        bytes,
        vec![0x00, 0x11, 0x22, 0x33, 0x44, 0x55, 0x66, 0x77, 0x88, 0x99, 0xaa, 0xbb, 0xcc,
            0xdd, 0xee, 0xff]
    );
}

#[test]
fn digest_accepts_upper_case() {
    let bytes = parse_md5("A0B1C2D3E4F5A6B7C8D9E0F1A2B3C4D5").unwrap();
    assert_eq!(bytes[0], 0xa0);
    assert_eq!(bytes[15], 0xd5);
}

#[test]
fn digest_with_lone_trailing_digit() {
    let bytes = parse_md5("00112233445566778899aabbccddee1").unwrap();
    assert_eq!(bytes[15], 0x1);
}

#[test]
fn short_or_malformed_digest_is_rejected() {
    assert!(parse_md5("").is_none());
    assert!(parse_md5("0011").is_none());
    assert!(parse_md5("0011223344556677g899aabbccddeeff").is_none());
}

#[test]
fn explicit_qr_code_wins() {
    let r = determine_auth(&"QRCODE".to_string(), &"pw".to_string(), &String::new());
    assert!(matches!(r, Some(AuthChoice::QrCode)));
}

#[test]
fn explicit_password_carries_the_password() {
    let r = determine_auth(&"PASSWORD".to_string(), &"pw".to_string(), &String::new());
    assert!(matches!(r, Some(AuthChoice::Password(p)) if p == "pw"));
}

#[test]
fn explicit_digest_parses_the_digest() {
    let r = determine_auth(
        &"MD5".to_string(),
        &String::new(),
        &"00112233445566778899aabbccddeeff".to_string(),
    );
    assert!(matches!(r, Some(AuthChoice::Md5(b)) if b.len() == 16 && b[0] == 0));
}

#[test]
fn explicit_digest_rejects_bad_text() {
    let r = determine_auth(&"MD5".to_string(), &String::new(), &"zz".to_string());
    assert!(r.is_none());
}

#[test]
fn auto_prefers_password_then_digest_then_qr() {
    let auto = "AUTO".to_string();
    let digest = "00112233445566778899aabbccddeeff".to_string();
    let r = determine_auth(&auto, &"pw".to_string(), &digest);
    assert!(matches!(r, Some(AuthChoice::Password(p)) if p == "pw"));
    let r = determine_auth(&auto, &String::new(), &digest);
    assert!(matches!(r, Some(AuthChoice::Md5(_))));
    let r = determine_auth(&auto, &String::new(), &String::new());
    assert!(matches!(r, Some(AuthChoice::QrCode)));
}

#[test]
fn unknown_auth_name_falls_back_to_auto() {
    let r = determine_auth(&"???".to_string(), &"pw".to_string(), &String::new());
    assert!(matches!(r, Some(AuthChoice::Password(p)) if p == "pw"));
}

#[test]
fn protocol_letters_map() {
    assert_eq!(determine_protocol("A"), Protocol::A);
    assert_eq!(determine_protocol("I"), Protocol::I);
    assert_eq!(determine_protocol("M"), Protocol::M);
    assert_eq!(determine_protocol("P"), Protocol::P);
    assert_eq!(determine_protocol("W"), Protocol::W);
}

#[test]
fn unknown_protocol_falls_back_to_default() {
    assert_eq!(determine_protocol("X"), Protocol::A);
    assert_eq!(determine_protocol(""), Protocol::A);
}
