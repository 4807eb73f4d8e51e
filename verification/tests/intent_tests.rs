use setu_pipeline::intent::{rxcap, CaptureSlots, CommandError};
use setu_pipeline::numeral::{IntParseError, ZhNumError};

fn empty_slots() -> CaptureSlots {
    CaptureSlots {
        hans_num: None,
        comn_num: None,
        weak_num: None,
        more: None,
        less: None,
        nsfw: None,
        ai: None,
        tags: None,
    }
}

#[test]
fn chinese_numeral_wins_over_vague_word() {
    let mut cap = empty_slots();
    cap.hans_num = Some("三".to_string());
    cap.weak_num = Some("俩".to_string());
    let it = rxcap(&cap).unwrap();
    assert_eq!(it.quantity, 3);
}

#[test]
fn chinese_numeral_wins_over_arabic() {
    let mut cap = empty_slots();
    cap.hans_num = Some("五".to_string());
    cap.comn_num = Some("9".to_string());
    let it = rxcap(&cap).unwrap();
    assert_eq!(it.quantity, 5);
}

#[test]
fn arabic_numeral_parses() {
    let mut cap = empty_slots();
    cap.comn_num = Some("12".to_string());
    let it = rxcap(&cap).unwrap();
    assert_eq!(it.quantity, 12);
}

#[test]
fn vague_words_resolve() {
    let mut cap = empty_slots();
    cap.weak_num = Some("俩".to_string());
    assert_eq!(rxcap(&cap).unwrap().quantity, 2);
    cap.weak_num = Some("仨".to_string());
    assert_eq!(rxcap(&cap).unwrap().quantity, 3);
    cap.weak_num = Some("俩仨".to_string());
    let q = rxcap(&cap).unwrap().quantity;
    assert!((1..=4).contains(&q));
}

#[test]
fn more_marker_draws_five_to_ten() {
    let mut cap = empty_slots();
    cap.more = Some("多".to_string());
    let q = rxcap(&cap).unwrap().quantity;
    assert!((5..=10).contains(&q));
}

#[test]
fn less_marker_draws_one_to_four() {
    let mut cap = empty_slots();
    cap.less = Some("少".to_string());
    let q = rxcap(&cap).unwrap().quantity;
    assert!((1..=4).contains(&q));
}

#[test]
fn no_slot_defaults_to_one() {
    let it = rxcap(&empty_slots()).unwrap();
    assert_eq!(it.quantity, 1);
}

#[test]
fn empty_slot_text_counts_as_absent() {
    let mut cap = empty_slots();
    cap.hans_num = Some(String::new());
    cap.comn_num = Some(String::new());
    let it = rxcap(&cap).unwrap();
    assert_eq!(it.quantity, 1);
}

#[test]
fn ai_exclusion_defaults_to_true() {
    let it = rxcap(&empty_slots()).unwrap();
    assert!(it.exclude_ai);
}

#[test]
fn ai_marker_includes_ai_content() {
    let mut cap = empty_slots();
    cap.ai = Some("ai".to_string());
    let it = rxcap(&cap).unwrap();
    assert!(!it.exclude_ai);
}

#[test]
fn nsfw_marker_sets_rating_flag() {
    let mut cap = empty_slots();
    assert_eq!(rxcap(&cap).unwrap().r18, 0);
    cap.nsfw = Some("色".to_string());
    assert_eq!(rxcap(&cap).unwrap().r18, 1);
}

#[test]
fn tags_slot_is_scanned() {
    let mut cap = empty_slots();
    cap.tags = Some("“猫”的“狗”".to_string());
    let it = rxcap(&cap).unwrap();
    assert_eq!(it.tags, vec!["猫".to_string(), "狗".to_string()]);
}

#[test]
fn bad_chinese_numeral_is_reported() {
    let mut cap = empty_slots();
    cap.hans_num = Some("abc".to_string());
    assert!(matches!(
        rxcap(&cap),
        Err(CommandError::Numeral(ZhNumError::Incorrect { .. }))
    ));
}

#[test]
fn bad_arabic_numeral_is_reported() {
    let mut cap = empty_slots();
    cap.comn_num = Some("1x".to_string());
    assert_eq!(
        rxcap(&cap).unwrap_err(),
        CommandError::Integer(IntParseError::InvalidDigit)
    );
}

#[test]
fn arabic_overflow_is_reported() {
    let mut cap = empty_slots();
    cap.comn_num = Some("999999999999999999999999999999999999999999".to_string());
    assert_eq!(
        rxcap(&cap).unwrap_err(),
        CommandError::Integer(IntParseError::PosOverflow)
    );
}

#[test]
fn arabic_numeral_wins_over_vague_word() {
    let mut cap = empty_slots();
    cap.comn_num = Some("7".to_string());
    cap.weak_num = Some("仨".to_string());
    assert_eq!(rxcap(&cap).unwrap().quantity, 7);
}
