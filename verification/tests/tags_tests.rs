use setu_pipeline::tags::get_tags;

#[test]
fn quoted_pair() {
    assert_eq!(get_tags(Some("“猫”的“狗”")), vec!["猫".to_string(), "狗".to_string()]);
}

#[test]
fn unquoted_pair() {
    assert_eq!(get_tags(Some("猫的狗的")), vec!["猫".to_string(), "狗".to_string()]);
}

#[test]
fn unterminated_quote_drops_everything() {
    assert_eq!(get_tags(Some("“猫")), Vec::<String>::new());
}

#[test]
fn empty_quotes_emit_nothing() {
    assert_eq!(get_tags(Some("“”")), Vec::<String>::new());
}

#[test]
fn trailing_unquoted_text_is_dropped() {
    assert_eq!(get_tags(Some("猫")), Vec::<String>::new());
    assert_eq!(get_tags(Some("猫的狗")), vec!["猫".to_string()]);
}

#[test]
fn opening_quote_discards_pending_segment() {
    assert_eq!(get_tags(Some("猫“狗”")), vec!["狗".to_string()]);
}

#[test]
fn marker_inside_quotes_is_literal() {
    assert_eq!(get_tags(Some("“猫的狗”")), vec!["猫的狗".to_string()]);
}

#[test]
fn quoted_then_unquoted() {
    assert_eq!(get_tags(Some("“白猫”黑狗的")), vec!["白猫".to_string(), "黑狗".to_string()]);
}

#[test]
fn absent_slot_yields_no_tags() {
    assert_eq!(get_tags(None), Vec::<String>::new());
}

#[test]
fn ascii_tags_work_too() {
    assert_eq!(get_tags(Some("“cat”的“dog”")), vec!["cat".to_string(), "dog".to_string()]);
}
