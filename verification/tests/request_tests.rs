use setu_pipeline::intent::CommandError;
use setu_pipeline::numeral::{IntParseError, ZhNumError};
use setu_pipeline::request::{build_req_data, handle_err, Config, ErrMsg, ReqData, TipMsg};

fn test_config() -> Config {
    Config {
        api_url: "https://example.com/api".to_string(),
        cmn_rx: "^cmd$".to_string(),
        default_req: ReqData {
            r18: 0,
            num: 1,
            uid: vec![11, 22],
            keyword: "kw".to_string(),
            tag: vec![],
            size: vec!["original".to_string()],
            proxy: "proxy.example".to_string(),
            date_after: 100,
            date_before: 200,
            dsc: true,
            exclude_ai: true,
        },
        err_msg: ErrMsg {
            bad_url: "no results".to_string(),
            bad_rsp: "server: {msg}".to_string(),
            bad_req: "request failed".to_string(),
            bad_dld: "download failed".to_string(),
            bad_int: "overflow".to_string(),
            bad_num: "bad numeral at {n}".to_string(),
            bad_lim: "over api limit, using {n}".to_string(),
            bad_bad: "unexpected".to_string(),
            bad_hug: "over catalog, using {n}".to_string(),
            bad_eql: "only {n}".to_string(),
        },
        tip_msg: TipMsg {
            tip_cmd: "fetching {n}".to_string(),
            tip_doc: "{title}|{pid}|{author}|{uid}|{tags}|{is_Ai}".to_string(),
            tip_end: "done".to_string(),
        },
    }
}

#[test]
fn zero_resolves_to_one_silently() {
    let config = test_config();
    let (req, advisories) = build_req_data(0, 0, vec![], true, &config).unwrap();
    assert_eq!(req.num, 1);
    assert_eq!(advisories, vec!["fetching 0".to_string()]);
}

#[test]
fn in_range_quantity_is_kept() {
    let config = test_config();
    let (req, advisories) = build_req_data(5, 0, vec![], true, &config).unwrap();
    assert_eq!(req.num, 5);
    assert_eq!(advisories, vec!["fetching 5".to_string()]);
}

#[test]
fn twenty_five_is_clamped_with_api_advisory() {
    let config = test_config();
    let (req, advisories) = build_req_data(25, 0, vec![], true, &config).unwrap();
    assert!((1..=20).contains(&req.num));
    assert_eq!(advisories.len(), 2);
    assert_eq!(advisories[0], "fetching 25");
    assert_eq!(advisories[1], format!("over api limit, using {}", req.num));
}

#[test]
fn huge_request_is_clamped_with_catalog_advisory() {
    let config = test_config();
    let (req, advisories) = build_req_data(100_000, 0, vec![], true, &config).unwrap();
    assert!((1..=20).contains(&req.num));
    assert_eq!(advisories.len(), 2);
    assert_eq!(advisories[0], "fetching 100000");
    assert_eq!(advisories[1], format!("over catalog, using {}", req.num));
}

#[test]
fn negative_request_resolves_to_one() {
    let config = test_config();
    let (req, _) = build_req_data(-3, 0, vec![], true, &config).unwrap();
    assert_eq!(req.num, 1);
}

#[test]
fn intent_fields_override_defaults() {
    let config = test_config();
    let tags = vec!["猫".to_string(), "狗".to_string()];
    let (req, _) = build_req_data(2, 1, tags.clone(), false, &config).unwrap();
    assert_eq!(req.r18, 1);
    assert_eq!(req.tag, tags);
    assert!(!req.exclude_ai);
    assert_eq!(req.uid, vec![11, 22]);
    assert_eq!(req.keyword, "kw");
    assert_eq!(req.size, vec!["original".to_string()]);
    assert_eq!(req.proxy, "proxy.example");
    assert_eq!(req.date_after, 100);
    assert_eq!(req.date_before, 200);
    assert!(req.dsc);
}

#[test]
fn broken_template_yields_nothing() {
    let mut config = test_config();
    config.tip_msg.tip_cmd = "fetching {count}".to_string();
    assert!(build_req_data(3, 0, vec![], true, &config).is_none());
}

#[test]
fn bad_numeral_reports_offset() {
    let config = test_config();
    let msg = handle_err(
        &CommandError::Numeral(ZhNumError::Incorrect { char_index: 3 }),
        &config,
    );
    assert_eq!(msg, Some("bad numeral at 3".to_string()));
}

#[test]
fn numeral_overflow_reports_fixed_text() {
    let config = test_config();
    assert_eq!(
        handle_err(&CommandError::Numeral(ZhNumError::Overflow), &config),
        Some("overflow".to_string())
    );
    assert_eq!(
        handle_err(&CommandError::Numeral(ZhNumError::Underflow), &config),
        Some("overflow".to_string())
    );
    assert_eq!(
        handle_err(&CommandError::Integer(IntParseError::PosOverflow), &config),
        Some("overflow".to_string())
    );
    assert_eq!(
        handle_err(&CommandError::Integer(IntParseError::NegOverflow), &config),
        Some("overflow".to_string())
    );
}

#[test]
fn unexpected_errors_report_fallback_text() {
    let config = test_config();
    assert_eq!(
        handle_err(&CommandError::Numeral(ZhNumError::Empty), &config),
        Some("unexpected".to_string())
    );
    assert_eq!(
        handle_err(&CommandError::Integer(IntParseError::InvalidDigit), &config),
        Some("unexpected".to_string())
    );
}
