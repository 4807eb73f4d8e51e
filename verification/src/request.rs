//! Building the outbound fetch request from an interpreted command.
//!
//! The requested quantity is clamped to the remote API's per-call ceiling
//! of 20, with a random substitute and an advisory message when the request
//! was too large, and raised to 1 when no positive quantity was requested.
//! All other request fields come from the configuration defaults except the
//! content-rating flag, the tag list and the AI-exclusion flag, which the
//! command decides. Parse failures map here to their advisory messages.

use crate::intent::CommandError;
use crate::numeral::{IntParseError, ZhNumError};
use crate::outside::{draw_inclusive, format_template, pairs_view, strfmt_exec};
use crate::text::{
    copy_i64_vec, copy_string_vec, dec_rep, i128_to_string, int_rep, u8_to_string,
    usize_to_string,
};
use vstd::prelude::*;
use vstd::string::StringExecFns;

verus! {

/// The approximate size of the remote catalog: a request above this is
/// treated as wildly large and clamped with its own advisory.
pub const CATALOG_CEILING: i128 = 94266;

/// The remote API's per-call ceiling on the item count.
pub const API_LIMIT: i128 = 20;

/// The advisory templates for failed or adjusted commands.
#[derive(Clone, Debug)]
pub struct ErrMsg {
    /// No results came back.
    pub bad_url: String,
    /// The service reported an error; takes `{msg}`.
    pub bad_rsp: String,
    /// The outbound call failed.
    pub bad_req: String,
    /// A downloaded asset is missing at delivery time.
    pub bad_dld: String,
    /// A numeral overflowed.
    pub bad_int: String,
    /// A Chinese numeral was malformed; takes `{n}` (the offset).
    pub bad_num: String,
    /// The request exceeded the API limit; takes `{n}` (the substitute).
    pub bad_lim: String,
    /// An unexpected failure.
    pub bad_bad: String,
    /// The request exceeded the catalog size; takes `{n}` (the substitute).
    pub bad_hug: String,
    /// Fewer items came back than requested; takes `{n}` (the count).
    pub bad_eql: String,
}

/// The progress-message templates.
#[derive(Clone, Debug)]
pub struct TipMsg {
    /// Command received; takes `{n}` (the requested quantity).
    pub tip_cmd: String,
    /// Per-asset caption; takes `{title}`, `{pid}`, `{author}`, `{uid}`,
    /// `{tags}` and `{is_Ai}`.
    pub tip_doc: String,
    /// End-of-batch marker text.
    pub tip_end: String,
}

/// The outbound request to the remote listing API.
#[derive(Clone, Debug)]
pub struct ReqData {
    /// Content-rating flag: 1 requests explicit content.
    pub r18: u8,
    /// Resolved item count; within `[1, 20]` once built.
    pub num: u8,
    /// Creator identifiers to restrict to.
    pub uid: Vec<i64>,
    /// Free-text keyword.
    pub keyword: String,
    /// Tag filters.
    pub tag: Vec<String>,
    /// Size filters.
    pub size: Vec<String>,
    /// Proxy host for returned asset URLs.
    pub proxy: String,
    /// Lower bound on the upload date.
    pub date_after: i64,
    /// Upper bound on the upload date.
    pub date_before: i64,
    /// Whether results are sorted descending.
    pub dsc: bool,
    /// Whether AI-generated content is excluded.
    pub exclude_ai: bool,
}

/// The configuration snapshot the pipeline reads.
#[derive(Clone, Debug)]
pub struct Config {
    /// The remote listing API endpoint.
    pub api_url: String,
    /// The command pattern, as a regular expression.
    pub cmn_rx: String,
    /// Request defaults.
    pub default_req: ReqData,
    /// Advisory templates.
    pub err_msg: ErrMsg,
    /// Progress templates.
    pub tip_msg: TipMsg,
}

/// How a requested quantity was adjusted.
#[derive(Clone, Copy, Debug, PartialEq, Eq, Structural)]
pub enum ClampKind {
    /// Kept as requested (a missing or zero request becomes 1 silently).
    Unclamped,
    /// Above the catalog ceiling: substituted at random.
    CatalogExceeded,
    /// Above the API's per-call ceiling: substituted at random.
    ApiLimitExceeded,
}

/// A single named template value.
pub open spec fn one_pair(key: Seq<char>, val: Seq<char>) -> Seq<(Seq<char>, Seq<char>)> {
    seq![(key, val)]
}

/// Clamps a requested quantity to the API's range, substituting `draw` when
/// the request was too large.
pub fn clamp_quantity(num: i128, draw: u8) -> (r: (u8, ClampKind))
    requires
        1 <= draw <= 20,
    ensures
        num > CATALOG_CEILING ==> r == (draw, ClampKind::CatalogExceeded),
        API_LIMIT < num <= CATALOG_CEILING ==> r == (draw, ClampKind::ApiLimitExceeded),
        num <= 0 ==> r == (1u8, ClampKind::Unclamped),
        0 < num <= API_LIMIT ==> r == (num as u8, ClampKind::Unclamped),
        1 <= r.0 <= 20,
{
    if num > CATALOG_CEILING {
        (draw, ClampKind::CatalogExceeded)
    } else if num > API_LIMIT {
        (draw, ClampKind::ApiLimitExceeded)
    } else if num <= 0 {
        (1, ClampKind::Unclamped)
    } else {
        (num as u8, ClampKind::Unclamped)
    }
}

pub(crate) fn one_pair_exec(key: &str, val: String) -> (r: Vec<(String, String)>)
    ensures
        pairs_view(r@) == one_pair(key@, val@),
{
    let mut r: Vec<(String, String)> = Vec::new();
    r.push((String::from_str(key), val));
    assert(pairs_view(r@) =~= one_pair(key@, val@));
    r
}

/// Builds the outbound request and its advisory messages from an
/// interpreted command.
///
/// The first advisory always reports the originally requested quantity;
/// a second advisory reports the substituted quantity when the request
/// exceeded the catalog ceiling or the API limit. Returns nothing only
/// when a needed template fails to render.
pub fn build_req_data(num: i128, r18: u8, tag: Vec<String>, ai: bool, config: &Config) -> (r:
    Option<(ReqData, Vec<String>)>)
    ensures
        r matches Some(p) ==> ({
            &&& format_template(config.tip_msg.tip_cmd@, one_pair("n"@, int_rep(num as int)))
                == Some(p.1.deep_view()[0])
            &&& p.0.r18 == r18
            &&& p.0.tag.deep_view() == tag.deep_view()
            &&& p.0.exclude_ai == ai
            &&& p.0.uid@ == config.default_req.uid@
            &&& p.0.keyword@ == config.default_req.keyword@
            &&& p.0.size.deep_view() == config.default_req.size.deep_view()
            &&& p.0.proxy@ == config.default_req.proxy@
            &&& p.0.date_after == config.default_req.date_after
            &&& p.0.date_before == config.default_req.date_before
            &&& p.0.dsc == config.default_req.dsc
            &&& 1 <= p.0.num <= 20
            &&& num <= 0 ==> p.0.num == 1 && p.1@.len() == 1
            &&& 0 < num <= API_LIMIT ==> p.0.num == num && p.1@.len() == 1
            &&& num > API_LIMIT ==> p.1@.len() == 2 && format_template(
                (if num > CATALOG_CEILING {
                    config.err_msg.bad_hug@
                } else {
                    config.err_msg.bad_lim@
                }),
                one_pair("n"@, dec_rep(p.0.num as nat)),
            ) == Some(p.1.deep_view()[1])
        }),
        r is None ==> format_template(config.tip_msg.tip_cmd@, one_pair("n"@, int_rep(num as int)))
            is None || (num > API_LIMIT && exists|d: u8|
            1 <= d <= 20 && format_template(
                (if num > CATALOG_CEILING {
                    config.err_msg.bad_hug@
                } else {
                    config.err_msg.bad_lim@
                }),
                one_pair("n"@, dec_rep(d as nat)),
            ) is None),
{
    let tip_pairs = one_pair_exec("n", i128_to_string(num));
    let first = match strfmt_exec(config.tip_msg.tip_cmd.as_str(), &tip_pairs) {
        Some(m) => m,
        None => {
            return None;
        },
    };
    let mut advisories: Vec<String> = Vec::new();
    advisories.push(first);
    let draw = draw_inclusive(1, 20);
    let (resolved, kind) = clamp_quantity(num, draw);
    match kind {
        ClampKind::Unclamped => {},
        ClampKind::CatalogExceeded => {
            let pairs = one_pair_exec("n", u8_to_string(resolved));
            match strfmt_exec(config.err_msg.bad_hug.as_str(), &pairs) {
                Some(m) => {
                    advisories.push(m);
                },
                None => {
                    return None;
                },
            }
        },
        ClampKind::ApiLimitExceeded => {
            let pairs = one_pair_exec("n", u8_to_string(resolved));
            match strfmt_exec(config.err_msg.bad_lim.as_str(), &pairs) {
                Some(m) => {
                    advisories.push(m);
                },
                None => {
                    return None;
                },
            }
        },
    }
    let req = ReqData {
        r18,
        num: resolved,
        uid: copy_i64_vec(&config.default_req.uid),
        keyword: config.default_req.keyword.clone(),
        tag,
        size: copy_string_vec(&config.default_req.size),
        proxy: config.default_req.proxy.clone(),
        date_after: config.default_req.date_after,
        date_before: config.default_req.date_before,
        dsc: config.default_req.dsc,
        exclude_ai: ai,
    };
    Some((req, advisories))
}

/// The advisory message for a numeral-interpretation failure.
///
/// A malformed Chinese numeral reports the offending character offset
/// through the `bad_num` template; any overflow reports the fixed
/// `bad_int` text; everything else reports the fixed `bad_bad` text.
/// Returns nothing only when the `bad_num` template fails to render.
pub fn handle_err(err: &CommandError, config: &Config) -> (msg: Option<String>)
    ensures
        (match *err {
            CommandError::Numeral(e) => match e {
                ZhNumError::Incorrect { char_index } => msg.deep_view() == format_template(
                    config.err_msg.bad_num@,
                    one_pair("n"@, dec_rep(char_index as nat)),
                ),
                ZhNumError::Overflow | ZhNumError::Underflow => msg matches Some(m) && m@
                    == config.err_msg.bad_int@,
                ZhNumError::Empty => msg matches Some(m) && m@ == config.err_msg.bad_bad@,
            },
            CommandError::Integer(e) => match e {
                IntParseError::PosOverflow | IntParseError::NegOverflow => msg matches Some(m)
                    && m@ == config.err_msg.bad_int@,
                IntParseError::Empty | IntParseError::InvalidDigit => msg matches Some(m) && m@
                    == config.err_msg.bad_bad@,
            },
        }),
{
    match err {
        CommandError::Numeral(e) => match e {
            ZhNumError::Incorrect { char_index } => {
                let pairs = one_pair_exec("n", usize_to_string(*char_index));
                strfmt_exec(config.err_msg.bad_num.as_str(), &pairs)
            },
            ZhNumError::Overflow | ZhNumError::Underflow => Some(config.err_msg.bad_int.clone()),
            ZhNumError::Empty => Some(config.err_msg.bad_bad.clone()),
        },
        CommandError::Integer(e) => match e {
            IntParseError::PosOverflow | IntParseError::NegOverflow => Some(
                config.err_msg.bad_int.clone(),
            ),
            IntParseError::Empty | IntParseError::InvalidDigit => Some(
                config.err_msg.bad_bad.clone(),
            ),
        },
    }
}

} // verus!
