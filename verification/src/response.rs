//! Classifying the remote listing response and planning the per-asset work.
//!
//! One outbound call ends in exactly one of: transport failure, decode
//! failure, an application error carried in the response, an empty result,
//! a partial result, or a full result. A partial or full result proceeds to
//! assembly: for each returned item the local file name is derived from its
//! asset URL, a refresh draw decides whether a present file is fetched
//! again, and a caption is rendered from the item's fields. The metadata
//! file is always (re)written, whatever the download decision.

use crate::outside::{
    draw_inclusive, format_template, pairs_view, strfmt_exec, url_last_segment,
    url_last_segment_exec,
};
use crate::request::{one_pair, Config};
use crate::text::{chars_of, i64_to_string, push_char, usize_to_string};
use vstd::prelude::*;
use vstd::string::StringExecFns;

verus! {

/// One returned asset of the remote listing API.
#[derive(Clone, Debug)]
pub struct PicData {
    /// Remote post identifier.
    pub pid: i64,
    /// Page index within the post.
    pub p: i64,
    /// Uploader identifier.
    pub uid: i64,
    /// Title text.
    pub title: String,
    /// Author name.
    pub author: String,
    /// Content-rating flag.
    pub r18: bool,
    /// Pixel width.
    pub width: i64,
    /// Pixel height.
    pub height: i64,
    /// Tags attached to the asset.
    pub tags: Vec<String>,
    /// File extension of the original asset.
    pub ext: String,
    /// AI-provenance code: 1 human, 2 AI, anything else uncertain.
    pub ai_type: i8,
    /// Upload timestamp.
    pub upload_date: i64,
    /// URL of the original asset.
    pub url_original: String,
}

/// The decoded body of the remote listing API's response.
#[derive(Clone, Debug)]
pub struct RespData {
    /// Error text; empty means success.
    pub error: String,
    /// The returned assets.
    pub data: Vec<PicData>,
}

/// How one outbound call ended, as far as the transport and decoder saw it.
#[derive(Clone, Debug)]
pub enum FetchOutcome {
    /// The call itself could not complete.
    TransportFailed,
    /// The response body was not well-formed.
    DecodeFailed,
    /// A well-formed response came back.
    Decoded(RespData),
}

/// The class of a well-formed response, measured against the requested
/// quantity.
#[derive(Clone, Copy, Debug, PartialEq, Eq, Structural)]
pub enum Classification {
    /// The response carries a non-empty error field.
    AppError,
    /// No items came back.
    Empty,
    /// Fewer items than requested came back; holds the count.
    Partial(usize),
    /// At least as many items as requested came back.
    Full,
}

/// Classifies a well-formed response against the requested quantity.
pub fn classify_response(resp: &RespData, requested: u8) -> (c: Classification)
    ensures
        resp.error@.len() > 0 ==> c == Classification::AppError,
        resp.error@.len() == 0 && resp.data@.len() == 0 ==> c == Classification::Empty,
        resp.error@.len() == 0 && 0 < resp.data@.len() < requested ==> c == Classification::Partial(
            resp.data@.len() as usize,
        ),
        resp.error@.len() == 0 && resp.data@.len() > 0 && resp.data@.len() >= requested ==> c
            == Classification::Full,
{
    if !resp.error.as_str().is_empty() {
        Classification::AppError
    } else if resp.data.len() == 0 {
        Classification::Empty
    } else if resp.data.len() < requested as usize {
        Classification::Partial(resp.data.len())
    } else {
        Classification::Full
    }
}

/// What the orchestrator does with one call's outcome: the advisory to
/// send, if any, and whether assembly proceeds.
#[derive(Clone, Debug)]
pub struct FetchDecision {
    /// Advisory message for the requesting channel, if one is owed.
    pub advisory: Option<String>,
    /// Whether the download-and-assembly stage runs.
    pub proceed: bool,
}

/// Decides the orchestrator's step for one outcome: a transport failure
/// reports the fixed failure text, a decode failure ends silently, an
/// application error and an empty result report and end, a partial result
/// reports its count and proceeds, and a full result proceeds silently.
pub fn orchestrate(outcome: &FetchOutcome, requested: u8, config: &Config) -> (d: FetchDecision)
    ensures
        outcome is TransportFailed ==> !d.proceed && (d.advisory matches Some(m) && m@
            == config.err_msg.bad_req@),
        outcome is DecodeFailed ==> !d.proceed && d.advisory is None,
        (match *outcome {
            FetchOutcome::Decoded(resp) => {
                &&& resp.error@.len() > 0 ==> !d.proceed && d.advisory.deep_view()
                    == format_template(
                    config.err_msg.bad_rsp@,
                    one_pair("msg"@, resp.error@),
                )
                &&& resp.error@.len() == 0 && resp.data@.len() == 0 ==> !d.proceed && (d.advisory
                    matches Some(m) && m@ == config.err_msg.bad_url@)
                &&& resp.error@.len() == 0 && 0 < resp.data@.len() < requested ==> d.proceed
                    && d.advisory.deep_view() == format_template(
                    config.err_msg.bad_eql@,
                    one_pair("n"@, crate::text::dec_rep(resp.data@.len() as nat)),
                )
                &&& resp.error@.len() == 0 && resp.data@.len() > 0 && resp.data@.len() >= requested
                    ==> d.proceed && d.advisory is None
            },
            _ => true,
        }),
{
    match outcome {
        FetchOutcome::TransportFailed => FetchDecision {
            advisory: Some(config.err_msg.bad_req.clone()),
            proceed: false,
        },
        FetchOutcome::DecodeFailed => FetchDecision { advisory: None, proceed: false },
        FetchOutcome::Decoded(resp) => match classify_response(resp, requested) {
            Classification::AppError => {
                let pairs = crate::request::one_pair_exec("msg", resp.error.clone());
                FetchDecision {
                    advisory: strfmt_exec(config.err_msg.bad_rsp.as_str(), &pairs),
                    proceed: false,
                }
            },
            Classification::Empty => FetchDecision {
                advisory: Some(config.err_msg.bad_url.clone()),
                proceed: false,
            },
            Classification::Partial(n) => {
                let pairs = crate::request::one_pair_exec("n", usize_to_string(n));
                FetchDecision {
                    advisory: strfmt_exec(config.err_msg.bad_eql.as_str(), &pairs),
                    proceed: true,
                }
            },
            Classification::Full => FetchDecision { advisory: None, proceed: true },
        },
    }
}

/// What is done for one asset: whether its file is (re)fetched, and that
/// its metadata is written either way.
#[derive(Clone, Copy, Debug, PartialEq, Eq, Structural)]
pub struct ItemPlan {
    /// Whether the asset file is downloaded.
    pub download: bool,
    /// Whether the metadata file is written; always true.
    pub write_metadata: bool,
}

/// The per-asset plan for a given refresh draw: a missing file is always
/// fetched; a present file is fetched again unless the draw tolerates the
/// stale copy (draw at most 3 of 0 to 20), and its metadata is written
/// either way.
pub fn plan_item(file_exists: bool, draw: u8) -> (p: ItemPlan)
    requires
        draw <= 20,
    ensures
        p.write_metadata,
        p.download == (!file_exists || draw > 3),
{
    if !file_exists {
        ItemPlan { download: true, write_metadata: true }
    } else {
        ItemPlan { download: draw > 3, write_metadata: true }
    }
}

/// Draws the refresh lot and plans one asset. Whatever the draw, a missing
/// file is fetched and the metadata is written.
pub fn decide_item(file_exists: bool) -> (p: ItemPlan)
    ensures
        p.write_metadata,
        !file_exists ==> p.download,
{
    let draw = draw_inclusive(0, 20);
    plan_item(file_exists, draw)
}

/// The local path of a downloaded asset.
pub open spec fn local_path_rep(filename: Seq<char>) -> Seq<char> {
    "pictures/"@ + filename
}

/// The path of an asset's metadata document.
pub open spec fn metadata_path_rep(filename: Seq<char>) -> Seq<char> {
    "pictures/metadata/"@ + filename + ".toml"@
}

/// Derives an asset's file name (the final path segment of its URL) and
/// from it the local asset path and the metadata path. Yields nothing when
/// the URL has no derivable final segment.
pub fn asset_paths(url: &str) -> (r: Option<(String, String, String)>)
    ensures
        r is Some <==> url_last_segment(url@) is Some,
        r matches Some(t) ==> ({
            &&& url_last_segment(url@) == Some(t.0@)
            &&& t.1@ == local_path_rep(t.0@)
            &&& t.2@ == metadata_path_rep(t.0@)
        }),
{
    match url_last_segment_exec(url) {
        Some(filename) => {
            let mut local = String::from_str("pictures/");
            local.append(filename.as_str());
            let mut meta = String::from_str("pictures/metadata/");
            meta.append(filename.as_str());
            meta.append(".toml");
            Some((filename, local, meta))
        },
        None => None,
    }
}

/// The three-valued AI-provenance label: "no" for known human work, "yes"
/// for known AI work, "uncertain" otherwise.
pub open spec fn ai_label_rep(code: i8) -> Seq<char> {
    if code == 1 {
        "否"@
    } else if code == 2 {
        "是"@
    } else {
        "存疑"@
    }
}

/// Renders the AI-provenance label for a provenance code.
pub fn ai_label(code: i8) -> (r: String)
    ensures
        r@ == ai_label_rep(code),
{
    if code == 1 {
        String::from_str("否")
    } else if code == 2 {
        String::from_str("是")
    } else {
        String::from_str("存疑")
    }
}

/// One character of a tag as it appears inside a quoted list item: quote
/// marks and backslashes carry a backslash escape.
pub open spec fn escape_char(c: char) -> Seq<char> {
    if c == '"' || c == '\\' {
        seq!['\\', c]
    } else {
        seq![c]
    }
}

/// A tag's characters with quote marks and backslashes escaped.
pub open spec fn escape_rep(s: Seq<char>) -> Seq<char>
    decreases s.len(),
{
    if s.len() == 0 {
        Seq::empty()
    } else {
        escape_rep(s.drop_last()) + escape_char(s.last())
    }
}

/// A tag as one quoted list item.
pub open spec fn quoted_rep(s: Seq<char>) -> Seq<char> {
    seq!['"'] + escape_rep(s) + seq!['"']
}

/// The comma-separated quoted items of a tag list.
pub open spec fn tags_list_items(ts: Seq<Seq<char>>) -> Seq<char>
    decreases ts.len(),
{
    if ts.len() == 0 {
        Seq::empty()
    } else if ts.len() == 1 {
        quoted_rep(ts[0])
    } else {
        tags_list_items(ts.drop_last()) + seq![',', ' '] + quoted_rep(ts.last())
    }
}

/// A tag list rendered as a bracketed, comma-separated list of quoted
/// items.
pub open spec fn tags_list_rep(ts: Seq<Seq<char>>) -> Seq<char> {
    seq!['['] + tags_list_items(ts) + seq![']']
}

fn push_quoted(out: &mut String, s: &String)
    ensures
        final(out)@ == old(out)@ + quoted_rep(s@),
{
    push_char(out, '"');
    let v = chars_of(s.as_str());
    let mut j: usize = 0;
    while j < v.len()
        invariant
            j <= v@.len(),
            v@ == s@,
            out@ == old(out)@ + seq!['"'] + escape_rep(v@.take(j as int)),
        decreases v@.len() - j,
    {
        let c = v[j];
        if c == '"' || c == '\\' {
            push_char(out, '\\');
            push_char(out, c);
        } else {
            push_char(out, c);
        }
        proof {
            assert(v@.take(j + 1 as int).drop_last() =~= v@.take(j as int));
            assert(v@.take(j + 1 as int).last() == v@[j as int]);
            assert(out@ =~= old(out)@ + seq!['"'] + escape_rep(v@.take(j + 1 as int)));
        }
        j += 1;
    }
    assert(v@.take(v@.len() as int) =~= v@);
    push_char(out, '"');
    assert(out@ =~= old(out)@ + quoted_rep(s@));
}

/// Renders a tag list as its bracketed, quoted display form.
pub fn format_tags(tags: &Vec<String>) -> (r: String)
    ensures
        r@ == tags_list_rep(tags.deep_view()),
{
    let ghost ts = tags.deep_view();
    let mut out = String::new();
    push_char(&mut out, '[');
    let mut i: usize = 0;
    proof {
        assert(out@ =~= seq!['['] + tags_list_items(ts.take(0)));
    }
    while i < tags.len()
        invariant
            i <= tags@.len(),
            ts == tags.deep_view(),
            ts.len() == tags@.len(),
            forall|k: int| 0 <= k < tags@.len() ==> ts[k] == tags@[k]@,
            out@ == seq!['['] + tags_list_items(ts.take(i as int)),
        decreases tags@.len() - i,
    {
        if i > 0 {
            push_char(&mut out, ',');
            push_char(&mut out, ' ');
        }
        push_quoted(&mut out, &tags[i]);
        proof {
            assert(ts.take(i + 1 as int).drop_last() =~= ts.take(i as int));
            assert(ts.take(i + 1 as int).last() == ts[i as int]);
            if i == 0 {
                assert(ts.take(1).len() == 1);
                assert(ts.take(1)[0] == ts[0]);
                assert(out@ =~= seq!['['] + tags_list_items(ts.take(1)));
            } else {
                assert(out@ =~= seq!['['] + tags_list_items(ts.take(i + 1 as int)));
            }
        }
        i += 1;
    }
    proof {
        assert(ts.take(ts.len() as int) =~= ts);
    }
    push_char(&mut out, ']');
    assert(out@ =~= tags_list_rep(tags.deep_view()));
    out
}

/// The named values a caption is rendered from: the item's title, post
/// identifier, author, uploader identifier, displayed tag list, and
/// AI-provenance label.
pub open spec fn caption_pairs(item: PicData) -> Seq<(Seq<char>, Seq<char>)> {
    seq![
        ("title"@, item.title@),
        ("pid"@, crate::text::int_rep(item.pid as int)),
        ("author"@, item.author@),
        ("uid"@, crate::text::int_rep(item.uid as int)),
        ("tags"@, tags_list_rep(item.tags.deep_view())),
        ("is_Ai"@, ai_label_rep(item.ai_type)),
    ]
}

/// Renders the caption text for one asset from the caption template.
/// Yields nothing only when the template fails to render.
pub fn build_caption(item: &PicData, config: &Config) -> (r: Option<String>)
    ensures
        r.deep_view() == format_template(config.tip_msg.tip_doc@, caption_pairs(*item)),
{
    let mut pairs: Vec<(String, String)> = Vec::new();
    pairs.push((String::from_str("title"), item.title.clone()));
    pairs.push((String::from_str("pid"), i64_to_string(item.pid)));
    pairs.push((String::from_str("author"), item.author.clone()));
    pairs.push((String::from_str("uid"), i64_to_string(item.uid)));
    pairs.push((String::from_str("tags"), format_tags(&item.tags)));
    pairs.push((String::from_str("is_Ai"), ai_label(item.ai_type)));
    proof {
        assert(pairs_view(pairs@) =~= caption_pairs(*item));
    }
    strfmt_exec(config.tip_msg.tip_doc.as_str(), &pairs)
}

} // verus!
