//! Trusted boundary to the outside crates that the pipeline computes with:
//! template substitution, uniform random draws, and URL path inspection.
//! Each item's contract states only what the outside source shows.

use vstd::prelude::*;

verus! {

/// The view of a list of named template values: each pair as its key's and
/// value's characters.
pub open spec fn pairs_view(ps: Seq<(String, String)>) -> Seq<(Seq<char>, Seq<char>)> {
    ps.map_values(|p: (String, String)| (p.0@, p.1@))
}

/// What the outside template formatter returns for a template and named
/// values: `{name}` placeholders replaced by the named values, or nothing
/// when the template is malformed or names a missing value. The result
/// depends on the template and the values alone.
pub uninterp spec fn format_template(tmpl: Seq<char>, vars: Seq<(Seq<char>, Seq<char>)>) -> Option<
    Seq<char>,
>;

/// Relies on `strfmt::strfmt`: substitutes named `{placeholder}` slots of a
/// template from a key-to-value map; the result depends on the template and
/// the values alone.
#[verifier::external_body]
pub(crate) fn strfmt_exec(tmpl: &str, vars: &Vec<(String, String)>) -> (r: Option<String>)
    ensures
        r.deep_view() == format_template(tmpl@, pairs_view(vars@)),
{
    let mut map: std::collections::HashMap<String, String> = std::collections::HashMap::new();
    for (k, v) in vars.iter() {
        map.insert(k.clone(), v.clone());
    }
    strfmt::strfmt(tmpl, &map).ok()
}

/// Relies on `rand::Rng::gen_range` on the thread-local generator: returns
/// a value drawn from the inclusive range. Nothing more is promised of a
/// random draw.
#[verifier::external_body]
pub(crate) fn draw_inclusive(lo: u8, hi: u8) -> (r: u8)
    requires
        lo <= hi,
    ensures
        lo <= r <= hi,
{
    rand::Rng::gen_range(&mut rand::thread_rng(), lo..=hi)
}

/// What the outside URL parser yields as the final path segment of a URL
/// string: nothing when the string is not a valid URL or the URL cannot be
/// split into path segments. The result depends on the string alone.
pub uninterp spec fn url_last_segment(s: Seq<char>) -> Option<Seq<char>>;

/// Relies on `url::Url::parse` and `url::Url::path_segments`: the last
/// segment of a parsed URL's path; the result depends on the string alone.
#[verifier::external_body]
pub(crate) fn url_last_segment_exec(s: &str) -> (r: Option<String>)
    ensures
        r.deep_view() == url_last_segment(s@),
{
    match url::Url::parse(s) {
        Ok(u) => match u.path_segments() {
            Some(segments) => segments.last().map(|seg| seg.to_string()),
            None => None,
        },
        Err(_) => None,
    }
}

} // verus!
