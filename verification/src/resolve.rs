//! Stream resolution: building the one upstream query and interpreting its
//! answer into per-tier stream URLs.

use vstd::prelude::*;

use crate::outcome::ResolveError;
use crate::tier::Tier;

verus! {

/// The JSON string literal (quotes and escapes included) that encodes `s`.
pub uninterp spec fn json_quoted(s: Seq<char>) -> Seq<char>;

/// What the upstream answer parses to: `None` when the body is not a valid
/// document, otherwise the optional "high" and "mid" stream URLs found at
/// the document's fixed stream location.
pub uninterp spec fn parsed_streams(body: Seq<char>) -> Option<(Option<Seq<char>>, Option<Seq<char>>)>;

/// The candidate stream URLs one resolution produced, one optional slot per
/// tier.  An absent slot means the upstream offered no URL for that tier.
pub struct StreamUrlSet {
    pub best: Option<String>,
    pub mid: Option<String>,
}

/// One entry of the download queue: a tier and the URL resolved for it.
pub struct TierUrl {
    pub tier: Tier,
    pub url: String,
}

/// The mathematical value of a URL set: its two optional character strings.
pub open spec fn urls_v(u: StreamUrlSet) -> (Option<Seq<char>>, Option<Seq<char>>) {
    (
        match u.best {
            Option::Some(s) => Option::Some(s@),
            Option::None => Option::None,
        },
        match u.mid {
            Option::Some(s) => Option::Some(s@),
            Option::None => Option::None,
        },
    )
}

/// The mathematical value of an optional URL set.
pub open spec fn opt_urls_v(r: Option<StreamUrlSet>) -> Option<(Option<Seq<char>>, Option<Seq<char>>)> {
    match r {
        Option::Some(u) => Option::Some(urls_v(u)),
        Option::None => Option::None,
    }
}

/// Relies on `serde_json::from_str` and `serde_json::Value`'s index and
/// `as_str` accessors: parses the body and reads the two string fields at
/// `data.mediaContents[0].stream.{high,mid}`.  Indexing a missing member
/// yields the null value and `as_str` of a non-string yields `None`, so the
/// call returns `None` exactly when the body is not valid JSON, and
/// otherwise the two optional URL strings.  The result depends on the body
/// text alone.
#[verifier::external_body]
fn parse_stream_fields(body: &str) -> (r: Option<StreamUrlSet>)
    ensures
        opt_urls_v(r) == parsed_streams(body@),
{
    let v: serde_json::Value = match serde_json::from_str(body) {
        Ok(v) => v,
        Err(_) => return None,
    };
    let stream = &v["data"]["mediaContents"][0]["stream"];
    let best = stream["high"].as_str().map(|s| s.to_string());
    let mid = stream["mid"].as_str().map(|s| s.to_string());
    Some(StreamUrlSet { best, mid })
}

/// Relies on `serde_json`'s `Display` for `Value::String`: renders the
/// string as its JSON literal, quotes and escapes included.  The result
/// depends on the characters alone.
#[verifier::external_body]
fn json_quote(s: &str) -> (r: String)
    ensures
        r@ == json_quoted(s@),
{
    serde_json::Value::String(s.to_owned()).to_string()
}

/// The fixed upstream endpoint the resolution query is posted to.
pub fn upstream_endpoint() -> (r: &'static str)
    ensures
        r@ == "https://zvuk.com/api/v1/graphql"@,
{
    "https://zvuk.com/api/v1/graphql"
}

/// The JSON body of the one upstream query for media id `id`: a fixed query
/// document with the id as the single element of `variables.ids`.
pub open spec fn request_body_spec(id: Seq<char>) -> Seq<char> {
    "{\"operationName\":\"getStream\",\"query\":\"query getStream($ids: [ID!]!, $quality: String, $encodeType: String, $includeFlacDrm: Boolean!) { mediaContents(ids: $ids, quality: $quality, encodeType: $encodeType) { ... on Track { stream { expire high mid flacdrm @include(if: $includeFlacDrm) } } ... on Episode { stream { expire mid } } ... on Chapter { stream { expire mid } } } }\",\"variables\":{\"encodeType\":\"wv\",\"ids\":["@
        + json_quoted(id) + "],\"includeFlacDrm\":false,\"quality\":\"hq\"}}"@
}

/// Builds the upstream query body for media id `id`.
pub fn resolve_request_body(id: &str) -> (r: String)
    ensures
        r@ == request_body_spec(id@),
{
    let mut s = String::from_str(
        "{\"operationName\":\"getStream\",\"query\":\"query getStream($ids: [ID!]!, $quality: String, $encodeType: String, $includeFlacDrm: Boolean!) { mediaContents(ids: $ids, quality: $quality, encodeType: $encodeType) { ... on Track { stream { expire high mid flacdrm @include(if: $includeFlacDrm) } } ... on Episode { stream { expire mid } } ... on Chapter { stream { expire mid } } } }\",\"variables\":{\"encodeType\":\"wv\",\"ids\":[",
    );
    let q = json_quote(id);
    s.append(q.as_str());
    s.append("],\"includeFlacDrm\":false,\"quality\":\"hq\"}}");
    s
}

/// Whether an HTTP status code counts as success.
pub open spec fn status_is_success_spec(s: u16) -> bool {
    200 <= s && s < 300
}

/// Whether an HTTP status code counts as success.
pub fn status_is_success(s: u16) -> (r: bool)
    ensures
        r == status_is_success_spec(s),
{
    200 <= s && s < 300
}

/// How a parse result classifies: an unparseable body is a
/// `MalformedResponse`, a document with no URL in either slot is a
/// `MissingStreamField`, anything else resolves.
pub open spec fn classify_spec(p: Option<(Option<Seq<char>>, Option<Seq<char>>)>) -> Result<(Option<Seq<char>>, Option<Seq<char>>), ResolveError> {
    match p {
        Option::None => Result::Err(ResolveError::MalformedResponse),
        Option::Some(u) => if u.0 is None && u.1 is None {
            Result::Err(ResolveError::MissingStreamField)
        } else {
            Result::Ok(u)
        },
    }
}

/// Classifies what the upstream body parsed to.  A tier whose URL is absent
/// is skipped later, not an error; only a document with no URL at all is
/// refused.
pub fn classify_streams(parsed: Option<StreamUrlSet>) -> (r: Result<StreamUrlSet, ResolveError>)
    ensures
        (match r {
            Result::Ok(u) => classify_spec(opt_urls_v(parsed)) == Result::<(Option<Seq<char>>, Option<Seq<char>>), ResolveError>::Ok(urls_v(u)),
            Result::Err(e) => classify_spec(opt_urls_v(parsed)) == Result::<(Option<Seq<char>>, Option<Seq<char>>), ResolveError>::Err(e),
        }),
{
    match parsed {
        Option::None => Result::Err(ResolveError::MalformedResponse),
        Option::Some(u) => {
            if u.best.is_none() && u.mid.is_none() {
                Result::Err(ResolveError::MissingStreamField)
            } else {
                Result::Ok(u)
            }
        },
    }
}

/// Parses the upstream body and classifies it.
pub fn interpret_body(body: &str) -> (r: Result<StreamUrlSet, ResolveError>)
    ensures
        (match r {
            Result::Ok(u) => classify_spec(parsed_streams(body@)) == Result::<(Option<Seq<char>>, Option<Seq<char>>), ResolveError>::Ok(urls_v(u)),
            Result::Err(e) => classify_spec(parsed_streams(body@)) == Result::<(Option<Seq<char>>, Option<Seq<char>>), ResolveError>::Err(e),
        }),
{
    classify_streams(parse_stream_fields(body))
}

/// The download queue a URL set plans: the tiers whose URL resolved, in the
/// fixed tier order, best first.
pub open spec fn plan_v(u: (Option<Seq<char>>, Option<Seq<char>>)) -> Seq<(Tier, Seq<char>)> {
    (match u.0 {
        Option::Some(b) => seq![(Tier::Best, b)],
        Option::None => Seq::<(Tier, Seq<char>)>::empty(),
    }) + (match u.1 {
        Option::Some(m) => seq![(Tier::Mid, m)],
        Option::None => Seq::<(Tier, Seq<char>)>::empty(),
    })
}

/// The mathematical value of a download queue.
pub open spec fn queue_v(q: Seq<TierUrl>) -> Seq<(Tier, Seq<char>)> {
    q.map_values(|tu: TierUrl| (tu.tier, tu.url@))
}

/// Plans the download queue for a resolved URL set: one entry per present
/// tier, best first.
pub fn plan(urls: StreamUrlSet) -> (q: Vec<TierUrl>)
    ensures
        queue_v(q@) == plan_v(urls_v(urls)),
{
    let ghost target = plan_v(urls_v(urls));
    let mut q: Vec<TierUrl> = Vec::new();
    match urls.best {
        Option::Some(b) => q.push(TierUrl { tier: Tier::Best, url: b }),
        Option::None => (),
    }
    match urls.mid {
        Option::Some(m) => q.push(TierUrl { tier: Tier::Mid, url: m }),
        Option::None => (),
    }
    proof {
        assert(queue_v(q@) =~= target);
    }
    q
}

} // verus!
