//! Error taxonomy and the externally visible outcome of one request.

use vstd::prelude::*;

use crate::text::dec_spec;
use crate::text::u16_to_dec;
use crate::tier::Tier;
use crate::tier::tier_name_spec;

verus! {

/// Why stream resolution failed.  A resolution error aborts the whole
/// request: no tier download is attempted after one.
pub enum ResolveError {
    /// The upstream transport call failed (`status` is `None`), or the
    /// upstream answered with a non-success status (`status` is that code).
    UpstreamUnavailable { status: Option<u16> },
    /// The upstream body could not be parsed as the expected document.
    MalformedResponse,
    /// The parsed document held a stream URL for no tier at all.  A single
    /// absent tier is not an error: that tier is skipped.
    MissingStreamField,
}

/// Why one tier's download failed.  A tier error is contained to its tier;
/// the remaining tiers are still attempted.
pub enum TierError {
    /// The transport call for the tier's URL failed or returned a
    /// non-success status.
    FetchFailed,
    /// The response body could not be fully drained.
    ReadFailed,
    /// The fetched bytes could not be persisted into the cache.
    PersistFailed,
}

/// The terminal result of one request: exactly one per request, also under
/// timeout or internal fault.
pub struct DownloadOutcome {
    pub ok: bool,
    pub error: String,
}

/// The message a resolution error surfaces to the caller.
pub open spec fn resolve_error_message_spec(e: ResolveError) -> Seq<char> {
    match e {
        ResolveError::UpstreamUnavailable { status } => match status {
            Option::Some(s) => "upstream API error: status "@ + dec_spec(s as nat),
            Option::None => "upstream request failed"@,
        },
        ResolveError::MalformedResponse => "upstream response was not parseable"@,
        ResolveError::MissingStreamField => "upstream response held no stream URL"@,
    }
}

/// The message one tier's failure contributes, naming the tier.
pub open spec fn tier_error_message_spec(t: Tier, e: TierError) -> Seq<char> {
    tier_name_spec(t) + match e {
        TierError::FetchFailed => ": fetch failed"@,
        TierError::ReadFailed => ": body read failed"@,
        TierError::PersistFailed => ": persist failed"@,
    }
}

/// Renders a resolution error as its caller-visible message.
pub fn resolve_error_message(e: &ResolveError) -> (r: String)
    ensures
        r@ == resolve_error_message_spec(*e),
{
    match e {
        ResolveError::UpstreamUnavailable { status } => match status {
            Option::Some(s) => {
                let mut m = String::from_str("upstream API error: status ");
                let d = u16_to_dec(*s);
                m.append(d.as_str());
                m
            },
            Option::None => String::from_str("upstream request failed"),
        },
        ResolveError::MalformedResponse => String::from_str("upstream response was not parseable"),
        ResolveError::MissingStreamField => String::from_str("upstream response held no stream URL"),
    }
}

/// Renders one tier's failure as its message, naming the tier.
pub fn tier_error_message(t: Tier, e: &TierError) -> (r: String)
    ensures
        r@ == tier_error_message_spec(t, *e),
{
    let mut m = String::from_str(t.name());
    match e {
        TierError::FetchFailed => m.append(": fetch failed"),
        TierError::ReadFailed => m.append(": body read failed"),
        TierError::PersistFailed => m.append(": persist failed"),
    }
    m
}

} // verus!
