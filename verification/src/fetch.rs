//! Media fetching support: inferring a file extension from a response's
//! declared content type.  The network retrieval itself happens outside the
//! library and hands its results in as events.

use vstd::prelude::*;

verus! {

/// The canonical file extension for a declared content type, if the
/// standard media-type table knows one: `None` when the content type does
/// not parse or no extension is on record.
pub uninterp spec fn ext_of(content_type: Seq<char>) -> Option<Seq<char>>;

/// The mathematical value of an optional extension.
pub open spec fn opt_string_v(o: Option<String>) -> Option<Seq<char>> {
    match o {
        Option::Some(s) => Option::Some(s@),
        Option::None => Option::None,
    }
}

/// Relies on `str::parse::<mime::Mime>` and
/// `mime_guess::get_mime_extensions`: parses the content type and looks its
/// type/subtype pair up in the crate's static extension table, taking the
/// table's first entry.  Both are pure lookups, so the result depends on
/// the content-type text alone.
#[verifier::external_body]
fn media_extension(content_type: &str) -> (r: Option<String>)
    ensures
        opt_string_v(r) == ext_of(content_type@),
{
    let m: mime::Mime = match content_type.parse() {
        Ok(m) => m,
        Err(_) => return None,
    };
    match mime_guess::get_mime_extensions(&m).and_then(|exts| exts.first()) {
        Some(e) => Some((*e).to_string()),
        None => None,
    }
}

/// The extension inferred for a response: none when the response declared
/// no content type, else whatever the table gives for the declared one.
pub open spec fn inferred_ext(content_type: Option<Seq<char>>) -> Option<Seq<char>> {
    match content_type {
        Option::Some(c) => ext_of(c),
        Option::None => Option::None,
    }
}

/// Infers the cache-file extension from a response's declared content type.
pub fn infer_extension(content_type: Option<&String>) -> (r: Option<String>)
    ensures
        opt_string_v(r) == inferred_ext(match content_type {
            Option::Some(c) => Option::Some(c@),
            Option::None => Option::None,
        }),
{
    match content_type {
        Option::Some(c) => media_extension(c.as_str()),
        Option::None => Option::None,
    }
}

} // verus!
