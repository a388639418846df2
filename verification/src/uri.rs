//! The URI grammar of the `http` crate.
//!
//! Whether a text is a URI is decided by that crate's parser. The contracts of
//! this crate name its verdict; they do not restate its grammar.

use axum::http::Uri;
use vstd::prelude::*;

verus! {

/// Whether `Uri::try_from` accepts `text`.
pub uninterp spec fn uri_accepts(text: Seq<char>) -> bool;

/// `Uri::try_from` on a string slice: parses `text` and tells whether it is a
/// URI. The parser reads nothing but the bytes of `text`, and returns an
/// error, never a panic, on what it does not accept.
#[verifier::external_body]
pub(crate) fn parses_as_uri(text: &str) -> (accepted: bool)
    ensures
        accepted == uri_accepts(text@),
{
    Uri::try_from(text).is_ok()
}

} // verus!
