//! The answers that the proxy gives on its own, and the errors behind them.

use crate::cors::{apply_cors, with_cors};
use crate::headers::{empty_headers, header_fields, no_fields, Fields};
use axum::http::{HeaderMap, HeaderValue};
use vstd::prelude::*;

verus! {

/// What can go wrong with a proxied request.
#[derive(Debug, Clone, Copy, PartialEq, Eq, Structural)]
pub enum ProxyError {
    /// The service table does not hold the service.
    UnknownService,
    /// The target of the request is not a URI.
    MalformedRequestUri,
    /// The backend could not be reached.
    BackendUnavailable,
    /// The backend answered with something that is not a usable response.
    BackendProtocolError,
}

impl ProxyError {
    /// The status that the caller receives for this error.
    pub open spec fn spec_status(self) -> u16 {
        match self {
            ProxyError::UnknownService => 404,
            ProxyError::MalformedRequestUri => 400,
            ProxyError::BackendUnavailable => 502,
            ProxyError::BackendProtocolError => 502,
        }
    }

    /// The status that the caller receives for this error.
    pub fn status(self) -> (status: u16)
        ensures
            status == self.spec_status(),
    {
        match self {
            ProxyError::UnknownService => 404,
            ProxyError::MalformedRequestUri => 400,
            ProxyError::BackendUnavailable => 502,
            ProxyError::BackendProtocolError => 502,
        }
    }
}

/// The status line and the headers of an answer.
#[derive(Debug)]
pub struct Head {
    /// The status code.
    pub status: u16,
    /// The header fields.
    pub headers: HeaderMap<HeaderValue>,
}

/// A `Head` with its headers as fields.
pub struct HeadView {
    pub status: u16,
    pub fields: Fields,
}

impl View for Head {
    type V = HeadView;

    open spec fn view(&self) -> HeadView {
        HeadView { status: self.status, fields: header_fields(self.headers) }
    }
}

/// An answer with a status and no headers.
pub open spec fn bare(status: u16) -> HeadView {
    HeadView { status, fields: no_fields() }
}

/// The answer to a preflight request: 200 with the four cross-origin headers.
pub open spec fn preflight_view() -> HeadView {
    HeadView { status: 200, fields: with_cors(no_fields()) }
}

/// Makes an answer with a status and no headers.
pub fn bare_head(status: u16) -> (head: Head)
    ensures
        head@ == bare(status),
{
    Head { status, headers: empty_headers() }
}

/// Makes the answer to the health check: 200, no headers.
pub fn healthy() -> (head: Head)
    ensures
        head@ == bare(200),
{
    bare_head(200)
}

/// Makes the answer that reports an error: its status, no headers.
pub fn rejection(error: ProxyError) -> (head: Head)
    ensures
        head@ == bare(error.spec_status()),
{
    bare_head(error.status())
}

/// Makes the answer to a preflight request.
pub fn preflight() -> (head: Head)
    ensures
        head@ == preflight_view(),
{
    let mut headers = empty_headers();
    apply_cors(&mut headers);
    Head { status: 200, headers }
}

} // verus!
