//! From the backend's answer to the answer that the caller receives.
//!
//! A response is passed on with its status and its body as they are, and with
//! the four cross-origin headers set on top of its own. A backend that could
//! not be reached, or whose response cannot be passed on, costs the caller a
//! 502 with an empty body, and nothing else.

use crate::cors::{apply_cors, takes_cors, with_cors};
use crate::headers::{header_fields, name_count, Fields, NAME_ROOM};
use crate::reply::{bare, rejection, Head, HeadView, ProxyError};
use axum::http::{HeaderMap, HeaderValue};
use vstd::prelude::*;

verus! {

/// How a forwarded request ended.
#[derive(Debug)]
pub enum Upstream<B> {
    /// The backend answered, with this status, these headers and this body.
    Answered { status: u16, headers: HeaderMap<HeaderValue>, body: B },
    /// The backend could not be reached.
    Unavailable,
    /// The backend sent something that is not a response.
    ProtocolError,
}

/// The answer to a forwarded request.
#[derive(Debug)]
pub struct Relayed<B> {
    /// The status and the headers.
    pub head: Head,
    /// The body of the backend's response, or `None` for an empty body.
    pub body: Option<B>,
}

/// A `Relayed` with its head as a mathematical value.
pub struct RelayedView<B> {
    pub head: HeadView,
    pub body: Option<B>,
}

impl<B> View for Relayed<B> {
    type V = RelayedView<B>;

    open spec fn view(&self) -> RelayedView<B> {
        RelayedView { head: self.head@, body: self.body }
    }
}

/// The answer that reports an error: its status, no headers, an empty body.
pub open spec fn failed<B>(error: ProxyError) -> RelayedView<B> {
    RelayedView { head: bare(error.spec_status()), body: None }
}

/// The answer to a request that the backend answered with this status, these
/// fields and this body. A response with more names than a header map can
/// take the four headers on top of counts as a protocol error.
pub open spec fn passed_on<B>(status: u16, fields: Fields, body: B) -> RelayedView<B> {
    if takes_cors(fields) {
        RelayedView { head: HeadView { status, fields: with_cors(fields) }, body: Some(body) }
    } else {
        failed(ProxyError::BackendProtocolError)
    }
}

/// The answer that the caller receives for each outcome of a forwarded
/// request.
pub open spec fn spec_relay<B>(upstream: Upstream<B>) -> RelayedView<B> {
    match upstream {
        Upstream::Answered { status, headers, body } => passed_on(
            status,
            header_fields(headers),
            body,
        ),
        Upstream::Unavailable => failed(ProxyError::BackendUnavailable),
        Upstream::ProtocolError => failed(ProxyError::BackendProtocolError),
    }
}

/// Turns the outcome of a forwarded request into the caller's answer.
pub fn relay<B>(upstream: Upstream<B>) -> (answer: Relayed<B>)
    ensures
        answer@ == spec_relay(upstream),
{
    match upstream {
        Upstream::Answered { status, headers, body } => {
            let mut headers = headers;
            if name_count(&headers) <= NAME_ROOM - 3 {
                apply_cors(&mut headers);
                Relayed { head: Head { status, headers }, body: Some(body) }
            } else {
                Relayed { head: rejection(ProxyError::BackendProtocolError), body: None }
            }
        },
        Upstream::Unavailable => Relayed {
            head: rejection(ProxyError::BackendUnavailable),
            body: None,
        },
        Upstream::ProtocolError => Relayed {
            head: rejection(ProxyError::BackendProtocolError),
            body: None,
        },
    }
}

} // verus!
