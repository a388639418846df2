//! From a request to what the proxy does with it.
//!
//! A request is answered at once or forwarded. It is forwarded only to a
//! service that the table holds, and only where the target is a URI; no
//! backend is contacted for anything else. The health check gets an empty
//! 200, a preflight request an empty 200 with the cross-origin headers, an
//! unknown service and a request outside the endpoints an empty 404, and a
//! target that is no URI an empty 400.

use crate::reply::{
    bare, bare_head, healthy, preflight, preflight_view, rejection, Head, HeadView, ProxyError,
};
use crate::route::{classify, spec_classify, Route, RouteView};
use crate::table::{port_of, spec_port_of};
use crate::target::{build_target, target_text, text_of};
use crate::uri::{parses_as_uri, uri_accepts};
use vstd::prelude::*;

verus! {

/// What the proxy does with a request.
#[derive(Debug)]
pub enum Action {
    /// Answer with this head and an empty body; contact no backend.
    Respond(Head),
    /// Send the request, with its method, headers and body as they are, to
    /// `target`.
    Forward { target: String },
}

/// An `Action` with its head and its target as mathematical values.
pub enum ActionView {
    Respond(HeadView),
    Forward { target: Seq<char> },
}

impl View for Action {
    type V = ActionView;

    open spec fn view(&self) -> ActionView {
        match *self {
            Action::Respond(head) => ActionView::Respond(head@),
            Action::Forward { target } => ActionView::Forward { target: target@ },
        }
    }
}

/// What becomes of a request to a known service, given its target and whether
/// that target is a URI.
pub open spec fn spec_settle(target: Seq<char>, accepted: bool) -> ActionView {
    if accepted {
        ActionView::Forward { target }
    } else {
        ActionView::Respond(bare(ProxyError::MalformedRequestUri.spec_status()))
    }
}

/// What the proxy does with a request.
pub open spec fn spec_dispatch(
    method: Seq<char>,
    path: Seq<char>,
    query: Option<Seq<char>>,
) -> ActionView {
    match spec_classify(method, path) {
        RouteView::Health => ActionView::Respond(bare(200)),
        RouteView::Preflight => ActionView::Respond(preflight_view()),
        RouteView::Unmatched => ActionView::Respond(bare(404)),
        RouteView::Proxy { service, rest } => match spec_port_of(service) {
            None => ActionView::Respond(bare(ProxyError::UnknownService.spec_status())),
            Some(port) => {
                let target = target_text(service, port, rest, query);
                spec_settle(target, uri_accepts(target))
            },
        },
    }
}

/// Decides on a request to a known service whose target has been built and
/// checked: forward it if the target is a URI, reject it if not.
pub fn settle(target: String, accepted: bool) -> (action: Action)
    ensures
        action@ == spec_settle(target@, accepted),
{
    if accepted {
        Action::Forward { target }
    } else {
        Action::Respond(rejection(ProxyError::MalformedRequestUri))
    }
}

/// Decides what to do with a request, from its method, its path and its
/// query.
pub fn dispatch(method: &str, path: &str, query: Option<&str>) -> (action: Action)
    ensures
        action@ == spec_dispatch(method@, path@, text_of(query)),
{
    match classify(method, path) {
        Route::Health => Action::Respond(healthy()),
        Route::Preflight => Action::Respond(preflight()),
        Route::Unmatched => Action::Respond(bare_head(404)),
        Route::Proxy { service, rest } => match port_of(service) {
            None => Action::Respond(rejection(ProxyError::UnknownService)),
            Some(port) => {
                let target = build_target(service, port, rest, query);
                let accepted = parses_as_uri(target.as_str());
                settle(target, accepted)
            },
        },
    }
}

} // verus!
