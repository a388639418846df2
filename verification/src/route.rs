//! The endpoints of the proxy, and the grammar of the paths under `/api/`.
//!
//! A proxied path is `/api/`, a service name, a `/`, and the rest of the path.
//! The service name is one path segment: it is not empty and holds no `/`.
//! The rest is everything behind the `/` that ends the service name, further
//! slashes included; it may be empty.

use crate::text::{
    first_slash_is_segment_len, leading_segment_len, same_text, segment_len,
    segment_len_is_first_slash,
};
use vstd::prelude::*;
use vstd::string::*;

verus! {

/// The path of the health check.
pub const HEALTH_PATH: &'static str = "/healthz";

/// What every proxied path begins with.
pub const API_PREFIX: &'static str = "/api/";

/// The method of the health check.
pub const GET: &'static str = "GET";

/// The method of a preflight request.
pub const OPTIONS: &'static str = "OPTIONS";

/// The endpoint that a request belongs to.
#[derive(Debug, Clone, Copy)]
pub enum Route<'a> {
    /// `GET /healthz`.
    Health,
    /// `OPTIONS` on a proxied path.
    Preflight,
    /// Any other method on a proxied path: the name of the service, and what
    /// follows the `/` behind it.
    Proxy { service: &'a str, rest: &'a str },
    /// Anything else.
    Unmatched,
}

/// A `Route` with its texts as sequences of characters.
pub enum RouteView {
    Health,
    Preflight,
    Proxy { service: Seq<char>, rest: Seq<char> },
    Unmatched,
}

impl<'a> View for Route<'a> {
    type V = RouteView;

    open spec fn view(&self) -> RouteView {
        match *self {
            Route::Health => RouteView::Health,
            Route::Preflight => RouteView::Preflight,
            Route::Proxy { service, rest } => RouteView::Proxy { service: service@, rest: rest@ },
            Route::Unmatched => RouteView::Unmatched,
        }
    }
}

/// A path segment: not empty, and without `/`.
pub open spec fn is_segment(text: Seq<char>) -> bool {
    text.len() > 0 && !text.contains('/')
}

/// The proxied path of a service and a rest.
pub open spec fn api_path(service: Seq<char>, rest: Seq<char>) -> Seq<char> {
    API_PREFIX@ + service + seq!['/'] + rest
}

/// The service and the rest of a proxied path; `None` for any other path.
pub open spec fn spec_split_api(path: Seq<char>) -> Option<(Seq<char>, Seq<char>)> {
    let tail = path.skip(API_PREFIX@.len() as int);
    let cut = segment_len(tail) as int;
    if API_PREFIX@.is_prefix_of(path) && 0 < cut < tail.len() {
        Some((tail.take(cut), tail.skip(cut + 1)))
    } else {
        None
    }
}

/// The endpoint of a method and a path.
pub open spec fn spec_classify(method: Seq<char>, path: Seq<char>) -> RouteView {
    if path == HEALTH_PATH@ {
        if method == GET@ {
            RouteView::Health
        } else {
            RouteView::Unmatched
        }
    } else {
        match spec_split_api(path) {
            Some((service, rest)) => if method == OPTIONS@ {
                RouteView::Preflight
            } else {
                RouteView::Proxy { service, rest }
            },
            None => RouteView::Unmatched,
        }
    }
}

/// A proxied path splits into the service and the rest that it was made of.
pub proof fn split_of_api_path(service: Seq<char>, rest: Seq<char>)
    requires
        is_segment(service),
    ensures
        spec_split_api(api_path(service, rest)) == Some((service, rest)),
{
    let tail = api_path(service, rest).skip(API_PREFIX@.len() as int);
    assert(tail =~= service + seq!['/'] + rest);
    first_slash_is_segment_len(tail, service.len() as int);
    assert(tail.take(service.len() as int) =~= service);
    assert(tail.skip(service.len() as int + 1) =~= rest);
}

/// Every path that splits is the proxied path of what it splits into, and the
/// service it yields is a path segment.
pub proof fn split_is_api_path(path: Seq<char>)
    ensures
        spec_split_api(path) matches Some((service, rest)) ==> is_segment(service) && path
            == api_path(service, rest),
{
    if let Some((service, rest)) = spec_split_api(path) {
        segment_len_is_first_slash(path.skip(API_PREFIX@.len() as int));
        assert(path =~= api_path(service, rest));
    }
}

/// No proxied path is the path of the health check.
pub proof fn api_path_is_not_health_path(service: Seq<char>, rest: Seq<char>)
    ensures
        api_path(service, rest) != HEALTH_PATH@,
{
    reveal_strlit("/api/");
    reveal_strlit("/healthz");
    assert(api_path(service, rest)[1] == 'a');
    assert(HEALTH_PATH@[1] == 'h');
}

/// A proxied path is a preflight for `OPTIONS`, and goes to its service with
/// any other method.
pub proof fn classify_of_api_path(method: Seq<char>, service: Seq<char>, rest: Seq<char>)
    requires
        is_segment(service),
    ensures
        spec_classify(method, api_path(service, rest)) == if method == OPTIONS@ {
            RouteView::Preflight
        } else {
            RouteView::Proxy { service, rest }
        },
{
    api_path_is_not_health_path(service, rest);
    split_of_api_path(service, rest);
}

/// A path under `/api/` whose service name is empty belongs to no endpoint.
pub proof fn classify_without_service(method: Seq<char>, rest: Seq<char>)
    ensures
        spec_classify(method, api_path(Seq::<char>::empty(), rest)) == RouteView::Unmatched,
{
    let path = api_path(Seq::<char>::empty(), rest);
    api_path_is_not_health_path(Seq::<char>::empty(), rest);
    let tail = path.skip(API_PREFIX@.len() as int);
    assert(tail[0] == '/');
    assert(segment_len(tail) == 0);
}

/// Splits a proxied path into its service and its rest.
pub fn split_api<'a>(path: &'a str) -> (parts: Option<(&'a str, &'a str)>)
    ensures
        match parts {
            Some((service, rest)) => spec_split_api(path@) == Some((service@, rest@)),
            None => spec_split_api(path@) is None,
        },
{
    let total = path.unicode_len();
    let skipped = API_PREFIX.unicode_len();
    if total < skipped {
        return None;
    }
    if !same_text(path.substring_char(0, skipped), API_PREFIX) {
        return None;
    }
    let tail = path.substring_char(skipped, total);
    let cut = leading_segment_len(tail);
    if cut == 0 || cut >= total - skipped {
        return None;
    }
    Some((tail.substring_char(0, cut), tail.substring_char(cut + 1, total - skipped)))
}

/// Finds the endpoint of a request.
pub fn classify<'a>(method: &str, path: &'a str) -> (route: Route<'a>)
    ensures
        route@ == spec_classify(method@, path@),
{
    if same_text(path, HEALTH_PATH) {
        if same_text(method, GET) {
            Route::Health
        } else {
            Route::Unmatched
        }
    } else {
        match split_api(path) {
            Some((service, rest)) => {
                if same_text(method, OPTIONS) {
                    Route::Preflight
                } else {
                    Route::Proxy { service, rest }
                }
            },
            None => Route::Unmatched,
        }
    }
}

} // verus!
