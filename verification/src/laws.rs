//! What holds of the proxy as a whole, proved from the rules of the other
//! modules.

use crate::cors::{
    cors_names_differ, is_cors_name, single, takes_cors, with_cors, ALLOWED_HEADERS,
    ALLOWED_METHODS, ALLOW_CREDENTIALS, ALLOW_HEADERS, ALLOW_METHODS, ALLOW_ORIGIN, ANY_ORIGIN,
    WITH_CREDENTIALS,
};
use crate::dispatch::{spec_dispatch, ActionView};
use crate::headers::{no_fields, Fields};
use crate::relay::passed_on;
use crate::reply::{bare, preflight_view};
use crate::route::{
    api_path, classify_of_api_path, classify_without_service, is_segment, GET, HEALTH_PATH,
    OPTIONS,
};
use crate::table::spec_port_of;
use crate::target::target_text;
use crate::text::decimal_text;
use crate::uri::uri_accepts;
use vstd::prelude::*;

verus! {

/// Setting the four headers gives each of them its one fixed value, whatever
/// the fields held under its name before, and leaves every other name with
/// what it had.
pub proof fn cors_is_set_on_top(fields: Fields)
    ensures
        with_cors(fields)[ALLOW_ORIGIN@] == single(ANY_ORIGIN@),
        with_cors(fields)[ALLOW_CREDENTIALS@] == single(WITH_CREDENTIALS@),
        with_cors(fields)[ALLOW_METHODS@] == single(ALLOWED_METHODS@),
        with_cors(fields)[ALLOW_HEADERS@] == single(ALLOWED_HEADERS@),
        forall|name: Seq<char>| is_cors_name(name) ==> with_cors(fields).contains_key(name),
        forall|name: Seq<char>|
            !is_cors_name(name) ==> with_cors(fields).contains_key(name) == fields.contains_key(
                name,
            ),
        forall|name: Seq<char>|
            !is_cors_name(name) && fields.contains_key(name) ==> with_cors(fields)[name]
                == fields[name],
{
    cors_names_differ();
}

/// Setting the four headers twice is the same as setting them once.
pub proof fn cors_is_idempotent(fields: Fields)
    ensures
        with_cors(with_cors(fields)) == with_cors(fields),
{
    cors_names_differ();
}

/// A request under `/api/` with any method but `OPTIONS`, for a service that
/// the table does not hold, is answered with 404 and no headers. It is not
/// forwarded, so no backend is contacted.
pub proof fn unknown_service_is_not_found(
    method: Seq<char>,
    service: Seq<char>,
    rest: Seq<char>,
    query: Option<Seq<char>>,
)
    requires
        !service.contains('/'),
        spec_port_of(service) is None,
        method != OPTIONS@,
    ensures
        spec_dispatch(method, api_path(service, rest), query) == ActionView::Respond(bare(404)),
{
    if service.len() > 0 {
        classify_of_api_path(method, service, rest);
    } else {
        assert(service =~= Seq::<char>::empty());
        classify_without_service(method, rest);
    }
}

/// An `OPTIONS` request under `/api/` is answered with 200 and exactly the
/// four cross-origin headers, whether or not the table holds the service. It
/// is not forwarded.
pub proof fn preflight_is_answered_at_once(
    service: Seq<char>,
    rest: Seq<char>,
    query: Option<Seq<char>>,
)
    requires
        is_segment(service),
    ensures
        spec_dispatch(OPTIONS@, api_path(service, rest), query) == ActionView::Respond(
            preflight_view(),
        ),
        preflight_view().status == 200,
        preflight_view().fields[ALLOW_ORIGIN@] == single(ANY_ORIGIN@),
        preflight_view().fields[ALLOW_CREDENTIALS@] == single(WITH_CREDENTIALS@),
        preflight_view().fields[ALLOW_METHODS@] == single(ALLOWED_METHODS@),
        preflight_view().fields[ALLOW_HEADERS@] == single(ALLOWED_HEADERS@),
        forall|name: Seq<char>| preflight_view().fields.contains_key(name) == is_cors_name(name),
{
    classify_of_api_path(OPTIONS@, service, rest);
    cors_is_set_on_top(no_fields());
}

/// `GET /healthz` is answered with 200 and no headers, the cross-origin ones
/// included, whatever the query.
pub proof fn health_is_plain(query: Option<Seq<char>>)
    ensures
        spec_dispatch(GET@, HEALTH_PATH@, query) == ActionView::Respond(bare(200)),
        forall|name: Seq<char>| !bare(200).fields.contains_key(name),
{
}

/// A request under `/api/` with any method but `OPTIONS`, for a service that
/// the table holds, has the target `http://{service}:{port}/{rest}`, followed
/// by `?{query}` where it has a query. It is forwarded there if that is a
/// URI, and answered with 400 if not.
pub proof fn known_service_is_forwarded(
    method: Seq<char>,
    service: Seq<char>,
    rest: Seq<char>,
    query: Option<Seq<char>>,
)
    requires
        is_segment(service),
        spec_port_of(service) is Some,
        method != OPTIONS@,
    ensures
        ({
            let target = target_text(service, spec_port_of(service)->0, rest, query);
            spec_dispatch(method, api_path(service, rest), query) == if uri_accepts(target) {
                ActionView::Forward { target }
            } else {
                ActionView::Respond(bare(400))
            }
        }),
{
    classify_of_api_path(method, service, rest);
}

/// The query of a request stands in the target once, at its end, behind one
/// `?`; a request without a query has a target without that `?`.
pub proof fn query_is_kept_once(
    service: Seq<char>,
    port: u16,
    rest: Seq<char>,
    query: Seq<char>,
)
    ensures
        target_text(service, port, rest, Some(query)) == target_text(service, port, rest, None)
            + seq!['?'] + query,
        target_text(service, port, rest, None) == "http://"@ + service + seq![':'] + decimal_text(
            port as nat,
        ) + seq!['/'] + rest,
{
    assert(target_text(service, port, rest, Some(query)) =~= target_text(
        service,
        port,
        rest,
        None,
    ) + seq!['?'] + query);
}

/// A response of the backend reaches the caller with its status and its body
/// as they are, and with its fields under the four cross-origin headers:
/// those four hold their fixed values, every other name holds what the
/// backend sent.
pub proof fn response_is_passed_on<B>(status: u16, fields: Fields, body: B)
    requires
        takes_cors(fields),
    ensures
        passed_on(status, fields, body).head.status == status,
        passed_on(status, fields, body).body == Some(body),
        passed_on(status, fields, body).head.fields == with_cors(fields),
        passed_on(status, fields, body).head.fields[ALLOW_ORIGIN@] == single(ANY_ORIGIN@),
        passed_on(status, fields, body).head.fields[ALLOW_CREDENTIALS@] == single(
            WITH_CREDENTIALS@,
        ),
        passed_on(status, fields, body).head.fields[ALLOW_METHODS@] == single(ALLOWED_METHODS@),
        passed_on(status, fields, body).head.fields[ALLOW_HEADERS@] == single(ALLOWED_HEADERS@),
        forall|name: Seq<char>|
            is_cors_name(name) ==> passed_on(status, fields, body).head.fields.contains_key(name),
        forall|name: Seq<char>|
            !is_cors_name(name) ==> passed_on(status, fields, body).head.fields.contains_key(name)
                == fields.contains_key(name),
        forall|name: Seq<char>|
            !is_cors_name(name) && fields.contains_key(name) ==> passed_on(
                status,
                fields,
                body,
            ).head.fields[name] == fields[name],
{
    cors_is_set_on_top(fields);
}

} // verus!
