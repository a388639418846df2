//! The cross-origin headers that every proxied answer carries.
//!
//! The four headers are fixed. They replace whatever the backend sent under
//! the same names. Any origin is allowed together with credentials: browsers
//! refuse that pair for credentialed requests, and the proxy sends it as it
//! is.

use crate::headers::{
    ascii_bytes, header_fields, is_plain_name, is_plain_value, set_static, Fields, NAME_ROOM,
};
use axum::http::{HeaderMap, HeaderValue};
use vstd::prelude::*;

verus! {

/// The name of the header that says which origins may read the answer.
pub const ALLOW_ORIGIN: &'static str = "access-control-allow-origin";

/// The name of the header that says whether credentials may be sent.
pub const ALLOW_CREDENTIALS: &'static str = "access-control-allow-credentials";

/// The name of the header that lists the methods a caller may use.
pub const ALLOW_METHODS: &'static str = "access-control-allow-methods";

/// The name of the header that lists the headers a caller may send.
pub const ALLOW_HEADERS: &'static str = "access-control-allow-headers";

/// The value of `ALLOW_ORIGIN`: every origin.
pub const ANY_ORIGIN: &'static str = "*";

/// The value of `ALLOW_CREDENTIALS`.
pub const WITH_CREDENTIALS: &'static str = "true";

/// The value of `ALLOW_METHODS`.
pub const ALLOWED_METHODS: &'static str = "PUT, GET, POST, DELETE, PATCH, OPTIONS";

/// The value of `ALLOW_HEADERS`.
pub const ALLOWED_HEADERS: &'static str =
    "DNT,Keep-Alive,User-Agent,X-Requested-With,If-Modified-Since,Cache-Control,Content-Type,Range,Authorization,X-Api-Key,x-hasura-admin-secret,X-Sign";

/// A header with a single value, as it stands in the fields of a map.
pub open spec fn single(value: Seq<char>) -> Seq<Seq<u8>> {
    seq![ascii_bytes(value)]
}

/// `fields` with the four cross-origin headers set, each to its one value.
pub open spec fn with_cors(fields: Fields) -> Fields {
    fields.insert(ALLOW_ORIGIN@, single(ANY_ORIGIN@)).insert(
        ALLOW_CREDENTIALS@,
        single(WITH_CREDENTIALS@),
    ).insert(ALLOW_METHODS@, single(ALLOWED_METHODS@)).insert(
        ALLOW_HEADERS@,
        single(ALLOWED_HEADERS@),
    )
}

/// Whether `name` is one of the four cross-origin header names.
pub open spec fn is_cors_name(name: Seq<char>) -> bool {
    name == ALLOW_ORIGIN@ || name == ALLOW_CREDENTIALS@ || name == ALLOW_METHODS@ || name
        == ALLOW_HEADERS@
}

/// The four cross-origin header names differ from one another.
pub proof fn cors_names_differ()
    ensures
        ALLOW_ORIGIN@ != ALLOW_CREDENTIALS@,
        ALLOW_ORIGIN@ != ALLOW_METHODS@,
        ALLOW_ORIGIN@ != ALLOW_HEADERS@,
        ALLOW_CREDENTIALS@ != ALLOW_METHODS@,
        ALLOW_CREDENTIALS@ != ALLOW_HEADERS@,
        ALLOW_METHODS@ != ALLOW_HEADERS@,
{
    reveal_strlit("access-control-allow-origin");
    reveal_strlit("access-control-allow-credentials");
    reveal_strlit("access-control-allow-methods");
    reveal_strlit("access-control-allow-headers");
    assert(ALLOW_ORIGIN@[21] == 'o');
    assert(ALLOW_CREDENTIALS@[21] == 'c');
    assert(ALLOW_METHODS@[21] == 'm');
    assert(ALLOW_HEADERS@[21] == 'h');
}

/// The names and values of the four headers are texts that a header map
/// takes as they are.
pub proof fn cors_texts_are_plain()
    ensures
        is_plain_name(ALLOW_ORIGIN@),
        is_plain_name(ALLOW_CREDENTIALS@),
        is_plain_name(ALLOW_METHODS@),
        is_plain_name(ALLOW_HEADERS@),
        is_plain_value(ANY_ORIGIN@),
        is_plain_value(WITH_CREDENTIALS@),
        is_plain_value(ALLOWED_METHODS@),
        is_plain_value(ALLOWED_HEADERS@),
{
    reveal_strlit("access-control-allow-origin");
    reveal_strlit("access-control-allow-credentials");
    reveal_strlit("access-control-allow-methods");
    reveal_strlit("access-control-allow-headers");
    reveal_strlit("*");
    reveal_strlit("true");
    reveal_strlit("PUT, GET, POST, DELETE, PATCH, OPTIONS");
    reveal_strlit(
        "DNT,Keep-Alive,User-Agent,X-Requested-With,If-Modified-Since,Cache-Control,Content-Type,Range,Authorization,X-Api-Key,x-hasura-admin-secret,X-Sign",
    );
}

/// A map that can take the four headers: it holds finitely many names and
/// stays within `NAME_ROOM` while they are set one by one.
pub open spec fn takes_cors(fields: Fields) -> bool {
    fields.dom().finite() && fields.dom().len() + 3 <= NAME_ROOM
}

/// Sets the four cross-origin headers on `headers`.
pub fn apply_cors(headers: &mut HeaderMap<HeaderValue>)
    requires
        takes_cors(header_fields(*old(headers))),
    ensures
        header_fields(*final(headers)) == with_cors(header_fields(*old(headers))),
{
    proof {
        cors_texts_are_plain();
    }
    set_static(headers, ALLOW_ORIGIN, ANY_ORIGIN);
    set_static(headers, ALLOW_CREDENTIALS, WITH_CREDENTIALS);
    set_static(headers, ALLOW_METHODS, ALLOWED_METHODS);
    set_static(headers, ALLOW_HEADERS, ALLOWED_HEADERS);
}

} // verus!
