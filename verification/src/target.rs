//! The address that a proxied request is forwarded to.
//!
//! The service name serves as the host name, the table gives the port, and
//! the rest of the path follows a `/`, as it is: with an empty rest the
//! target ends in that `/`, and the backend is asked for its root. A query,
//! where the request has one, is added behind a `?`, also when it is empty.

use crate::text::{decimal, decimal_text};
use vstd::prelude::*;
use vstd::string::*;

verus! {

/// The characters of an optional text.
pub open spec fn text_of(text: Option<&str>) -> Option<Seq<char>> {
    match text {
        Some(t) => Some(t@),
        None => None,
    }
}

/// The path and query of a forwarded request, without the leading `/`.
pub open spec fn path_and_query(rest: Seq<char>, query: Option<Seq<char>>) -> Seq<char> {
    match query {
        Some(q) => rest + seq!['?'] + q,
        None => rest,
    }
}

/// The target of a forwarded request: `http://{service}:{port}/{rest}`, and
/// `?{query}` behind it where there is a query.
pub open spec fn target_text(
    service: Seq<char>,
    port: u16,
    rest: Seq<char>,
    query: Option<Seq<char>>,
) -> Seq<char> {
    "http://"@ + service + seq![':'] + decimal_text(port as nat) + seq!['/'] + path_and_query(
        rest,
        query,
    )
}

/// Builds the target of a forwarded request.
pub fn build_target(service: &str, port: u16, rest: &str, query: Option<&str>) -> (target: String)
    ensures
        target@ == target_text(service@, port, rest@, text_of(query)),
{
    proof {
        reveal_strlit(":");
        reveal_strlit("/");
        reveal_strlit("?");
    }
    let mut target = String::from_str("http://");
    target.append(service);
    target.append(":");
    let digits = decimal(port);
    target.append(digits.as_str());
    target.append("/");
    target.append(rest);
    match query {
        Some(q) => {
            target.append("?");
            target.append(q);
        },
        None => {},
    }
    target
}

} // verus!
