//! The service table: which backend port each service name stands for.
//!
//! The table is fixed. Names are compared character by character, so a name
//! in another case is another name.

use crate::text::same_text;
use vstd::prelude::*;

verus! {

/// The port of a service; `None` for a name that the table does not hold.
pub open spec fn spec_port_of(service: Seq<char>) -> Option<u16> {
    if service == "hasura-cache"@ {
        Some(80u16)
    } else if service == "ugc-gateway"@ {
        Some(10000u16)
    } else {
        None
    }
}

/// Looks a service up in the table.
pub fn port_of(service: &str) -> (port: Option<u16>)
    ensures
        port == spec_port_of(service@),
{
    if same_text(service, "hasura-cache") {
        Some(80)
    } else if same_text(service, "ugc-gateway") {
        Some(10000)
    } else {
        None
    }
}

} // verus!
