//! The header map of the `http` crate, as the contracts of this crate see it.
//!
//! Verus cannot look inside a `HeaderMap`. This file gives its contents a
//! name, `header_fields`, and says what the three methods that this crate
//! calls do to them. Those statements are taken from the source of the `http`
//! crate; Verus believes them and proves nothing of them.

use axum::http::{HeaderMap, HeaderValue};
use vstd::prelude::*;

verus! {

/// The fields of a header map: each name that occurs in it, in lower case,
/// with the bytes of its values in the order in which the map yields them.
pub type Fields = Map<Seq<char>, Seq<Seq<u8>>>;

/// `http::HeaderMap`, held and passed on without a look inside.
#[verifier::external_type_specification]
#[verifier::external_body]
#[verifier::reject_recursive_types(T)]
pub struct ExHeaderMap<T>(HeaderMap<T>);

/// `http::HeaderValue`, held and passed on without a look inside.
#[verifier::external_type_specification]
#[verifier::external_body]
pub struct ExHeaderValue(HeaderValue);

/// What `headers` holds: its names, as `HeaderName::as_str` gives them, each
/// with the values that `HeaderMap::get_all` yields for it, as
/// `HeaderValue::as_bytes` gives them.
pub uninterp spec fn header_fields(headers: HeaderMap<HeaderValue>) -> Fields;

/// The map without fields.
pub open spec fn no_fields() -> Fields {
    Map::empty()
}

/// `fields` has finitely many names, `count` of them.
pub open spec fn has_names(fields: Fields, count: nat) -> bool {
    fields.dom().finite() && fields.dom().len() == count
}

/// A name that a header map stores as it is written: 1 to 64 characters, each
/// a lower-case letter, a digit or `-`.
pub open spec fn is_plain_name(name: Seq<char>) -> bool {
    &&& 1 <= name.len() <= 64
    &&& forall|i: int|
        0 <= i < name.len() ==> {
            let c = #[trigger] name[i];
            ('a' <= c && c <= 'z') || ('0' <= c && c <= '9') || c == '-'
        }
}

/// A value of visible ASCII characters, spaces and tabs.
pub open spec fn is_plain_value(value: Seq<char>) -> bool {
    forall|i: int|
        0 <= i < value.len() ==> {
            let c = #[trigger] value[i];
            (' ' <= c && c <= '~') || c == '\t'
        }
}

/// The bytes of an ASCII text.
pub open spec fn ascii_bytes(text: Seq<char>) -> Seq<u8> {
    Seq::new(text.len(), |i: int| text[i] as u8)
}

/// A map that holds at most this many names takes one more without growing
/// beyond what `HeaderMap` allows.
pub const NAME_ROOM: usize = 4096;

/// `HeaderMap::new`: a map without fields.
#[verifier::external_body]
pub(crate) fn empty_headers() -> (headers: HeaderMap<HeaderValue>)
    ensures
        header_fields(headers) == no_fields(),
{
    HeaderMap::new()
}

/// `HeaderMap::keys_len`: the number of names in the map, each counted once
/// however many values it has.
#[verifier::external_body]
pub(crate) fn name_count(headers: &HeaderMap<HeaderValue>) -> (count: usize)
    ensures
        has_names(header_fields(*headers), count as nat),
{
    headers.keys_len()
}

/// `HeaderMap::insert`, with the name given as a static string and the value
/// made by `HeaderValue::from_static`: afterwards `name` has `value` as its
/// only value, whatever it had before, and every other name has what it had.
///
/// All three can panic, and `requires` leaves those inputs out. The name is
/// refused if it is empty or holds a character that may not stand in a header
/// name, and names in upper case are stored in lower case: a plain name is
/// accepted and stored as written. `from_static` refuses all but visible
/// ASCII, space and tab. `insert` panics when the map would have to grow
/// beyond 32768 slots. It grows when three quarters of its slots are taken
/// or, after many collisions, a fifth of them, so a map of `NAME_ROOM` names
/// or fewer never gets there.
#[verifier::external_body]
pub(crate) fn set_static(
    headers: &mut HeaderMap<HeaderValue>,
    name: &'static str,
    value: &'static str,
)
    requires
        is_plain_name(name@),
        is_plain_value(value@),
        header_fields(*old(headers)).dom().finite(),
        header_fields(*old(headers)).dom().len() <= NAME_ROOM,
    ensures
        header_fields(*final(headers)) == header_fields(*old(headers)).insert(
            name@,
            seq![ascii_bytes(value@)],
        ),
{
    headers.insert(name, HeaderValue::from_static(value));
}

} // verus!
