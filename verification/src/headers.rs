//! The headers of a reply, held in `axum::http::HeaderMap`.

use axum::http::header::InvalidHeaderValue;
use axum::http::{HeaderMap, HeaderValue};
use vstd::prelude::*;

verus! {

/// `axum::http::HeaderMap`, opaque here.
#[verifier::external_type_specification]
#[verifier::external_body]
#[verifier::reject_recursive_types(T)]
pub struct ExHeaderMap<T>(axum::http::HeaderMap<T>);

/// `axum::http::HeaderValue`, opaque here.
#[verifier::external_type_specification]
#[verifier::external_body]
pub struct ExHeaderValue(axum::http::HeaderValue);

/// `axum::http::header::InvalidHeaderValue`, opaque here.
#[verifier::external_type_specification]
#[verifier::external_body]
pub struct ExInvalidHeaderValue(axum::http::header::InvalidHeaderValue);

/// The bytes of a header's value.
pub uninterp spec fn header_bytes(value: HeaderValue) -> Seq<u8>;

/// The bytes of the values of each header, by the header's name in lower case.
pub uninterp spec fn header_values(headers: HeaderMap) -> Map<Seq<char>, Seq<Seq<u8>>>;

/// No headers at all.
pub open spec fn no_headers() -> Map<Seq<char>, Seq<Seq<u8>>> {
    Map::empty()
}

/// Whether a header's value may consist of these bytes: no control characters but
/// the tab.
pub open spec fn is_header_value(bytes: Seq<u8>) -> bool {
    forall|i: int|
        0 <= i < bytes.len() ==> #[trigger] bytes[i] == 9 || (bytes[i] >= 32 && bytes[i] != 127)
}

/// Whether a text is a header's name made of lower-case letters and `-`.
pub open spec fn is_header_name(name: Seq<char>) -> bool {
    &&& 1 <= name.len() <= 64
    &&& forall|i: int|
        0 <= i < name.len() ==> ('a' <= #[trigger] name[i] <= 'z') || name[i] == '-'
}

/// Calls `HeaderValue::from_str`, which takes a text without control characters
/// and refuses any other.
#[verifier::external_body]
pub(crate) fn header_value(text: &str) -> (r: Result<HeaderValue, InvalidHeaderValue>)
    ensures
        r is Ok <==> is_header_value(vstd::utf8::encode_utf8(text@)),
        r matches Ok(value) ==> header_bytes(value) == vstd::utf8::encode_utf8(text@),
{
    HeaderValue::from_str(text)
}

/// Calls `HeaderMap::new`, which makes a collection without headers.
#[verifier::external_body]
pub(crate) fn new_headers() -> (headers: HeaderMap)
    ensures
        header_values(headers) == no_headers(),
{
    HeaderMap::new()
}

/// Calls `HeaderMap::insert`: the header of that name then has that value alone,
/// and no other header changes. The call panics on a name that is none and on
/// tens of thousands of headers; both are ruled out.
#[verifier::external_body]
pub(crate) fn insert_header(headers: &mut HeaderMap, name: &'static str, value: HeaderValue)
    requires
        is_header_name(name@),
        header_values(*old(headers)).dom().finite(),
        header_values(*old(headers)).dom().len() < 100,
    ensures
        header_values(*final(headers)) == header_values(*old(headers)).insert(
            name@,
            seq![header_bytes(value)],
        ),
{
    headers.insert(name, value);
}

} // verus!
