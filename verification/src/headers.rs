//! Reading request headers.
//!
//! A header that is absent and a header whose value is not plain text are
//! treated alike: the caller sees no value.

use axum::http::header::ToStrError;
use axum::http::{HeaderMap, HeaderValue};
use vstd::prelude::*;

verus! {

/// `axum::http::HeaderMap`, the headers of one request.
#[verifier::external_type_specification]
#[verifier::external_body]
#[verifier::reject_recursive_types(T)]
pub struct ExHeaderMap<T>(axum::http::HeaderMap<T>);

/// `axum::http::HeaderValue`, the bytes of one header value.
#[verifier::external_type_specification]
#[verifier::external_body]
pub struct ExHeaderValue(axum::http::HeaderValue);

/// `axum::http::header::ToStrError`, the refusal of `HeaderValue::to_str`.
#[verifier::external_type_specification]
#[verifier::external_body]
pub struct ExToStrError(axum::http::header::ToStrError);

/// What a header map holds: for each name that `get` finds, in lower case, the
/// bytes of the first value that was stored under it.
pub uninterp spec fn header_values(headers: HeaderMap<HeaderValue>) -> Map<Seq<char>, Seq<u8>>;

/// The bytes that a header value holds.
pub uninterp spec fn header_value_bytes(value: HeaderValue) -> Seq<u8>;

/// A header value is text when it is made of visible ASCII, spaces and tabs.
pub open spec fn is_header_text(bytes: Seq<u8>) -> bool {
    forall|i: int| 0 <= i < bytes.len() ==> (32 <= #[trigger] bytes[i] < 127 || bytes[i] == 9)
}

/// Each byte as the character of the same code.
pub open spec fn ascii_chars(bytes: Seq<u8>) -> Seq<char> {
    bytes.map_values(|b: u8| b as char)
}

/// The text of the header `name`: its first value, where that is text.
pub open spec fn header_text(headers: HeaderMap<HeaderValue>, name: Seq<char>) -> Option<
    Seq<char>,
> {
    if header_values(headers).contains_key(name) && is_header_text(header_values(headers)[name]) {
        Some(ascii_chars(header_values(headers)[name]))
    } else {
        None
    }
}

/// No upper-case ASCII letter occurs in the name.
pub open spec fn is_lower_case_name(name: Seq<char>) -> bool {
    forall|i: int| 0 <= i < name.len() ==> !('A' <= #[trigger] name[i] <= 'Z')
}

/// `HeaderMap::get` with a string: the first value under that name. The map
/// stores names in lower case, so a lower-case name is looked up as it stands.
#[verifier::external_body]
fn header_get<'a>(headers: &'a HeaderMap<HeaderValue>, name: &str) -> (value: Option<
    &'a HeaderValue,
>)
    requires
        is_lower_case_name(name@),
    ensures
        value is Some <==> header_values(*headers).contains_key(name@),
        value is Some ==> header_value_bytes(*value->0) == header_values(*headers)[name@],
{
    headers.get(name)
}

/// `HeaderValue::to_str`: the value as a string, exactly when all of its bytes
/// are visible ASCII, spaces or tabs.
pub assume_specification[ HeaderValue::to_str ](value: &HeaderValue) -> (res: Result<
    &str,
    ToStrError,
>)
    ensures
        res is Ok <==> is_header_text(header_value_bytes(*value)),
        res is Ok ==> res->Ok_0@ == ascii_chars(header_value_bytes(*value)),
;

/// The text of the header `name`, if it is present and is text.
pub fn header_str<'a>(headers: &'a HeaderMap<HeaderValue>, name: &str) -> (text: Option<&'a str>)
    requires
        is_lower_case_name(name@),
    ensures
        match text {
            Some(t) => header_text(*headers, name@) == Some(t@),
            None => header_text(*headers, name@) is None,
        },
{
    match header_get(headers, name) {
        Some(value) => match value.to_str() {
            Ok(text) => Some(text),
            Err(_) => None,
        },
        None => None,
    }
}

} // verus!
