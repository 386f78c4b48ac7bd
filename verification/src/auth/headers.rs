//! The calls into the header map of the `http` crate, as `axum` hands it on,
//! each behind a contract that is taken on trust.

use vstd::prelude::*;
use axum::http::HeaderMap;
use axum::http::HeaderValue;

verus! {

/// `http::HeaderMap`: the headers of a request, several values to a name.
#[verifier::external_type_specification]
#[verifier::external_body]
#[verifier::reject_recursive_types(T)]
pub struct ExHeaderMap<T>(axum::http::HeaderMap<T>);

/// `http::HeaderValue`: the bytes of one header value.
#[verifier::external_type_specification]
#[verifier::external_body]
pub struct ExHeaderValue(axum::http::HeaderValue);

/// The bytes of the first value that a header map holds under `name`, if it
/// holds one. Names of headers know no upper and lower case.
pub uninterp spec fn held_value(headers: HeaderMap<HeaderValue>, name: Seq<char>) -> Option<Seq<u8>>;

/// The bytes of a header value.
pub uninterp spec fn value_bytes(value: HeaderValue) -> Seq<u8>;

/// Whether a byte is a visible ASCII character, a space or a tab.
pub open spec fn is_visible_ascii(byte: u8) -> bool {
    32 <= byte < 127 || byte == 9
}

/// Whether a header value reads as text: all of its bytes are visible ASCII.
pub open spec fn reads_as_text(bytes: Seq<u8>) -> bool {
    forall|i: int| 0 <= i < bytes.len() ==> is_visible_ascii(#[trigger] bytes[i])
}

/// The text that ASCII bytes spell.
pub open spec fn text_of(bytes: Seq<u8>) -> Seq<char> {
    Seq::new(bytes.len(), |i: int| bytes[i] as char)
}

/// `HeaderMap::get` with a name given as text: the first value under that
/// name, if there is one. A name that no header can have finds nothing.
#[verifier::external_body]
pub(crate) fn first_value<'a>(headers: &'a HeaderMap<HeaderValue>, name: &str) -> (value: Option<
    &'a HeaderValue,
>)
    ensures
        match value {
            Some(found) => held_value(*headers, name@) == Some(value_bytes(*found)),
            None => held_value(*headers, name@) is None,
        },
{
    headers.get(name)
}

/// `HeaderValue::to_str`: the value as text, which it is where every byte is a
/// visible ASCII character, a space or a tab. Else the error's text comes
/// back.
#[verifier::external_body]
pub(crate) fn value_text<'a>(value: &'a HeaderValue) -> (text: Result<&'a str, String>)
    ensures
        match text {
            Ok(read) => reads_as_text(value_bytes(*value)) && read@ == text_of(value_bytes(*value)),
            Err(_) => !reads_as_text(value_bytes(*value)),
        },
{
    value.to_str().map_err(|error| error.to_string())
}

} // verus!
