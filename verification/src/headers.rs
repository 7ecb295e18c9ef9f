//! Header fields of a response, held in the `HeaderMap` of the `http` crate.

use axum::http::{header, HeaderMap, HeaderValue};
use vstd::prelude::*;
use vstd::string::*;
use vstd::utf8::*;

verus! {

/// The header multimap of the `http` crate.
#[verifier::external_type_specification]
#[verifier::external_body]
#[verifier::reject_recursive_types(T)]
pub struct ExHeaderMap<T>(axum::http::HeaderMap<T>);

/// A single header value of the `http` crate.
#[verifier::external_type_specification]
#[verifier::external_body]
pub struct ExHeaderValue(axum::http::HeaderValue);

/// What a header map holds: for each field name, in lower case, the raw values
/// given for it, in order. A name without a value is not in the map.
pub uninterp spec fn header_values(headers: HeaderMap) -> Map<Seq<char>, Seq<Seq<u8>>>;

/// The raw bytes of a header value.
pub uninterp spec fn header_bytes(value: HeaderValue) -> Seq<u8>;

/// The contents of a header map without any field.
pub open spec fn no_fields() -> Map<Seq<char>, Seq<Seq<u8>>> {
    Map::empty()
}

/// The bytes that header text consists of: printable ASCII and the tab.
pub open spec fn is_visible_ascii(b: u8) -> bool {
    32 <= b < 127 || b == 9
}

/// Whether all of `bytes` are printable ASCII or tabs.
pub open spec fn is_header_text(bytes: Seq<u8>) -> bool {
    forall|i: int| 0 <= i < bytes.len() ==> is_visible_ascii(#[trigger] bytes[i])
}

/// ASCII bytes read as characters.
pub open spec fn ascii_text(bytes: Seq<u8>) -> Seq<char> {
    Seq::new(bytes.len(), |i: int| bytes[i] as char)
}

/// `HeaderMap::get` for the `Content-Type` field: the first value given for
/// it, `None` exactly where there is none.
#[verifier::external_body]
fn content_type_value(headers: &HeaderMap) -> (value: Option<&HeaderValue>)
    ensures
        value is Some <==> header_values(*headers).contains_key("content-type"@),
        value matches Some(v) ==> {
            let given = header_values(*headers)["content-type"@];
            given.len() > 0 && header_bytes(*v) == given[0]
        },
{
    headers.get(header::CONTENT_TYPE)
}

/// `HeaderValue::to_str`: the value as text where it is printable ASCII and
/// tabs throughout, `None` in place of its error where it is not.
#[verifier::external_body]
fn value_text(value: &HeaderValue) -> (text: Option<&str>)
    ensures
        text is Some <==> is_header_text(header_bytes(*value)),
        text matches Some(t) ==> t@ == ascii_text(header_bytes(*value)),
{
    value.to_str().ok()
}

/// `HeaderMap::new`: a map without any field.
pub assume_specification[ HeaderMap::<HeaderValue>::new ]() -> (fresh: HeaderMap)
    ensures
        header_values(fresh) == no_fields(),
;

/// `HeaderMap::insert` for the `Content-Type` field, on a map without any
/// field, whose growth stays far from the limit past which `insert` panics.
/// `HeaderValue::from_static` turns the text into the value and panics on text
/// that is not printable ASCII or tabs.
#[verifier::external_body]
fn set_content_type(headers: &mut HeaderMap, value: &'static str)
    requires
        header_values(*old(headers)) == no_fields(),
        is_header_text(value.spec_bytes()),
    ensures
        header_values(*final(headers)) == header_values(*old(headers)).insert(
            "content-type"@,
            seq![value.spec_bytes()],
        ),
{
    headers.insert(header::CONTENT_TYPE, HeaderValue::from_static(value));
}

/// The text of the first `Content-Type` field, where there is one and its value
/// is printable.
pub open spec fn content_type_text(fields: Map<Seq<char>, Seq<Seq<u8>>>) -> Option<Seq<char>> {
    if fields.contains_key("content-type"@) && is_header_text(fields["content-type"@][0]) {
        Some(ascii_text(fields["content-type"@][0]))
    } else {
        None
    }
}

/// The text of the first `Content-Type` field; `None` where there is no such
/// field or its value is not printable text.
pub fn content_type(headers: &HeaderMap) -> (text: Option<&str>)
    ensures
        text is Some <==> content_type_text(header_values(*headers)) is Some,
        text matches Some(t) ==> content_type_text(header_values(*headers)) == Some(t@),
{
    match content_type_value(headers) {
        Some(value) => value_text(value),
        None => None,
    }
}

/// The contents of a header map that only says that the body is JSON.
pub open spec fn json_fields() -> Map<Seq<char>, Seq<Seq<u8>>> {
    no_fields().insert("content-type"@, seq!["application/json".spec_bytes()])
}

/// Header fields that only say that the body is JSON.
pub fn json_headers() -> (headers: HeaderMap)
    ensures
        header_values(headers) == json_fields(),
        header_values(headers).dom() == set!["content-type"@],
        header_values(headers)["content-type"@] == seq![encode_utf8("application/json"@)],
{
    let mut headers = HeaderMap::new();
    proof {
        reveal_strlit("application/json");
        assert("application/json".is_ascii());
        is_ascii_spec_bytes("application/json");
    }
    set_content_type(&mut headers, "application/json");
    headers
}

/// Printable means from the space to the tilde, or a tab: the first
/// `Content-Type` value is read as text, byte for byte, exactly where all of
/// it is printable.
pub proof fn law_printable_content_type_is_read_byte_for_byte(
    fields: Map<Seq<char>, Seq<Seq<u8>>>,
    value: Seq<u8>,
)
    requires
        fields.contains_key("content-type"@),
        fields["content-type"@][0] == value,
    ensures
        content_type_text(fields) is Some <==> forall|i: int|
            0 <= i < value.len() ==> 32 <= #[trigger] value[i] <= 126 || value[i] == 9,
        content_type_text(fields) matches Some(t) ==> {
            &&& t.len() == value.len()
            &&& forall|i: int| 0 <= i < value.len() ==> #[trigger] t[i] as int == value[i] as int
        },
{
    if is_header_text(value) {
        assert forall|i: int| 0 <= i < value.len() implies 32 <= #[trigger] value[i] <= 126
            || value[i] == 9 by {
            assert(is_visible_ascii(value[i]));
        }
    }
}

/// Without a `Content-Type` field there is no text to read.
pub proof fn law_missing_content_type_has_no_text(fields: Map<Seq<char>, Seq<Seq<u8>>>)
    requires
        !fields.contains_key("content-type"@),
    ensures
        content_type_text(fields) is None,
{
}

/// The fields that announce JSON are one field with one value.
pub proof fn law_json_fields_hold_one_value()
    ensures
        json_fields().dom() == set!["content-type"@],
        json_fields()["content-type"@] == seq![encode_utf8("application/json"@)],
{
}

} // verus!
