//! JSON text, read and written by `serde_json`.

use serde_json::Value;
use vstd::prelude::*;

verus! {

/// A JSON value of `serde_json`.
#[verifier::external_type_specification]
#[verifier::external_body]
pub struct ExValue(serde_json::Value);

/// A JSON value, as far as this crate looks into one.
pub enum Json {
    /// An object: for each member name the value held under it.
    Object(Map<Seq<char>, Json>),
    /// A string.
    Text(Seq<char>),
    /// A null, a boolean, a number or an array.
    Other,
}

/// What a `serde_json` value holds.
pub uninterp spec fn json_content(value: Value) -> Json;

/// The value that `serde_json` reads from `bytes`; `None` where it refuses them.
pub uninterp spec fn json_document(bytes: Seq<u8>) -> Option<Json>;

/// `serde_json::from_slice`: the value that the whole of `bytes` spells out,
/// `None` in place of its error.
#[verifier::external_body]
pub(crate) fn read_document(bytes: &[u8]) -> (document: Option<Value>)
    ensures
        document is Some <==> json_document(bytes@) is Some,
        document matches Some(value) ==> json_document(bytes@) == Some(json_content(value)),
{
    serde_json::from_slice(bytes).ok()
}

/// `Value::get` with a member name: the value that an object holds under
/// `name`, `None` on an object without that member and on anything else.
#[verifier::external_body]
pub(crate) fn member<'a>(value: &'a Value, name: &str) -> (held: Option<&'a Value>)
    ensures
        held is Some <==> (json_content(*value) matches Json::Object(members)
            && members.contains_key(name@)),
        held matches Some(inner) ==> json_content(*value)->Object_0[name@] == json_content(*inner),
{
    value.get(name)
}

/// `Value::as_str`: the text of a string, `None` on anything else.
pub assume_specification[ Value::as_str ](value: &Value) -> (held: Option<&str>)
    ensures
        held is Some <==> json_content(*value) is Text,
        held matches Some(t) ==> json_content(*value) == Json::Text(t@),
;

} // verus!
