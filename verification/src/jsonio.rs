//! The trusted boundary around serde_json.  The gateway reads events out
//! of JSON documents; parsing the document and probing a parsed value are
//! the only operations taken on trust, each behind one small wrapper.
//! Every result depends on the document text or the probed value alone,
//! so each carries a name that the wrapper's contract ties it to; what
//! the gateway decides from these results is decided by verified code.

use vstd::prelude::*;

verus! {

use vstd::string::StringSliceAdditionalSpecFns;

#[verifier::external_type_specification]
#[verifier::external_body]
pub struct ExValue(serde_json::Value);

/// Whether a text is a well-formed JSON document; serde_json decides this
/// from the text alone.
pub uninterp spec fn json_doc_parses(s: Seq<u8>) -> bool;

/// The document a well-formed text parses to.
pub uninterp spec fn json_doc_of(s: Seq<u8>) -> serde_json::Value;

/// Relies on serde_json::from_str::<Value>: it returns Ok exactly on
/// well-formed JSON text, and the parsed document depends on the text
/// alone.
#[verifier::external_body]
pub(crate) fn json_parse(s: &str) -> (r: Option<serde_json::Value>)
    ensures
        r is Some <==> json_doc_parses(s.spec_bytes()),
        r matches Some(v) ==> v == json_doc_of(s.spec_bytes()),
{
    serde_json::from_str::<serde_json::Value>(s).ok()
}

/// The elements of a value that is an array, in order.
pub uninterp spec fn json_array_elems(v: serde_json::Value) -> Option<Seq<serde_json::Value>>;

/// Relies on serde_json::Value::as_array: Some exactly when the value is
/// an array, with the array's elements in order; the result depends on
/// the value alone.
#[verifier::external_body]
pub(crate) fn json_as_array<'a>(v: &'a serde_json::Value) -> (r: Option<&'a Vec<serde_json::Value>>)
    ensures
        match r {
            Some(a) => json_array_elems(*v) == Some(a@),
            None => json_array_elems(*v) is None,
        },
{
    v.as_array()
}

/// Whether a value is an object.
pub uninterp spec fn json_value_is_object(v: serde_json::Value) -> bool;

/// Relies on serde_json::Value::is_object; the result depends on the
/// value alone.
#[verifier::external_body]
pub(crate) fn json_is_object(v: &serde_json::Value) -> (r: bool)
    ensures
        r == json_value_is_object(*v),
{
    v.is_object()
}

/// The field a key selects in a value that is an object carrying it.
pub uninterp spec fn json_field_of(v: serde_json::Value, key: Seq<char>) -> Option<
    serde_json::Value,
>;

/// Relies on serde_json::Value::get with a string key: Some exactly when
/// the value is an object carrying that key; the result depends on the
/// value and the key alone.
#[verifier::external_body]
pub(crate) fn json_get<'a>(v: &'a serde_json::Value, key: &str) -> (r: Option<
    &'a serde_json::Value,
>)
    ensures
        match r {
            Some(f) => json_field_of(*v, key@) == Some(*f),
            None => json_field_of(*v, key@) is None,
        },
{
    v.get(key)
}

/// The integer a value holds, when it is one representable as u64.
pub uninterp spec fn json_u64_of(v: serde_json::Value) -> Option<u64>;

/// Relies on serde_json::Value::as_u64: Some exactly when the value is an
/// integer representable as u64; the result depends on the value alone.
#[verifier::external_body]
pub(crate) fn json_as_u64(v: &serde_json::Value) -> (r: Option<u64>)
    ensures
        r == json_u64_of(*v),
{
    v.as_u64()
}

/// The UTF-8 bytes of a value that is a string.
pub uninterp spec fn json_str_of(v: serde_json::Value) -> Option<Seq<u8>>;

/// Relies on serde_json::Value::as_str: Some exactly when the value is a
/// string; the result depends on the value alone.
#[verifier::external_body]
pub(crate) fn json_as_str<'a>(v: &'a serde_json::Value) -> (r: Option<&'a str>)
    ensures
        match r {
            Some(t) => json_str_of(*v) == Some(t.spec_bytes()),
            None => json_str_of(*v) is None,
        },
{
    v.as_str()
}

} // verus!
