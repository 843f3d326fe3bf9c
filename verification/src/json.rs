//! The boundary to `serde_json`: parsing a response body into a
//! `serde_json::Value` and reading that value back out.
//!
//! A `serde_json::Value` is opaque to the verifier, so this module gives it
//! a mathematical model, `JsonData`: the abstract content of a parsed JSON
//! document. `json_model` names that content for a given value, and
//! `json_parse` names the parse result for a given body text; every trusted
//! accessor below states its result over `json_model` exactly as
//! `serde_json`'s source defines it. All record decoding built on these
//! accessors is verified code in `decode`.
use vstd::prelude::*;

verus! {

#[verifier::external_type_specification]
#[verifier::external_body]
pub struct ExValue(serde_json::Value);

/// The abstract content of a JSON document.
///
/// Numbers keep the three shapes `serde_json` distinguishes: an integer
/// that fits `u64`, an integer that fits `i64` but not `u64` (negative),
/// and any other (floating-point) number, whose exact value this crate
/// never reads.
pub enum JsonData {
    Null,
    Bool(bool),
    NumU(u64),
    NumNeg(i64),
    NumOther,
    Text(Seq<char>),
    List(Seq<JsonData>),
    Object(Map<Seq<char>, JsonData>),
}

/// The abstract content of a `serde_json::Value`.
pub uninterp spec fn json_model(v: serde_json::Value) -> JsonData;

/// What `serde_json` parses a given body text into: `None` when the text is
/// not valid JSON, otherwise the content of the parsed document. The result
/// depends on the text alone.
pub uninterp spec fn json_parse(s: Seq<char>) -> Option<JsonData>;

/// The field of a JSON object, when the document is an object and carries
/// that field.
pub open spec fn obj_field(j: JsonData, key: Seq<char>) -> Option<JsonData> {
    match j {
        JsonData::Object(m) => if m.dom().contains(key) {
            Some(m[key])
        } else {
            None
        },
        _ => None,
    }
}

/// The abstract contents of a slice of values, element by element.
pub open spec fn seq_model(s: Seq<serde_json::Value>) -> Seq<JsonData> {
    s.map_values(|v: serde_json::Value| json_model(v))
}

/// Relies on `serde_json::from_str::<Value>`: it returns `Ok` exactly on
/// valid JSON text, and the parsed value's content is a function of the
/// text alone. The `Err` payload is diagnostic text, promised nothing of.
#[verifier::external_body]
pub(crate) fn parse_json(s: &str) -> (r: Result<serde_json::Value, String>)
    ensures
        r is Ok <==> json_parse(s@) is Some,
        r matches Ok(v) ==> Some(json_model(v)) == json_parse(s@),
{
    serde_json::from_str::<serde_json::Value>(s).map_err(|e| e.to_string())
}

/// Relies on `serde_json::Value::get` with a string index: on an object it
/// looks the key up, on anything else it returns `None`.
#[verifier::external_body]
pub(crate) fn value_get<'a>(v: &'a serde_json::Value, key: &str) -> (r: Option<
    &'a serde_json::Value,
>)
    ensures
        obj_field(json_model(*v), key@) is Some ==> r is Some && json_model(*(r->Some_0))
            == obj_field(json_model(*v), key@)->Some_0,
        obj_field(json_model(*v), key@) is None ==> r is None,
{
    v.get(key)
}

/// Relies on `serde_json::Value::as_str`: the borrowed string for a JSON
/// string, `None` for every other shape.
#[verifier::external_body]
pub(crate) fn value_as_str(v: &serde_json::Value) -> (r: Option<&str>)
    ensures
        json_model(*v) matches JsonData::Text(s) ==> r is Some && r->Some_0@ == s,
        !(json_model(*v) is Text) ==> r is None,
{
    v.as_str()
}

/// Relies on `serde_json::Value::as_u64`: `Some` exactly for an integer
/// stored as non-negative.
#[verifier::external_body]
pub(crate) fn value_as_u64(v: &serde_json::Value) -> (r: Option<u64>)
    ensures
        json_model(*v) matches JsonData::NumU(n) ==> r == Some(n),
        !(json_model(*v) is NumU) ==> r is None,
{
    v.as_u64()
}

/// Relies on `serde_json::Value::as_i64`: `Some` for an integer stored as
/// negative, and for a non-negative integer that fits `i64`.
#[verifier::external_body]
pub(crate) fn value_as_i64(v: &serde_json::Value) -> (r: Option<i64>)
    ensures
        json_model(*v) matches JsonData::NumNeg(n) ==> r == Some(n),
        json_model(*v) matches JsonData::NumU(n) ==> r == if n <= i64::MAX as u64 {
            Some(n as i64)
        } else {
            None::<i64>
        },
        !(json_model(*v) is NumU) && !(json_model(*v) is NumNeg) ==> r is None,
{
    v.as_i64()
}

/// Relies on `serde_json::Value::as_array`: the borrowed element vector for
/// a JSON array, `None` for every other shape.
#[verifier::external_body]
pub(crate) fn value_as_array<'a>(v: &'a serde_json::Value) -> (r: Option<
    &'a Vec<serde_json::Value>,
>)
    ensures
        json_model(*v) matches JsonData::List(a) ==> r is Some && seq_model(r->Some_0@) == a,
        !(json_model(*v) is List) ==> r is None,
{
    v.as_array()
}

} // verus!
