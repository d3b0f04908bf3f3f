//! JSON text through `serde_json`.
//!
//! Documents are built out of `serde_json` values and written by that crate.
//! What a value holds is stated as plain [`JsonData`]; how a document is spelled
//! is `serde_json`'s business, and is only named here.
use crate::text::one_place;
use serde_json::Value;
use vstd::prelude::*;

verus! {

/// What a JSON value holds.
pub ghost enum JsonData {
    Null,
    Text(Seq<char>),
    /// An unsigned integer.
    Count(nat),
    Flag(bool),
    /// Any other number, by its text.
    Decimal(Seq<char>),
    List(Seq<JsonData>),
    Object(Map<Seq<char>, JsonData>),
}

#[verifier::external_type_specification]
#[verifier::external_body]
pub struct ExValue(serde_json::Value);

#[verifier::external_type_specification]
#[verifier::external_body]
#[verifier::reject_recursive_types(K)]
#[verifier::reject_recursive_types(V)]
pub struct ExJsonMap<K, V>(serde_json::Map<K, V>);

/// What a `serde_json::Value` holds.
pub uninterp spec fn content(value: serde_json::Value) -> JsonData;

/// What a `serde_json::Map` holds.
pub uninterp spec fn fields(object: serde_json::Map<String, serde_json::Value>) -> Map<
    Seq<char>,
    JsonData,
>;

/// The compact text that `serde_json` writes for a document.
pub uninterp spec fn json_text(data: JsonData) -> Seq<char>;

/// An object without fields.
pub open spec fn no_fields() -> Map<Seq<char>, JsonData> {
    Map::empty()
}

/// The text is a number of tenths written with one decimal place.
pub open spec fn is_one_place(s: Seq<char>) -> bool {
    exists|t: u32| s == #[trigger] one_place(t as nat)
}

/// `Value::from` on a string slice: a JSON string of the same characters.
#[verifier::external_body]
pub(crate) fn text_value(s: &str) -> (value: Value)
    ensures
        content(value) == JsonData::Text(s@),
{
    Value::from(s)
}

/// `Value::from` on an unsigned integer: that number.
#[verifier::external_body]
pub(crate) fn count_value(n: u64) -> (value: Value)
    ensures
        content(value) == JsonData::Count(n as nat),
{
    Value::from(n)
}

/// `Value::from` on a boolean: that boolean.
#[verifier::external_body]
pub(crate) fn flag_value(b: bool) -> (value: Value)
    ensures
        content(value) == JsonData::Flag(b),
{
    Value::from(b)
}

/// `serde_json::from_str` on a number with one decimal place: the number that
/// the text spells. Such a text is valid JSON, so that the call does not fail.
#[verifier::external_body]
pub(crate) fn decimal_value(text: &str) -> (value: Value)
    requires
        is_one_place(text@),
    ensures
        content(value) == JsonData::Decimal(text@),
{
    serde_json::from_str(text).unwrap()
}

/// `Value::from` on a vector: a JSON array of the same values in the same order.
#[verifier::external_body]
pub(crate) fn list_value(items: Vec<Value>) -> (value: Value)
    ensures
        content(value) == JsonData::List(items@.map_values(|item: Value| content(item))),
{
    Value::from(items)
}

/// `serde_json::Map::new`: an object without fields.
#[verifier::external_body]
pub(crate) fn new_object() -> (object: serde_json::Map<String, Value>)
    ensures
        fields(object) == no_fields(),
{
    serde_json::Map::new()
}

/// `serde_json::Map::insert`: sets the field, and leaves the others alone.
#[verifier::external_body]
pub(crate) fn set_field(object: &mut serde_json::Map<String, Value>, key: &str, value: Value)
    ensures
        fields(*final(object)) == fields(*old(object)).insert(key@, content(value)),
{
    object.insert(key.to_owned(), value);
}

/// `Value::from` on a map: a JSON object with those fields.
#[verifier::external_body]
pub(crate) fn object_value(object: serde_json::Map<String, Value>) -> (value: Value)
    ensures
        content(value) == JsonData::Object(fields(object)),
{
    Value::from(object)
}

/// `Value::to_string`: the document in compact form. Object fields are written in
/// the order of their keys, so that the text depends on nothing but what the
/// value holds; the spelling itself is left unsaid.
#[verifier::external_body]
pub(crate) fn render(value: &Value) -> (text: String)
    ensures
        text@ == json_text(content(*value)),
{
    value.to_string()
}

} // verus!
