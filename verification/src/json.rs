//! JSON values: what a `serde_json` value holds, and the calls that the catalog makes on it.

use vstd::prelude::*;

use crate::storage::utils::text_less;

verus! {

/// A JSON number. A float is kept as its bits.
pub enum NumberModel {
    /// An integer that is not negative.
    Unsigned(u64),
    /// A negative integer.
    Negative(i64),
    /// The bits of a finite float.
    Float(u64),
}

/// What a JSON value holds.
#[verifier::ext_equal]
pub enum JsonModel {
    /// `null`.
    Null,
    /// A boolean.
    Bool(bool),
    /// A number.
    Number(NumberModel),
    /// A string.
    Text(Seq<char>),
    /// An array.
    Array(Seq<JsonModel>),
    /// An object, by key.
    Object(Map<Seq<char>, JsonModel>),
}

/// The properties of a JSON object, by key.
pub type JsonObject = Map<Seq<char>, JsonModel>;

/// `serde_json::Value`.
#[verifier::external_type_specification]
#[verifier::external_body]
pub struct ExJsonValue(serde_json::Value);

/// `serde_json::Map`.
#[verifier::external_type_specification]
#[verifier::external_body]
#[verifier::reject_recursive_types(K)]
#[verifier::reject_recursive_types(V)]
pub struct ExJsonMap<K, V>(serde_json::Map<K, V>);

/// What a value of `serde_json` holds.
pub uninterp spec fn json_model(v: serde_json::Value) -> JsonModel;

/// What an object map of `serde_json` holds, by key.
pub uninterp spec fn json_entries(
    m: serde_json::Map<String, serde_json::Value>,
) -> Map<Seq<char>, JsonModel>;

/// What `serde_json::from_str` makes of a text: a value, or the text of its error.
pub uninterp spec fn json_parse(text: Seq<char>) -> Result<JsonModel, Seq<char>>;

/// What `serde_json::to_string` writes for a value.
pub uninterp spec fn json_text(m: JsonModel) -> Seq<char>;

/// `serde_json::from_str` reads `m` from the text.
pub open spec fn reads_as(text: Seq<char>, m: JsonModel) -> bool {
    json_parse(text) == Ok::<JsonModel, Seq<char>>(m)
}

/// The bits of the two floats that are zero.
pub open spec fn zero_bits(bits: u64) -> bool {
    bits == 0 || bits == 0x8000_0000_0000_0000
}

/// Numbers that compare equal: alike, or both a float zero.
pub open spec fn same_number(a: NumberModel, b: NumberModel) -> bool {
    match (a, b) {
        (NumberModel::Float(x), NumberModel::Float(y)) => x == y || (zero_bits(x) && zero_bits(y)),
        _ => a == b,
    }
}

/// Values that compare equal: alike in everything but the sign of a float zero.
pub open spec fn same_json(a: JsonModel, b: JsonModel) -> bool
    decreases a,
{
    match (a, b) {
        (JsonModel::Number(x), JsonModel::Number(y)) => same_number(x, y),
        (JsonModel::Array(x), JsonModel::Array(y)) => {
            &&& x.len() == y.len()
            &&& forall|i: int| 0 <= i < x.len() ==> #[trigger] same_json(x[i], y[i])
        },
        (JsonModel::Object(x), JsonModel::Object(y)) => {
            &&& x.dom() == y.dom()
            &&& forall|k: Seq<char>| x.dom().contains(k) ==> #[trigger] same_json(x[k], y[k])
        },
        _ => a == b,
    }
}

/// Objects that compare equal.
pub open spec fn same_object(a: JsonObject, b: JsonObject) -> bool {
    same_json(JsonModel::Object(a), JsonModel::Object(b))
}

/// A value compares equal to itself.
pub proof fn values_equal_themselves(m: JsonModel)
    ensures
        same_json(m, m),
    decreases m,
{
    match m {
        JsonModel::Array(items) => {
            assert forall|i: int| 0 <= i < items.len() implies same_json(
                #[trigger] items[i],
                items[i],
            ) by {
                values_equal_themselves(items[i]);
            }
        },
        JsonModel::Object(entries) => {
            assert forall|k: Seq<char>| entries.dom().contains(k) implies same_json(
                #[trigger] entries[k],
                entries[k],
            ) by {
                values_equal_themselves(entries[k]);
            }
        },
        _ => {},
    }
}

/// The first key of an object, in the order in which `serde_json` writes them, is the one by
/// which it marks raw text.
pub open spec fn marks_raw_text(entries: JsonObject) -> bool {
    &&& entries.dom().contains("$serde_json::private::RawValue"@)
    &&& forall|k: Seq<char>| #[trigger]
        entries.dom().contains(k) ==> k == "$serde_json::private::RawValue"@ || text_less(
            "$serde_json::private::RawValue"@,
            k,
        )
}

/// A value that `serde_json` reads back from the text it writes: no float in it, arrays and
/// objects at most `depth` deep, and no object that `serde_json` takes for raw text.
pub open spec fn plain_json(m: JsonModel, depth: nat) -> bool
    decreases m,
{
    match m {
        JsonModel::Number(n) => !(n is Float),
        JsonModel::Array(items) => depth > 0 && forall|i: int|
            0 <= i < items.len() ==> plain_json(#[trigger] items[i], (depth - 1) as nat),
        JsonModel::Object(entries) => depth > 0 && !marks_raw_text(entries) && forall|
            k: Seq<char>,
        |
            entries.dom().contains(k) ==> plain_json(#[trigger] entries[k], (depth - 1) as nat),
        _ => true,
    }
}

/// `serde_json::Map::new`: an empty object map.
#[verifier::external_body]
pub(crate) fn map_new() -> (r: serde_json::Map<String, serde_json::Value>)
    ensures
        json_entries(r) == JsonObject::empty(),
{
    serde_json::Map::new()
}

/// `Clone` of `serde_json::Map`: another map that holds the same.
#[verifier::external_body]
pub(crate) fn map_clone(m: &serde_json::Map<String, serde_json::Value>) -> (r: serde_json::Map<
    String,
    serde_json::Value,
>)
    ensures
        json_entries(r) == json_entries(*m),
{
    m.clone()
}

/// `serde_json::Map::insert`: the key then has that value.
#[verifier::external_body]
pub(crate) fn map_insert(
    m: &mut serde_json::Map<String, serde_json::Value>,
    key: String,
    value: serde_json::Value,
)
    ensures
        json_entries(*final(m)) == json_entries(*old(m)).insert(key@, json_model(value)),
{
    m.insert(key, value);
}

/// `serde_json::Map::remove`: the key, if it was there, is gone.
#[verifier::external_body]
pub(crate) fn map_remove(m: &mut serde_json::Map<String, serde_json::Value>, key: &str)
    ensures
        json_entries(*final(m)) == json_entries(*old(m)).remove(key@),
{
    m.remove(key);
}

/// `==` of `serde_json::Map`: the same keys with equal values.
#[verifier::external_body]
pub(crate) fn map_eq(
    a: &serde_json::Map<String, serde_json::Value>,
    b: &serde_json::Map<String, serde_json::Value>,
) -> (r: bool)
    ensures
        r == same_object(json_entries(*a), json_entries(*b)),
{
    a == b
}

/// The variant `serde_json::Value::Object`, made from its map.
#[verifier::external_body]
pub(crate) fn value_from_map(m: serde_json::Map<String, serde_json::Value>) -> (r:
    serde_json::Value)
    ensures
        json_model(r) == JsonModel::Object(json_entries(m)),
{
    serde_json::Value::Object(m)
}

/// The map of the variant `serde_json::Value::Object`; nothing of the other variants.
#[verifier::external_body]
pub(crate) fn value_into_map(v: serde_json::Value) -> (r: Option<
    serde_json::Map<String, serde_json::Value>,
>)
    ensures
        match r {
            Some(m) => json_model(v) == JsonModel::Object(json_entries(m)),
            None => !(json_model(v) is Object),
        },
{
    match v {
        serde_json::Value::Object(m) => Some(m),
        _ => None,
    }
}

/// `serde_json::Value::is_object`.
#[verifier::external_body]
pub(crate) fn value_is_object(v: &serde_json::Value) -> (r: bool)
    ensures
        r == (json_model(*v) is Object),
{
    v.is_object()
}

/// `Clone` of `serde_json::Value`: another value that holds the same.
#[verifier::external_body]
pub(crate) fn value_clone(v: &serde_json::Value) -> (r: serde_json::Value)
    ensures
        json_model(r) == json_model(*v),
{
    v.clone()
}

/// `serde_json::from_str` to a `serde_json::Value`. What it accepts and what its errors say is
/// left to the name.
#[verifier::external_body]
pub(crate) fn value_from_str(text: &str) -> (r: Result<serde_json::Value, String>)
    ensures
        match r {
            Ok(v) => json_parse(text@) == Ok::<JsonModel, Seq<char>>(json_model(v)),
            Err(e) => json_parse(text@) == Err::<JsonModel, Seq<char>>(e@),
        },
{
    serde_json::from_str(text).map_err(|e| e.to_string())
}

/// `serde_json::to_string` of a `serde_json::Value`, which never fails: keys are strings and the
/// text goes to memory. The text is left to the name; `serde_json::from_str` reads the same
/// value back from it, unless it holds a float (which may come back changed in its last bit),
/// nests deeper than the reader goes, or has an object whose first key marks raw text.
#[verifier::external_body]
pub(crate) fn value_to_string(v: &serde_json::Value) -> (r: Result<String, String>)
    ensures
        r is Ok,
        r->Ok_0@ == json_text(json_model(*v)),
        plain_json(json_model(*v), 127) ==> reads_as(r->Ok_0@, json_model(*v)),
{
    serde_json::to_string(v).map_err(|e| e.to_string())
}

} // verus!
