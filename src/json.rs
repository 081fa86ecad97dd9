//! JSON documents through serde_json, seen by the verifier as plain values.
use vstd::prelude::*;

verus! {

/// What a JSON document holds. Numbers are either integers or carry a
/// fraction or exponent, whose value this library never reads.
pub enum JsonModel {
    Null,
    Bool(bool),
    Int(int),
    Fraction,
    Text(Seq<char>),
    List(Seq<JsonModel>),
    Object(Map<Seq<char>, JsonModel>),
}

/// The nesting of lists and objects in `m` stays below `depth` levels.
pub open spec fn json_depth_within(m: JsonModel, depth: nat) -> bool
    decreases depth,
{
    depth > 0 && match m {
        JsonModel::List(items) => forall|i: int|
            0 <= i < items.len() ==> #[trigger] json_depth_within(items[i], (depth - 1) as nat),
        JsonModel::Object(fields) => forall|k: Seq<char>|
            fields.contains_key(k) ==> #[trigger] json_depth_within(fields[k], (depth - 1) as nat),
        _ => true,
    }
}

/// An object is within a nesting bound when all its entries are within the
/// bound one level lower.
pub proof fn lemma_object_depth(fields: Map<Seq<char>, JsonModel>, depth: nat)
    requires
        depth > 0,
        forall|k: Seq<char>| fields.contains_key(k) ==> json_depth_within(#[trigger] fields[k], (depth - 1) as nat),
    ensures
        json_depth_within(JsonModel::Object(fields), depth),
{
}

/// The entry `key` of `m`, where `m` is an object that has one.
pub open spec fn json_field(m: JsonModel, key: Seq<char>) -> Option<JsonModel> {
    match m {
        JsonModel::Object(fields) => if fields.contains_key(key) {
            Some(fields[key])
        } else {
            None
        },
        _ => None,
    }
}

/// `m` as text, where it is text.
pub open spec fn json_text_of(m: JsonModel) -> Option<Seq<char>> {
    match m {
        JsonModel::Text(s) => Some(s),
        _ => None,
    }
}

/// `m` as an unsigned 64-bit integer, where it is one.
pub open spec fn json_u64_of(m: JsonModel) -> Option<u64> {
    match m {
        JsonModel::Int(n) => if 0 <= n <= u64::MAX {
            Some(n as u64)
        } else {
            None
        },
        _ => None,
    }
}

/// `m` as a signed 64-bit integer, where it is one.
pub open spec fn json_i64_of(m: JsonModel) -> Option<i64> {
    match m {
        JsonModel::Int(n) => if i64::MIN <= n <= i64::MAX {
            Some(n as i64)
        } else {
            None
        },
        _ => None,
    }
}

#[verifier::external_type_specification]
#[verifier::external_body]
pub struct ExJsonValue(serde_json::Value);

#[verifier::external_type_specification]
#[verifier::external_body]
pub struct ExJsonError(serde_json::Error);

/// What a serde_json value holds.
pub uninterp spec fn json_model(v: serde_json::Value) -> JsonModel;

/// The document that serde_json reads from a text, where the text is one.
pub uninterp spec fn json_parse(text: Seq<char>) -> Option<JsonModel>;

/// Relies on serde_json::from_str into a Value: it succeeds exactly on the
/// texts that are a JSON document, and yields what the text denotes.
#[verifier::external_body]
pub(crate) fn parse_json(text: &str) -> (r: Result<serde_json::Value, serde_json::Error>)
    ensures
        r is Ok <==> json_parse(text@) is Some,
        r is Ok ==> json_parse(text@) == Some(json_model(r->Ok_0)),
{
    serde_json::from_str::<serde_json::Value>(text)
}

/// Relies on serde_json::Error's Display: a message for a failed read.
#[verifier::external_body]
pub(crate) fn json_error_message(e: &serde_json::Error) -> String {
    e.to_string()
}

/// Relies on Value's Display, which writes the value as compact JSON that
/// serde_json reads back as the same document (up to its nesting limit).
#[verifier::external_body]
pub(crate) fn json_to_text(v: &serde_json::Value) -> (r: String)
    ensures
        json_depth_within(json_model(*v), 64) ==> json_parse(r@) == Some(json_model(*v)),
{
    v.to_string()
}

/// Relies on Value::get with a string key: the entry of an object.
#[verifier::external_body]
pub(crate) fn json_member<'a>(v: &'a serde_json::Value, key: &str) -> (r: Option<&'a serde_json::Value>)
    ensures
        r is Some <==> json_field(json_model(*v), key@) is Some,
        r is Some ==> json_field(json_model(*v), key@) == Some(json_model(*r->0)),
{
    v.get(key)
}

/// Relies on Value::as_array: the items of a list, in order.
#[verifier::external_body]
pub(crate) fn json_as_list<'a>(v: &'a serde_json::Value) -> (r: Option<&'a Vec<serde_json::Value>>)
    ensures
        r is Some <==> json_model(*v) is List,
        r is Some ==> r->0@.len() == json_model(*v)->List_0.len() && forall|i: int|
            0 <= i < r->0@.len() ==> json_model(#[trigger] r->0@[i]) == json_model(*v)->List_0[i],
{
    v.as_array()
}

/// Relies on Value::as_str: the text of a string value.
#[verifier::external_body]
pub(crate) fn json_as_text<'a>(v: &'a serde_json::Value) -> (r: Option<&'a str>)
    ensures
        r is Some <==> json_text_of(json_model(*v)) is Some,
        r is Some ==> json_text_of(json_model(*v)) == Some(r->0@),
{
    v.as_str()
}

/// Relies on Value::is_null: whether the value is null.
#[verifier::external_body]
pub(crate) fn json_is_null(v: &serde_json::Value) -> (r: bool)
    ensures
        r == (json_model(*v) is Null),
{
    v.is_null()
}

/// Relies on Value::as_u64: an integer in the range of u64.
#[verifier::external_body]
pub(crate) fn json_as_u64(v: &serde_json::Value) -> (r: Option<u64>)
    ensures
        r == json_u64_of(json_model(*v)),
{
    v.as_u64()
}

/// Relies on Value::as_i64: an integer in the range of i64.
#[verifier::external_body]
pub(crate) fn json_as_i64(v: &serde_json::Value) -> (r: Option<i64>)
    ensures
        r == json_i64_of(json_model(*v)),
{
    v.as_i64()
}

/// Relies on the Value::String variant: a string value.
#[verifier::external_body]
pub(crate) fn json_from_text(s: &str) -> (r: serde_json::Value)
    ensures
        json_model(r) == JsonModel::Text(s@),
{
    serde_json::Value::String(s.to_string())
}

/// Relies on Value's From<u64>: an integer value.
#[verifier::external_body]
pub(crate) fn json_from_u64(n: u64) -> (r: serde_json::Value)
    ensures
        json_model(r) == JsonModel::Int(n as int),
{
    serde_json::Value::from(n)
}

/// Relies on Value's From<i64>: an integer value.
#[verifier::external_body]
pub(crate) fn json_from_i64(n: i64) -> (r: serde_json::Value)
    ensures
        json_model(r) == JsonModel::Int(n as int),
{
    serde_json::Value::from(n)
}

/// Relies on the Value::Array variant around an empty Vec: an empty list.
#[verifier::external_body]
pub(crate) fn json_empty_list() -> (r: serde_json::Value)
    ensures
        json_model(r) == JsonModel::List(Seq::empty()),
{
    serde_json::Value::Array(Vec::new())
}

/// Relies on the Value::Object variant around serde_json::Map::new: an empty object.
#[verifier::external_body]
pub(crate) fn json_empty_object() -> (r: serde_json::Value)
    ensures
        json_model(r) == JsonModel::Object(Map::empty()),
{
    serde_json::Value::Object(serde_json::Map::new())
}

/// Relies on serde_json::Map::insert: the entry `key` of an object is set
/// to `val`, replacing any earlier one.
#[verifier::external_body]
pub(crate) fn json_insert(obj: &mut serde_json::Value, key: &str, val: serde_json::Value)
    requires
        json_model(*old(obj)) is Object,
    ensures
        json_model(*final(obj)) == JsonModel::Object(
            json_model(*old(obj))->Object_0.insert(key@, json_model(val)),
        ),
{
    if let Some(m) = obj.as_object_mut() {
        m.insert(key.to_string(), val);
    }
}

/// Every entry of the object `m` is within the nesting bound `depth`.
pub open spec fn entries_within(m: JsonModel, depth: nat) -> bool {
    forall|k: Seq<char>| m->Object_0.contains_key(k) ==> json_depth_within(#[trigger] m->Object_0[k], depth)
}

/// Sets the entry `key` of the object `obj` to `val`, keeping the nesting bound.
pub(crate) fn object_insert(obj: &mut serde_json::Value, key: &str, val: serde_json::Value, Ghost(depth): Ghost<nat>)
    requires
        json_model(*old(obj)) is Object,
        entries_within(json_model(*old(obj)), depth),
        json_depth_within(json_model(val), depth),
    ensures
        json_model(*final(obj)) == JsonModel::Object(
            json_model(*old(obj))->Object_0.insert(key@, json_model(val)),
        ),
        entries_within(json_model(*final(obj)), depth),
        json_depth_within(json_model(*final(obj)), depth + 1),
{
    let ghost before = json_model(*obj)->Object_0;
    json_insert(obj, key, val);
    let ghost after = before.insert(key@, json_model(val));
    assert forall|k: Seq<char>| #[trigger] after.contains_key(k) implies json_depth_within(after[k], depth) by {
        if k != key@ {
            assert(before.contains_key(k));
        }
    }
    proof {
        lemma_object_depth(after, depth + 1);
    }
}

} // verus!
