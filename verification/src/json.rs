//! JSON documents, built with `serde_json` and described by a model of their own.

use serde_json::Value;
use vstd::prelude::*;
use vstd::string::StringExecFns;

verus! {

/// A JSON document as contracts see it.
pub enum Json {
    Null,
    Bool(bool),
    Number(int),
    Text(Seq<char>),
    Array(Seq<Json>),
    Object(Map<Seq<char>, Json>),
}

/// `serde_json::Value`, which holds one JSON document.
#[verifier::external_type_specification]
#[verifier::external_body]
pub struct ExValue(Value);

/// The document that a `serde_json::Value` holds.
pub uninterp spec fn json_model(v: Value) -> Json;

/// The documents that a sequence of values holds, in order.
pub open spec fn json_models(items: Seq<Value>) -> Seq<Json> {
    Seq::new(items.len(), |i: int| json_model(items[i]))
}

/// The members that a list of keyed values describes. Where a key occurs twice
/// the later value stands.
pub open spec fn json_members(pairs: Seq<(String, Value)>) -> Map<Seq<char>, Json>
    decreases pairs.len(),
{
    if pairs.len() == 0 {
        Map::empty()
    } else {
        json_members(pairs.drop_last()).insert(pairs.last().0@, json_model(pairs.last().1))
    }
}

/// No key occurs twice in `pairs`.
pub open spec fn distinct_keys(pairs: Seq<(String, Value)>) -> bool {
    forall|i: int, j: int| 0 <= i < j < pairs.len() ==> (#[trigger] pairs[i]).0@ != (#[trigger] pairs[j]).0@
}

/// A JSON array of strings.
pub open spec fn json_texts(texts: Seq<Seq<char>>) -> Json {
    Json::Array(Seq::new(texts.len(), |i: int| Json::Text(texts[i])))
}

/// The object with the one member `key`.
pub open spec fn object1(key: Seq<char>, value: Json) -> Json {
    Json::Object(Map::<Seq<char>, Json>::empty().insert(key, value))
}

/// The object with the two members `k1` and `k2`.
pub open spec fn object2(k1: Seq<char>, v1: Json, k2: Seq<char>, v2: Json) -> Json {
    Json::Object(Map::<Seq<char>, Json>::empty().insert(k1, v1).insert(k2, v2))
}

/// The object with the three members `k1`, `k2` and `k3`.
pub open spec fn object3(
    k1: Seq<char>,
    v1: Json,
    k2: Seq<char>,
    v2: Json,
    k3: Seq<char>,
    v3: Json,
) -> Json {
    Json::Object(Map::<Seq<char>, Json>::empty().insert(k1, v1).insert(k2, v2).insert(k3, v3))
}

/// Wraps the variant `serde_json::Value::String`: the result is the JSON string
/// that has the characters of `s`.
#[verifier::external_body]
pub(crate) fn json_text(s: String) -> (v: Value)
    ensures
        json_model(v) == Json::Text(s@),
{
    Value::String(s)
}

/// Wraps `serde_json::Value::from` for `u64`: the result is the JSON number `n`.
#[verifier::external_body]
pub(crate) fn json_number(n: u64) -> (v: Value)
    ensures
        json_model(v) == Json::Number(n as int),
{
    Value::from(n)
}

/// Wraps the variant `serde_json::Value::Array`: the result is the JSON array of
/// the given values, in their order.
#[verifier::external_body]
pub(crate) fn json_array(items: Vec<Value>) -> (v: Value)
    ensures
        json_model(v) == Json::Array(json_models(items@)),
{
    Value::Array(items)
}

/// Wraps `serde_json::Value::from_iter` for keyed values: the result is the JSON
/// object that has each key of `pairs` with its value, and no other member.
/// No key may occur twice: which of two values would stay is not promised.
#[verifier::external_body]
pub(crate) fn json_object(pairs: Vec<(String, Value)>) -> (v: Value)
    requires
        distinct_keys(pairs@),
    ensures
        json_model(v) == Json::Object(json_members(pairs@)),
{
    Value::from_iter(pairs)
}

proof fn lemma_members_push(pairs: Seq<(String, Value)>, key: String, value: Value)
    ensures
        json_members(pairs.push((key, value))) == json_members(pairs).insert(
            key@,
            json_model(value),
        ),
{
    assert(pairs.push((key, value)).drop_last() =~= pairs);
}

/// The JSON array of the given lines.
pub(crate) fn json_lines(lines: &Vec<String>) -> (v: Value)
    ensures
        json_model(v) == json_texts(crate::response::texts(lines@)),
{
    let mut items: Vec<Value> = Vec::new();
    let mut i: usize = 0;
    while i < lines.len()
        invariant
            i <= lines.len(),
            items.len() == i,
            forall|k: int| 0 <= k < i ==> json_model(#[trigger] items@[k]) == Json::Text(lines@[k]@),
        decreases lines.len() - i,
    {
        items.push(json_text(lines[i].clone()));
        i += 1;
    }
    let v = json_array(items);
    assert(json_models(items@) =~= Seq::new(
        lines@.len(),
        |k: int| Json::Text(crate::response::texts(lines@)[k]),
    ));
    v
}

/// The JSON object with one member.
pub(crate) fn json_object1(key: &str, value: Value) -> (v: Value)
    ensures
        json_model(v) == object1(key@, json_model(value)),
{
    let mut pairs: Vec<(String, Value)> = Vec::new();
    let key = String::from_str(key);
    proof {
        lemma_members_push(pairs@, key, value);
    }
    pairs.push((key, value));
    json_object(pairs)
}

/// The JSON object with two members.
pub(crate) fn json_object2(k1: &str, v1: Value, k2: &str, v2: Value) -> (v: Value)
    requires
        k1@ != k2@,
    ensures
        json_model(v) == object2(k1@, json_model(v1), k2@, json_model(v2)),
{
    let mut pairs: Vec<(String, Value)> = Vec::new();
    let key1 = String::from_str(k1);
    let key2 = String::from_str(k2);
    proof {
        lemma_members_push(pairs@, key1, v1);
        lemma_members_push(pairs@.push((key1, v1)), key2, v2);
    }
    pairs.push((key1, v1));
    pairs.push((key2, v2));
    json_object(pairs)
}

/// The JSON object with three members.
pub(crate) fn json_object3(k1: &str, v1: Value, k2: &str, v2: Value, k3: &str, v3: Value) -> (v: Value)
    requires
        k1@ != k2@,
        k1@ != k3@,
        k2@ != k3@,
    ensures
        json_model(v) == object3(k1@, json_model(v1), k2@, json_model(v2), k3@, json_model(v3)),
{
    let mut pairs: Vec<(String, Value)> = Vec::new();
    let key1 = String::from_str(k1);
    let key2 = String::from_str(k2);
    let key3 = String::from_str(k3);
    proof {
        lemma_members_push(pairs@, key1, v1);
        lemma_members_push(pairs@.push((key1, v1)), key2, v2);
        lemma_members_push(pairs@.push((key1, v1)).push((key2, v2)), key3, v3);
    }
    pairs.push((key1, v1));
    pairs.push((key2, v2));
    pairs.push((key3, v3));
    json_object(pairs)
}

} // verus!
