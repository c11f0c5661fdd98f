//! JSON documents as the protocol reads and writes them.
//!
//! Text is turned into a [`Json`] tree and back by serde_json; everything the
//! protocol decides about a document is done on the tree, in verified code.
use vstd::prelude::*;
use vstd::string::StringExecFns;

verus! {

#[verifier::external_type_specification]
#[verifier::external_body]
pub struct ExNumber(serde_json::Number);

#[verifier::external_type_specification]
#[verifier::external_body]
pub struct ExValue(serde_json::Value);

/// A JSON value. Numbers are carried through untouched; an object is a list of
/// (key, value) pairs, in the order the tree holds them. On the wire serde_json
/// writes an object's members sorted by key, and keeps only the last member of
/// a repeated name.
#[derive(Debug, PartialEq)]
pub enum Json {
    Null,
    Bool(bool),
    Number(serde_json::Number),
    Str(String),
    Array(Vec<Json>),
    Object(Vec<(String, Json)>),
}

/// The document that serde_json parses out of `text`, if it is JSON at all.
pub uninterp spec fn parsed_json(text: Seq<char>) -> Option<Json>;

/// The bytes that serde_json writes for `doc`.
pub uninterp spec fn rendered_json(doc: Json) -> Seq<u8>;

/// Relies on serde_json::from_str (into serde_json::Value): the parse depends on
/// the text alone and fails on text that is not one JSON document.
#[verifier::external_body]
pub(crate) fn parse_json(text: &str) -> (r: Option<Json>)
    ensures
        r == parsed_json(text@),
{
    serde_json::from_str::<serde_json::Value>(text).ok().map(json_from_value)
}

/// Relies on serde_json::to_vec (of serde_json::Value): the bytes depend on the
/// document alone, and writing a `Value` into a `Vec` does not fail (its map
/// keys are strings, and a `Vec` writer takes every byte).
#[verifier::external_body]
pub(crate) fn render_json(doc: Json) -> (r: Option<Vec<u8>>)
    ensures
        r is Some,
        r matches Some(b) ==> b@ == rendered_json(doc),
{
    serde_json::to_vec(&value_from_json(doc)).ok()
}

/// Moves a serde_json value into the tree, variant for variant.
#[verifier::external_body]
fn json_from_value(v: serde_json::Value) -> Json {
    match v {
        serde_json::Value::Null => Json::Null,
        serde_json::Value::Bool(b) => Json::Bool(b),
        serde_json::Value::Number(n) => Json::Number(n),
        serde_json::Value::String(s) => Json::Str(s),
        serde_json::Value::Array(a) => Json::Array(a.into_iter().map(json_from_value).collect()),
        serde_json::Value::Object(m) => Json::Object(
            m.into_iter().map(|(k, v)| (k, json_from_value(v))).collect(),
        ),
    }
}

/// Moves the tree into a serde_json value, variant for variant.
#[verifier::external_body]
fn value_from_json(j: Json) -> serde_json::Value {
    match j {
        Json::Null => serde_json::Value::Null,
        Json::Bool(b) => serde_json::Value::Bool(b),
        Json::Number(n) => serde_json::Value::Number(n),
        Json::Str(s) => serde_json::Value::String(s),
        Json::Array(a) => serde_json::Value::Array(a.into_iter().map(value_from_json).collect()),
        Json::Object(m) => serde_json::Value::Object(
            m.into_iter().map(|(k, v)| (k, value_from_json(v))).collect(),
        ),
    }
}

/// Position of the first member named `key`, or `fields.len()` when there is none.
pub open spec fn key_index(fields: Seq<(String, Json)>, key: Seq<char>) -> int
    decreases fields.len(),
{
    if fields.len() == 0 {
        0
    } else if fields[0].0@ == key {
        0
    } else {
        1 + key_index(fields.drop_first(), key)
    }
}

/// The value of the first member named `key`.
pub open spec fn field_of(fields: Seq<(String, Json)>, key: Seq<char>) -> Option<Json> {
    let i = key_index(fields, key);
    if i < fields.len() {
        Some(fields[i].1)
    } else {
        None
    }
}

/// The member `key` of an object; nothing for any other value.
pub open spec fn member(j: Json, key: Seq<char>) -> Option<Json> {
    match j {
        Json::Object(fields) => field_of(fields@, key),
        _ => None,
    }
}

/// The string held by a present string value.
pub open spec fn str_of(j: Option<Json>) -> Option<String> {
    match j {
        Some(Json::Str(s)) => Some(s),
        _ => None,
    }
}

/// `j` is an object whose members carry exactly the names `keys`, in that order.
pub open spec fn has_keys(j: Json, keys: Seq<Seq<char>>) -> bool {
    match j {
        Json::Object(fields) => fields@.len() == keys.len() && forall|i: int|
            0 <= i < keys.len() ==> #[trigger] fields@[i].0@ == keys[i],
        _ => false,
    }
}

/// The value of the `i`-th member of an object.
pub open spec fn value_at(j: Json, i: int) -> Json {
    match j {
        Json::Object(fields) => fields@[i].1,
        _ => Json::Null,
    }
}

pub proof fn lemma_key_index_bounds(fields: Seq<(String, Json)>, key: Seq<char>)
    ensures
        0 <= key_index(fields, key) <= fields.len(),
        forall|j: int| 0 <= j < key_index(fields, key) ==> fields[j].0@ != key,
        key_index(fields, key) < fields.len() ==> fields[key_index(fields, key)].0@ == key,
    decreases fields.len(),
{
    if fields.len() > 0 && fields[0].0@ != key {
        lemma_key_index_bounds(fields.drop_first(), key);
        assert forall|j: int| 0 <= j < key_index(fields, key) implies fields[j].0@ != key by {
            if j > 0 {
                assert(fields[j] == fields.drop_first()[j - 1]);
            }
        }
    }
}

/// The first position whose key matches is the one `key_index` names.
pub proof fn lemma_key_index_is(fields: Seq<(String, Json)>, key: Seq<char>, i: int)
    requires
        0 <= i <= fields.len(),
        forall|j: int| 0 <= j < i ==> fields[j].0@ != key,
        i < fields.len() ==> fields[i].0@ == key,
    ensures
        key_index(fields, key) == i,
    decreases fields.len(),
{
    if fields.len() > 0 && i > 0 {
        assert forall|j: int| 0 <= j < i - 1 implies fields.drop_first()[j].0@ != key by {
            assert(fields.drop_first()[j] == fields[j + 1]);
        }
        lemma_key_index_is(fields.drop_first(), key, i - 1);
    }
}

/// Removing the first member named `gone` leaves every other name's lookup as it was.
pub proof fn lemma_field_of_after_remove(fields: Seq<(String, Json)>, gone: Seq<char>, key: Seq<char>)
    requires
        key_index(fields, gone) < fields.len(),
        gone != key,
    ensures
        field_of(fields.remove(key_index(fields, gone)), key) == field_of(fields, key),
{
    let g = key_index(fields, gone);
    let rest = fields.remove(g);
    lemma_key_index_bounds(fields, gone);
    lemma_key_index_bounds(fields, key);
    let k = key_index(fields, key);
    if k < g {
        assert forall|j: int| 0 <= j < k implies rest[j].0@ != key by {
            assert(rest[j] == fields[j]);
        }
        assert(rest[k] == fields[k]);
        lemma_key_index_is(rest, key, k);
    } else {
        assert(k != g);
        assert forall|j: int| 0 <= j < k - 1 implies rest[j].0@ != key by {
            if j < g {
                assert(rest[j] == fields[j]);
            } else {
                assert(rest[j] == fields[j + 1]);
            }
        }
        if k < fields.len() {
            assert(rest[k - 1] == fields[k]);
        }
        lemma_key_index_is(rest, key, k - 1);
    }
}

/// An owned string with the characters of `s`.
pub(crate) fn text(s: &str) -> (r: String)
    ensures
        r@ == s@,
{
    String::from_str(s)
}

/// Moves the first member named `key` out of `fields`.
pub(crate) fn take_field(fields: &mut Vec<(String, Json)>, key: &str) -> (r: Option<Json>)
    ensures
        r == field_of(old(fields)@, key@),
        key_index(old(fields)@, key@) < old(fields)@.len() ==> final(fields)@ == old(fields)@.remove(
            key_index(old(fields)@, key@),
        ),
        key_index(old(fields)@, key@) == old(fields)@.len() ==> final(fields)@ == old(fields)@,
{
    let name = text(key);
    let mut i: usize = 0;
    while i < fields.len()
        invariant
            0 <= i <= fields@.len(),
            fields@ == old(fields)@,
            name@ == key@,
            forall|j: int| 0 <= j < i ==> fields@[j].0@ != key@,
        decreases fields@.len() - i,
    {
        if fields[i].0 == name {
            proof {
                lemma_key_index_is(fields@, key@, i as int);
            }
            let (_, value) = fields.remove(i);
            return Some(value);
        }
        i = i + 1;
    }
    proof {
        lemma_key_index_is(fields@, key@, i as int);
    }
    None
}

} // verus!
