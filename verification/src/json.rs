//! JSON documents, built and written by `serde_json`.
//!
//! A [`serde_json::Value`] is modelled by the [`JsonDoc`] that it holds. The functions that make
//! a value or write one are thin layers over `serde_json`; which document is built is decided,
//! and proved, by their callers.

use serde_json::Value;
use vstd::prelude::*;

verus! {

/// What a JSON value holds.
pub enum JsonDoc {
    Null,
    Bool(bool),
    /// A number, by the text in which it is written.
    Number(Seq<char>),
    Text(Seq<char>),
    List(Seq<JsonDoc>),
    Object(Map<Seq<char>, JsonDoc>),
}

/// Declares `serde_json::Value`. What one holds is given by [`json_of`].
#[verifier::external_type_specification]
#[verifier::external_body]
pub struct ExValue(serde_json::Value);

/// The document that `value` holds.
pub uninterp spec fn json_of(value: serde_json::Value) -> JsonDoc;

/// The text in which `serde_json` writes a document, in the compact format.
pub uninterp spec fn json_text(doc: JsonDoc) -> Seq<char>;

/// Whether no two members have the same key.
pub open spec fn distinct_keys(members: Seq<(Seq<char>, JsonDoc)>) -> bool {
    forall|i: int, j: int|
        0 <= i < j < members.len() ==> (#[trigger] members[i]).0 != (#[trigger] members[j]).0
}

/// The object with the given members.
pub open spec fn object_of(members: Seq<(Seq<char>, JsonDoc)>) -> Map<Seq<char>, JsonDoc>
    decreases members.len(),
{
    if members.len() == 0 {
        Map::empty()
    } else {
        object_of(members.drop_last()).insert(members.last().0, members.last().1)
    }
}

/// The keys of `members` with the documents of their values.
pub open spec fn member_docs(members: Seq<(String, Value)>) -> Seq<(Seq<char>, JsonDoc)> {
    members.map_values(|m: (String, Value)| (m.0@, json_of(m.1)))
}

/// A string or, where there is none, null.
pub open spec fn optional_doc(text: Option<Seq<char>>) -> JsonDoc {
    match text {
        Some(t) => JsonDoc::Text(t),
        None => JsonDoc::Null,
    }
}

/// `serde_json`'s `From<bool> for Value`: the JSON boolean.
#[verifier::external_body]
pub(crate) fn bool_value(flag: bool) -> (value: Value)
    ensures
        json_of(value) == JsonDoc::Bool(flag),
{
    Value::from(flag)
}

/// `serde_json`'s `From<&str> for Value`: a JSON string with the characters of `text`.
#[verifier::external_body]
pub(crate) fn text_value(text: &str) -> (value: Value)
    ensures
        json_of(value) == JsonDoc::Text(text@),
{
    Value::from(text)
}

/// `serde_json`'s `From<Option<T>> for Value`: null for `None`, else the value itself.
#[verifier::external_body]
pub(crate) fn optional_value(inner: Option<Value>) -> (value: Value)
    ensures
        json_of(value) == (match inner {
            Some(v) => json_of(v),
            None => JsonDoc::Null,
        }),
{
    Value::from(inner)
}

/// `serde_json`'s `From<Vec<T>> for Value`: a JSON array of the items, in their order.
#[verifier::external_body]
pub(crate) fn list_value(items: Vec<Value>) -> (value: Value)
    ensures
        json_of(value) == JsonDoc::List(items@.map_values(|v: Value| json_of(v))),
{
    Value::from(items)
}

/// `serde_json`'s `FromIterator<(K, V)> for Value`: a JSON object of the members. Which of two members
/// with one key stays is not said, so the keys have to differ.
#[verifier::external_body]
pub(crate) fn object_value(members: Vec<(String, Value)>) -> (value: Value)
    requires
        distinct_keys(member_docs(members@)),
    ensures
        json_of(value) == JsonDoc::Object(object_of(member_docs(members@))),
{
    Value::from_iter(members)
}

/// `serde_json`'s `Display for Value`: the compact JSON text. An object's members are held in a
/// `BTreeMap`, so the text depends on the document alone. It holds no line break: the compact format
/// puts none between the parts of a document, and in strings control characters are escaped.
#[verifier::external_body]
pub(crate) fn value_text(value: &Value) -> (text: String)
    ensures
        text@ == json_text(json_of(*value)),
        !text@.contains('\n'),
{
    value.to_string()
}

/// The JSON of an optional string: the string, or null.
pub fn optional_text_value(text: Option<&str>) -> (value: Value)
    ensures
        json_of(value) == optional_doc(text.deep_view()),
{
    match text {
        Some(t) => optional_value(Some(text_value(t))),
        None => optional_value(None),
    }
}

/// What a request that succeeded is answered.
pub open spec fn success_doc(data: JsonDoc) -> JsonDoc {
    JsonDoc::Object(map!["success"@ => JsonDoc::Bool(true), "data"@ => data])
}

/// What a request that failed is answered.
pub open spec fn failure_doc(error: Seq<char>) -> JsonDoc {
    JsonDoc::Object(map!["success"@ => JsonDoc::Bool(false), "error"@ => JsonDoc::Text(error)])
}

/// An object with two members.
pub(crate) fn pair_value(key1: &str, value1: Value, key2: &str, value2: Value) -> (value: Value)
    requires
        key1@ != key2@,
    ensures
        json_of(value) == JsonDoc::Object(map![key1@ => json_of(value1), key2@ => json_of(value2)]),
{
    let members: Vec<(String, Value)> = vec![(key1.to_string(), value1), (key2.to_string(), value2)];
    proof {
        let docs = member_docs(members@);
        assert(docs =~= seq![(key1@, json_of(value1)), (key2@, json_of(value2))]);
        assert(docs.drop_last() =~= seq![(key1@, json_of(value1))]);
        assert(docs.drop_last().drop_last() =~= Seq::<(Seq<char>, JsonDoc)>::empty());
        reveal_with_fuel(object_of, 3);
    }
    object_value(members)
}

/// The line that answers a request that succeeded with `data`.
pub fn success_line(data: Value) -> (line: String)
    ensures
        line@ == json_text(success_doc(json_of(data))),
        !line@.contains('\n'),
{
    proof {
        reveal_strlit("success");
        reveal_strlit("data");
        assert("success"@.len() != "data"@.len());
    }
    value_text(&pair_value("success", bool_value(true), "data", data))
}

/// The line that answers a request that failed with `error`.
pub fn failure_line(error: &str) -> (line: String)
    ensures
        line@ == json_text(failure_doc(error@)),
        !line@.contains('\n'),
{
    proof {
        reveal_strlit("success");
        reveal_strlit("error");
        assert("success"@.len() != "error"@.len());
    }
    value_text(&pair_value("success", bool_value(false), "error", text_value(error)))
}

} // verus!
