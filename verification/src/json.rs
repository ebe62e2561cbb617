//! JSON documents as plain values, read and written by `serde_json`.

use crate::model::views;
use crate::text::same;
use serde_json::{Number, Value};
use vstd::prelude::*;
use vstd::string::StringExecFns;

verus! {

/// A JSON document as a mathematical value.
pub enum JsonValue {
    Null,
    Bool(bool),
    /// A number, in its JSON text.
    Number(Seq<char>),
    Text(Seq<char>),
    Array(Seq<JsonValue>),
    /// The members of an object, each a key and a value, in their order.
    Object(Seq<(Seq<char>, JsonValue)>),
}

/// A JSON document.
#[derive(Debug, PartialEq, Eq)]
pub enum Json {
    Null,
    Bool(bool),
    /// A number, in its JSON text.
    Number(String),
    Text(String),
    Array(Vec<Json>),
    /// The members of an object, each a key and a value, in their order.
    Object(Vec<(String, Json)>),
}

/// The document that a `Json` holds.
pub open spec fn document(j: Json) -> JsonValue
    decreases j,
{
    match j {
        Json::Null => JsonValue::Null,
        Json::Bool(b) => JsonValue::Bool(b),
        Json::Number(t) => JsonValue::Number(t@),
        Json::Text(t) => JsonValue::Text(t@),
        Json::Array(items) => JsonValue::Array(
            Seq::new(
                items@.len(),
                |i: int|
                    if 0 <= i < items@.len() {
                        document(items@[i])
                    } else {
                        JsonValue::Null
                    },
            ),
        ),
        Json::Object(members) => JsonValue::Object(
            Seq::new(
                members@.len(),
                |i: int|
                    if 0 <= i < members@.len() {
                        (members@[i].0@, document(members@[i].1))
                    } else {
                        (Seq::empty(), JsonValue::Null)
                    },
            ),
        ),
    }
}

impl View for Json {
    type V = JsonValue;

    open spec fn view(&self) -> JsonValue {
        document(*self)
    }
}

impl Clone for Json {
    /// A copy of the document.
    fn clone(&self) -> (copy: Json)
        ensures
            copy@ == self@,
        decreases self,
    {
        match self {
            Json::Null => Json::Null,
            Json::Bool(b) => Json::Bool(*b),
            Json::Number(t) => Json::Number(t.clone()),
            Json::Text(t) => Json::Text(t.clone()),
            Json::Array(items) => {
                let mut copies: Vec<Json> = Vec::new();
                let mut i: usize = 0;
                while i < items.len()
                    invariant
                        *self == Json::Array(*items),
                        i <= items.len(),
                        copies.len() == i,
                        forall|k: int| 0 <= k < i ==> copies@[k]@ == items@[k]@,
                    decreases items.len() - i,
                {
                    assert(decreases_to!(*self => self->Array_0));
                    copies.push(items[i].clone());
                    i += 1;
                }
                let copy = Json::Array(copies);
                assert(copy@->Array_0 =~= self@->Array_0);
                copy
            },
            Json::Object(members) => {
                let mut copies: Vec<(String, Json)> = Vec::new();
                let mut i: usize = 0;
                while i < members.len()
                    invariant
                        *self == Json::Object(*members),
                        i <= members.len(),
                        copies.len() == i,
                        forall|k: int|
                            0 <= k < i ==> copies@[k].0@ == members@[k].0@ && copies@[k].1@
                                == members@[k].1@,
                    decreases members.len() - i,
                {
                    assert(decreases_to!(*self => self->Object_0));
                    copies.push((members[i].0.clone(), members[i].1.clone()));
                    i += 1;
                }
                let copy = Json::Object(copies);
                assert(copy@->Object_0 =~= self@->Object_0);
                copy
            },
        }
    }
}

/// `serde_json::Value`, of which nothing is seen here but what `value_json`
/// names.
#[verifier::external_type_specification]
#[verifier::external_body]
pub struct ExValue(serde_json::Value);

/// `serde_json::Error`, of which nothing is seen here.
#[verifier::external_type_specification]
#[verifier::external_body]
pub struct ExError(serde_json::Error);

/// The document that a `serde_json::Value` holds: numbers in the text that
/// `serde_json` prints for them, the members of an object in the order in which
/// its map hands them out.
pub uninterp spec fn value_json(v: serde_json::Value) -> JsonValue;

/// The document that `serde_json::from_str` reads from a text, `None` where it
/// reports an error.
pub uninterp spec fn parsed_json(text: Seq<char>) -> Option<JsonValue>;

/// The document that a `serde_json::Value` built from a document holds.
pub uninterp spec fn built_json(j: JsonValue) -> JsonValue;

/// The text that `serde_json::to_string` writes for a `serde_json::Value` holding
/// a document.
pub uninterp spec fn written_json(j: JsonValue) -> Seq<char>;

/// `serde_json::from_str`, read as a `serde_json::Value`. Claims only that the
/// outcome is a function of the text: success and the document read are those
/// that `parsed_json` names.
#[verifier::external_body]
fn parse_value(text: &str) -> (r: Result<Value, serde_json::Error>)
    ensures
        match r {
            Ok(v) => parsed_json(text@) == Some(value_json(v)),
            Err(_) => parsed_json(text@) is None,
        },
{
    serde_json::from_str(text)
}

/// Copies a `serde_json::Value` into a `Json`, variant by variant: a number as
/// the text that `Number`'s `Display` gives, the members of an object in the
/// order of `Map::iter`. Claims that the copy holds the document that
/// `value_json` names for the value.
#[verifier::external_body]
fn json_of_value(v: &Value) -> (j: Json)
    ensures
        j@ == value_json(*v),
{
    match v {
        Value::Null => Json::Null,
        Value::Bool(b) => Json::Bool(*b),
        Value::Number(n) => Json::Number(n.to_string()),
        Value::String(s) => Json::Text(s.clone()),
        Value::Array(a) => Json::Array(a.iter().map(json_of_value).collect()),
        Value::Object(m) => {
            Json::Object(m.iter().map(|(k, x)| (k.clone(), json_of_value(x))).collect())
        },
    }
}

/// The `Display` text of a `serde_json::Error`. Nothing is claimed of it.
#[verifier::external_body]
fn error_text(e: &serde_json::Error) -> String {
    e.to_string()
}

/// Builds a `serde_json::Value` from a `Json`, variant by variant: a number is
/// read from its text by `serde_json::from_str`, and is `null` where that fails;
/// the members of an object are collected into a `serde_json::Map`. Claims only
/// that what the value holds is a function of the document: it is the document
/// that `built_json` names.
#[verifier::external_body]
fn value_of_json(j: &Json) -> (v: Value)
    ensures
        value_json(v) == built_json(j@),
{
    match j {
        Json::Null => Value::Null,
        Json::Bool(b) => Value::Bool(*b),
        Json::Number(t) => serde_json::from_str::<Number>(t).map_or(Value::Null, Value::Number),
        Json::Text(s) => Value::String(s.clone()),
        Json::Array(a) => Value::Array(a.iter().map(value_of_json).collect()),
        Json::Object(m) => {
            Value::Object(m.iter().map(|(k, x)| (k.clone(), value_of_json(x))).collect())
        },
    }
}

/// `serde_json::to_string` on a `serde_json::Value`. Claims only that the text is
/// a function of the document that the value holds: it is the text that
/// `written_json` names.
#[verifier::external_body]
fn value_text(v: &Value) -> (text: String)
    ensures
        text@ == written_json(value_json(*v)),
{
    serde_json::to_string(v).unwrap_or_default()
}

/// Reads a JSON text. Numbers are kept in the text that `serde_json` writes for
/// them. Where the text is not JSON, the error is the parser's message.
pub fn parse(text: &str) -> (r: Result<Json, String>)
    ensures
        match r {
            Ok(j) => parsed_json(text@) == Some(j@),
            Err(_) => parsed_json(text@) is None,
        },
{
    match parse_value(text) {
        Ok(v) => Ok(json_of_value(&v)),
        Err(e) => Err(error_text(&e)),
    }
}

/// Writes a document as JSON text, without white space. A number whose text
/// `serde_json` does not accept is written as `null`.
pub fn to_text(j: &Json) -> (text: String)
    ensures
        text@ == j@.printed(),
{
    let v = value_of_json(j);
    value_text(&v)
}

/// The value of the last member of `members` that has the key `key`.
pub open spec fn lookup(members: Seq<(Seq<char>, JsonValue)>, key: Seq<char>) -> Option<JsonValue>
    decreases members.len(),
{
    if members.len() == 0 {
        None
    } else if members.last().0 == key {
        Some(members.last().1)
    } else {
        lookup(members.drop_last(), key)
    }
}

impl JsonValue {
    /// The member `key` of an object; where the object lists the key more than
    /// once, the last listing counts. `None` for anything but an object.
    pub open spec fn member(self, key: Seq<char>) -> Option<JsonValue> {
        match self {
            JsonValue::Object(members) => lookup(members, key),
            _ => None,
        }
    }

    /// The text that `serde_json` writes for this document.
    pub open spec fn printed(self) -> Seq<char> {
        written_json(built_json(self))
    }
}

/// The views of the members of an object, in their order.
pub open spec fn member_views(members: Seq<(String, Json)>) -> Seq<(Seq<char>, JsonValue)> {
    Seq::new(members.len(), |i: int| (members[i].0@, members[i].1@))
}

impl Json {
    /// A text.
    pub fn text(s: &str) -> (j: Json)
        ensures
            j@ == JsonValue::Text(s@),
    {
        Json::Text(String::from_str(s))
    }

    /// A text, or `null` where there is none.
    pub fn optional_text(s: &Option<String>) -> (j: Json)
        ensures
            j@ == match s {
                Some(t) => JsonValue::Text(t@),
                None => JsonValue::Null,
            },
    {
        match s {
            Some(t) => Json::Text(t.clone()),
            None => Json::Null,
        }
    }

    /// An array of the given items.
    pub fn array(items: Vec<Json>) -> (j: Json)
        ensures
            j@ == JsonValue::Array(views(items@)),
    {
        let j = Json::Array(items);
        assert(j@->Array_0 =~= views(items@));
        j
    }

    /// An object of the given members.
    pub fn object(members: Vec<(String, Json)>) -> (j: Json)
        ensures
            j@ == JsonValue::Object(member_views(members@)),
    {
        let j = Json::Object(members);
        assert(j@->Object_0 =~= member_views(members@));
        j
    }

    /// A member of an object: a key and its value.
    pub fn entry(key: &str, value: Json) -> (m: (String, Json))
        ensures
            m.0@ == key@,
            m.1 == value,
    {
        (String::from_str(key), value)
    }

    /// The member `key` of an object; where the object lists the key more than
    /// once, the last listing counts. `None` for anything but an object.
    pub fn member(&self, key: &str) -> (r: Option<&Json>)
        ensures
            match r {
                Some(j) => self@.member(key@) == Some(j@),
                None => self@.member(key@) is None,
            },
    {
        match self {
            Json::Object(members) => {
                let mut i: usize = members.len();
                let ghost all = self@->Object_0;
                assert(all.take(i as int) =~= all);
                while i > 0
                    invariant
                        self@ == JsonValue::Object(all),
                        all.len() == members.len(),
                        forall|k: int|
                            0 <= k < all.len() ==> all[k] == (members@[k].0@, members@[k].1@),
                        i <= members.len(),
                        lookup(all, key@) == lookup(all.take(i as int), key@),
                    decreases i,
                {
                    let ghost upto = all.take(i as int);
                    assert(upto.drop_last() =~= all.take(i - 1));
                    i -= 1;
                    if same(members[i].0.as_str(), key) {
                        return Some(&members[i].1);
                    }
                }
                None
            },
            _ => None,
        }
    }
}

} // verus!
