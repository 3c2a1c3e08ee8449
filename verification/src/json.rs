//! JSON documents as a type of the library, read and written by `serde_json`.

use vstd::prelude::*;
use crate::error::MyError;
use crate::text::same_text;

verus! {

/// `serde_json`'s document tree, handed between the calls below unopened.
#[verifier::external_type_specification]
#[verifier::external_body]
pub struct ExValue(serde_json::Value);

/// `serde_json`'s number, which the library carries and never reads.
#[verifier::external_type_specification]
#[verifier::external_body]
pub struct ExNumber(serde_json::Number);

/// A JSON document.
#[derive(Debug, PartialEq, Eq)]
pub enum Json {
    Null,
    Bool(bool),
    Number(serde_json::Number),
    Text(String),
    Array(Vec<Json>),
    Object(Vec<Member>),
}

/// One `"key": value` pair of an object.
#[derive(Debug, PartialEq, Eq)]
pub struct Member {
    pub key: String,
    pub value: Json,
}

/// A JSON document as a mathematical value.
pub enum Doc {
    Null,
    Bool(bool),
    Number(serde_json::Number),
    Text(Seq<char>),
    Array(Seq<Doc>),
    Object(Seq<Pair>),
}

/// One `"key": value` pair of an object, as a mathematical value.
pub struct Pair {
    pub key: Seq<char>,
    pub value: Doc,
}

impl View for Json {
    type V = Doc;

    open spec fn view(&self) -> Doc
        decreases self,
    {
        match self {
            Json::Null => Doc::Null,
            Json::Bool(b) => Doc::Bool(*b),
            Json::Number(n) => Doc::Number(*n),
            Json::Text(s) => Doc::Text(s@),
            Json::Array(items) => Doc::Array(
                Seq::new(
                    items@.len(),
                    |i: int|
                        if 0 <= i < items@.len() {
                            items@[i].view()
                        } else {
                            Doc::Null
                        },
                ),
            ),
            Json::Object(members) => Doc::Object(
                Seq::new(
                    members@.len(),
                    |i: int|
                        if 0 <= i < members@.len() {
                            Pair { key: members@[i].key@, value: members@[i].value.view() }
                        } else {
                            Pair { key: Seq::empty(), value: Doc::Null }
                        },
                ),
            ),
        }
    }
}

/// The documents that a run of `Json` values stands for, one by one.
pub open spec fn docs(items: Seq<Json>) -> Seq<Doc> {
    Seq::new(items.len(), |i: int| items[i]@)
}

/// The key and value pairs that a run of members stands for, one by one.
pub open spec fn pairs(members: Seq<Member>) -> Seq<Pair> {
    Seq::new(members.len(), |i: int| Pair { key: members[i].key@, value: members[i].value@ })
}

/// The value of the last pair in `members` whose key is `key`.
pub open spec fn last_with(members: Seq<Pair>, key: Seq<char>) -> Option<Doc>
    decreases members.len(),
{
    if members.len() == 0 {
        None
    } else if members.last().key == key {
        Some(members.last().value)
    } else {
        last_with(members.drop_last(), key)
    }
}

impl Doc {
    /// The characters of a string; `None` for any other document.
    pub open spec fn text(self) -> Option<Seq<char>> {
        match self {
            Doc::Text(s) => Some(s),
            _ => None,
        }
    }

    /// The elements of an array; `None` for any other document.
    pub open spec fn items(self) -> Option<Seq<Doc>> {
        match self {
            Doc::Array(items) => Some(items),
            _ => None,
        }
    }

    /// The value that an object holds under `key`: that of the last member
    /// with this key. `None` where there is none, or for any other document.
    pub open spec fn field(self, key: Seq<char>) -> Option<Doc> {
        match self {
            Doc::Object(members) => last_with(members, key),
            _ => None,
        }
    }
}

/// The document that `serde_json::from_str` reads from `text`, or `None`
/// where it reports a syntax error.
pub uninterp spec fn parsed(text: Seq<char>) -> Option<Doc>;

/// The compact text that `serde_json::to_string` writes for `doc`, or `None`
/// where it reports an error.
pub uninterp spec fn printed(doc: Doc) -> Option<Seq<char>>;

/// Rebuilds a `serde_json::Value` as a `Json`, node for node. An object's
/// members come in the order in which its map hands them out.
#[verifier::external_body]
fn from_value(value: &serde_json::Value) -> Json {
    match value {
        serde_json::Value::Null => Json::Null,
        serde_json::Value::Bool(b) => Json::Bool(*b),
        serde_json::Value::Number(n) => Json::Number(n.clone()),
        serde_json::Value::String(s) => Json::Text(s.clone()),
        serde_json::Value::Array(items) => Json::Array(items.iter().map(from_value).collect()),
        serde_json::Value::Object(map) => Json::Object(
            map.iter().map(|(k, v)| Member { key: k.clone(), value: from_value(v) }).collect(),
        ),
    }
}

/// Rebuilds a `Json` as a `serde_json::Value`, node for node. An object's
/// members go into the map one by one with `Map::insert`, so of two members
/// with one key the later one stays.
#[verifier::external_body]
fn to_value(doc: &Json) -> serde_json::Value {
    match doc {
        Json::Null => serde_json::Value::Null,
        Json::Bool(b) => serde_json::Value::Bool(*b),
        Json::Number(n) => serde_json::Value::Number(n.clone()),
        Json::Text(s) => serde_json::Value::String(s.clone()),
        Json::Array(items) => serde_json::Value::Array(items.iter().map(to_value).collect()),
        Json::Object(members) => {
            let mut map = serde_json::Map::new();
            for member in members {
                map.insert(member.key.clone(), to_value(&member.value));
            }
            serde_json::Value::Object(map)
        },
    }
}

/// Calls `serde_json::from_str` for a `serde_json::Value`. Trusted: the call
/// succeeds exactly where `parsed` is `Some`, and then gives that document.
#[verifier::external_body]
fn read_document(text: &str) -> (result: Result<Json, serde_json::Error>)
    ensures
        result.is_ok() == parsed(text@).is_some(),
        result.is_ok() ==> result.unwrap()@ == parsed(text@).unwrap(),
{
    match serde_json::from_str::<serde_json::Value>(text) {
        Ok(value) => Ok(from_value(&value)),
        Err(e) => Err(e),
    }
}

/// Calls `serde_json::to_string` on the document as a `serde_json::Value`.
/// Trusted: the call succeeds exactly where `printed` is `Some`, and then
/// gives that text.
#[verifier::external_body]
fn write_document(doc: &Json) -> (result: Result<String, serde_json::Error>)
    ensures
        result.is_ok() == printed(doc@).is_some(),
        result.is_ok() ==> result.unwrap()@ == printed(doc@).unwrap(),
{
    serde_json::to_string(&to_value(doc))
}

/// Reads a JSON text.
pub fn parse(text: &str) -> (result: Result<Json, MyError>)
    ensures
        match result {
            Ok(doc) => parsed(text@) == Some(doc@),
            Err(e) => parsed(text@).is_none() && e is JsonError,
        },
{
    match read_document(text) {
        Ok(doc) => Ok(doc),
        Err(e) => Err(MyError::JsonError(e)),
    }
}

/// Writes a document as compact JSON text.
pub fn print(doc: &Json) -> (result: Result<String, MyError>)
    ensures
        match result {
            Ok(text) => printed(doc@) == Some(text@),
            Err(e) => printed(doc@).is_none() && e is JsonError,
        },
{
    match write_document(doc) {
        Ok(text) => Ok(text),
        Err(e) => Err(MyError::JsonError(e)),
    }
}

impl Json {
    /// The string that the document is, if it is one.
    pub fn as_text(&self) -> (result: Option<&str>)
        ensures
            match result {
                Some(s) => self@.text() == Some(s@),
                None => self@.text().is_none(),
            },
    {
        match self {
            Json::Text(s) => Some(s.as_str()),
            _ => None,
        }
    }

    /// The elements of the array that the document is, if it is one.
    pub fn as_items(&self) -> (result: Option<&Vec<Json>>)
        ensures
            match result {
                Some(items) => self@.items() == Some(docs(items@)),
                None => self@.items().is_none(),
            },
    {
        match self {
            Json::Array(items) => {
                assert(self@.items().unwrap() =~= docs(items@));
                Some(items)
            },
            _ => None,
        }
    }

    /// The value under `key`, if the document is an object that has one.
    pub fn get(&self, key: &str) -> (result: Option<&Json>)
        ensures
            match result {
                Some(value) => self@.field(key@) == Some(value@),
                None => self@.field(key@).is_none(),
            },
    {
        match self {
            Json::Object(members) => {
                let ghost pairs = pairs(members@);
                let mut i: usize = members.len();
                proof {
                    assert(self@->Object_0 =~= pairs);
                    assert(pairs.subrange(0, i as int) =~= pairs);
                }
                while i > 0
                    invariant
                        i <= members@.len(),
                        pairs == self::pairs(members@),
                        self@.field(key@) == last_with(pairs.subrange(0, i as int), key@),
                    decreases i,
                {
                    let ghost front = pairs.subrange(0, i as int);
                    i = i - 1;
                    proof {
                        assert(front.drop_last() =~= pairs.subrange(0, i as int));
                        assert(front.last() == pairs[i as int]);
                    }
                    if same_text(members[i].key.as_str(), key) {
                        return Some(&members[i].value);
                    }
                }
                None
            },
            _ => None,
        }
    }
}

} // verus!
