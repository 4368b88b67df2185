//! JSON documents as the tracker answers with them.
//!
//! Reading a document from bytes is `serde_json`'s work. What it has read
//! is held here as a value of this library, so that the code that looks
//! fields up in it can be reasoned about.

use crate::text::same_text;
use vstd::prelude::*;

verus! {

/// A JSON value. An object holds its members in the order in which
/// `serde_json` walks them. Of a number only what the library asks of one
/// is kept: its value as a `u64`, where it is a whole number from 0 to
/// `u64::MAX` (`serde_json::Number::as_u64`).
#[derive(Debug, PartialEq, Eq)]
pub enum Json {
    Null,
    Bool(bool),
    Number(Option<u64>),
    Text(String),
    Array(Vec<Json>),
    Object(Vec<Member>),
}

/// A named member of an object.
#[derive(Debug, PartialEq, Eq)]
pub struct Member {
    pub name: String,
    pub value: Json,
}

#[verifier::external_type_specification]
#[verifier::external_body]
pub struct ExValue(serde_json::Value);

#[verifier::external_type_specification]
#[verifier::external_body]
pub struct ExError(serde_json::Error);

/// The document that `serde_json` reads from `bytes`, or `None` where the
/// bytes are no JSON text.
pub uninterp spec fn json_document(bytes: Seq<u8>) -> Option<Json>;

/// Rewrites a `serde_json::Value` as a `Json`, variant by variant; of a
/// number it keeps `serde_json::Number::as_u64`. Nothing is claimed of the
/// result here: `json_from_slice` names it.
#[verifier::external_body]
fn json_of_value(value: &serde_json::Value) -> (json: Json) {
    match value {
        serde_json::Value::Null => Json::Null,
        serde_json::Value::Bool(b) => Json::Bool(*b),
        serde_json::Value::Number(n) => Json::Number(n.as_u64()),
        serde_json::Value::String(s) => Json::Text(s.clone()),
        serde_json::Value::Array(items) => Json::Array(items.iter().map(json_of_value).collect()),
        serde_json::Value::Object(members) => Json::Object(
            members.iter().map(
                |(name, value)| Member { name: name.clone(), value: json_of_value(value) },
            ).collect(),
        ),
    }
}

/// Calls `serde_json::from_slice` for a `serde_json::Value`. Trusted: what
/// is read depends on the bytes alone, so it has the name `json_document`;
/// an error stands for `None`.
#[verifier::external_body]
fn json_from_slice(bytes: &[u8]) -> (document: Result<Json, serde_json::Error>)
    ensures
        document matches Ok(json) ==> json_document(bytes@) == Some(json),
        document is Err ==> json_document(bytes@) is None,
{
    match serde_json::from_slice::<serde_json::Value>(bytes) {
        Ok(value) => Ok(json_of_value(&value)),
        Err(error) => Err(error),
    }
}

/// The first of `members` that is named `name`.
pub open spec fn member_named(members: Seq<Member>, name: Seq<char>) -> Option<Json>
    decreases members.len(),
{
    if members.len() == 0 {
        None
    } else if members[0].name@ == name {
        Some(members[0].value)
    } else {
        member_named(members.skip(1), name)
    }
}

impl Json {
    /// The member named `name`, where this is an object that has one.
    pub open spec fn member(self, name: Seq<char>) -> Option<Json> {
        match self {
            Json::Object(members) => member_named(members@, name),
            _ => None,
        }
    }

    /// The characters, where this is a text.
    pub open spec fn text(self) -> Option<Seq<char>> {
        match self {
            Json::Text(text) => Some(text@),
            _ => None,
        }
    }

    /// The items, where this is an array.
    pub open spec fn items(self) -> Option<Seq<Json>> {
        match self {
            Json::Array(items) => Some(items@),
            _ => None,
        }
    }

    /// The value, where this is a whole number from 0 to `u64::MAX`.
    pub open spec fn number(self) -> Option<u64> {
        match self {
            Json::Number(number) => number,
            _ => None,
        }
    }

    /// Reads a document from the bytes of a JSON text.
    pub fn from_slice(bytes: &[u8]) -> (document: Option<Json>)
        ensures
            document == json_document(bytes@),
    {
        match json_from_slice(bytes) {
            Ok(json) => Some(json),
            Err(_) => None,
        }
    }

    /// The member named `name`, where this is an object that has one; of
    /// several members of that name the first.
    pub fn get(&self, name: &str) -> (found: Option<&Json>)
        ensures
            found is Some <==> self.member(name@) is Some,
            found matches Some(json) ==> self.member(name@) == Some(*json),
    {
        match self {
            Json::Object(members) => {
                let mut i: usize = 0;
                assert(members@.skip(0) == members@);
                while i < members.len()
                    invariant
                        i <= members.len(),
                        self.member(name@) == member_named(members@.skip(i as int), name@),
                    decreases members.len() - i,
                {
                    if same_text(members[i].name.as_str(), name) {
                        return Some(&members[i].value);
                    }
                    assert(members@.skip(i as int).skip(1) == members@.skip(i + 1));
                    i = i + 1;
                }
                None
            },
            _ => None,
        }
    }

    /// The text, where this is one.
    pub fn as_str(&self) -> (text: Option<&str>)
        ensures
            text is Some <==> self.text() is Some,
            text matches Some(t) ==> self.text() == Some(t@),
    {
        match self {
            Json::Text(text) => Some(text.as_str()),
            _ => None,
        }
    }

    /// The items, where this is an array.
    pub fn as_array(&self) -> (items: Option<&Vec<Json>>)
        ensures
            items is Some <==> self.items() is Some,
            items matches Some(v) ==> self.items() == Some(v@),
    {
        match self {
            Json::Array(items) => Some(items),
            _ => None,
        }
    }

    /// The value, where this is a whole number from 0 to `u64::MAX`.
    pub fn as_u64(&self) -> (number: Option<u64>)
        ensures
            number == self.number(),
    {
        match self {
            Json::Number(number) => *number,
            _ => None,
        }
    }
}

} // verus!
