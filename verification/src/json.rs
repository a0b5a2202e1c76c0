//! JSON documents as plain data, and the parser that reads them.

use vstd::prelude::*;

use crate::text::same_text;

verus! {

/// A JSON value. Of a number only its value as a 64-bit signed integer is
/// kept, where it has one.
#[derive(Debug)]
pub enum Json {
    Null,
    Bool(bool),
    Number(Option<i64>),
    String(String),
    Array(Vec<Json>),
    Object(Vec<Member>),
}

/// A key of a JSON object with its value.
#[derive(Debug)]
pub struct Member {
    pub key: String,
    pub value: Json,
}

/// The value of the first of `members` whose key is `key`.
pub open spec fn spec_find(members: Seq<Member>, key: Seq<char>) -> Option<Json>
    decreases members.len(),
{
    if members.len() == 0 {
        None
    } else if members[0].key@ == key {
        Some(members[0].value)
    } else {
        spec_find(members.skip(1), key)
    }
}

impl Json {
    /// The members of an object, in the order of the document.
    pub open spec fn spec_members(self) -> Option<Seq<Member>> {
        match self {
            Json::Object(members) => Some(members@),
            _ => None,
        }
    }

    /// The items of an array.
    pub open spec fn spec_items(self) -> Option<Seq<Json>> {
        match self {
            Json::Array(items) => Some(items@),
            _ => None,
        }
    }

    /// The text of a string.
    pub open spec fn spec_text(self) -> Option<Seq<char>> {
        match self {
            Json::String(text) => Some(text@),
            _ => None,
        }
    }

    /// What an object holds under `key`; nothing where `self` is no object.
    pub open spec fn spec_get(self, key: Seq<char>) -> Option<Json> {
        match self {
            Json::Object(members) => spec_find(members@, key),
            _ => None,
        }
    }

    /// What an object holds under `key`; nothing where `self` is no object.
    pub fn get(&self, key: &str) -> (found: Option<&Json>)
        ensures
            match found {
                Some(value) => self.spec_get(key@) == Some(*value),
                None => self.spec_get(key@) is None,
            },
    {
        match self {
            Json::Object(members) => {
                let mut i: usize = 0;
                assert(members@.skip(0) =~= members@);
                while i < members.len()
                    invariant
                        i <= members.len(),
                        self.spec_get(key@) == spec_find(members@, key@),
                        spec_find(members@, key@) == spec_find(members@.skip(i as int), key@),
                    decreases members.len() - i,
                {
                    let ghost rest = members@.skip(i as int);
                    assert(rest[0] == members@[i as int]);
                    assert(rest.skip(1) =~= members@.skip(i + 1));
                    if same_text(members[i].key.as_str(), key) {
                        assert(spec_find(rest, key@) == Some(rest[0].value));
                        return Some(&members[i].value);
                    }
                    assert(spec_find(rest, key@) == spec_find(rest.skip(1), key@));
                    i = i + 1;
                }
                assert(members@.skip(i as int).len() == 0);
                None
            },
            _ => None,
        }
    }

    /// The members of an object.
    pub fn as_object(&self) -> (members: Option<&Vec<Member>>)
        ensures
            match members {
                Some(m) => self.spec_members() == Some(m@),
                None => self.spec_members() is None,
            },
    {
        match self {
            Json::Object(members) => Some(members),
            _ => None,
        }
    }

    /// The items of an array.
    pub fn as_array(&self) -> (items: Option<&Vec<Json>>)
        ensures
            match items {
                Some(a) => self.spec_items() == Some(a@),
                None => self.spec_items() is None,
            },
    {
        match self {
            Json::Array(items) => Some(items),
            _ => None,
        }
    }

    /// The text of a string.
    pub fn as_str(&self) -> (text: Option<&str>)
        ensures
            match text {
                Some(t) => self.spec_text() == Some(t@),
                None => self.spec_text() is None,
            },
    {
        match self {
            Json::String(text) => Some(text.as_str()),
            _ => None,
        }
    }
}

/// `serde_json::Value`, the JSON value of serde_json. Nothing is known of
/// what is inside it but through [`contents`].
#[verifier::external_type_specification]
#[verifier::external_body]
pub struct ExValue(serde_json::Value);

/// `serde_json::Error`, the error of serde_json. It is carried, never
/// read.
#[verifier::external_type_specification]
#[verifier::external_body]
pub struct ExError(serde_json::Error);

/// What a `serde_json::Value` holds, as a [`Json`].
pub uninterp spec fn contents(value: serde_json::Value) -> Json;

/// The document that `text` denotes; nothing where `text` is not JSON.
pub uninterp spec fn json_document(text: Seq<char>) -> Option<Json>;

/// `serde_json::from_str`, read as a `serde_json::Value`. It succeeds exactly
/// on the texts that denote a document, and hands back that document. With
/// the feature `preserve_order` an object keeps its members in the order of
/// the text.
#[verifier::external_body]
fn parse_value(text: &str) -> (r: Result<serde_json::Value, serde_json::Error>)
    ensures
        match r {
            Ok(value) => json_document(text@) == Some(contents(value)),
            Err(_) => json_document(text@) is None,
        },
{
    serde_json::from_str(text)
}

/// Copies a `serde_json::Value` into a [`Json`], variant by variant: the
/// result is what the value holds. A number goes through
/// `serde_json::Number::as_i64`.
#[verifier::external_body]
fn to_json(value: &serde_json::Value) -> (json: Json)
    ensures
        json == contents(*value),
{
    match value {
        serde_json::Value::Null => Json::Null,
        serde_json::Value::Bool(b) => Json::Bool(*b),
        serde_json::Value::Number(n) => Json::Number(n.as_i64()),
        serde_json::Value::String(s) => Json::String(s.clone()),
        serde_json::Value::Array(items) => Json::Array(items.iter().map(to_json).collect()),
        serde_json::Value::Object(map) => Json::Object(
            map.iter().map(|(k, v)| Member { key: k.clone(), value: to_json(v) }).collect(),
        ),
    }
}

/// Reads a JSON text. Returns the document that the text denotes, and
/// nothing exactly where the text is not JSON.
pub fn parse(text: &str) -> (doc: Option<Json>)
    ensures
        doc == json_document(text@),
{
    match parse_value(text) {
        Ok(value) => Some(to_json(&value)),
        Err(_) => None,
    }
}

} // verus!
