//! JSON documents as plain values.
//!
//! Reading JSON text is left to `serde_json`. What it reads is copied into
//! [`Json`], a value of this library, so that everything built on top of a
//! document is ordinary verified code. Two things are taken on trust here
//! and nowhere else: that `serde_json` reads the same document from the same
//! text every time, and that the copy is faithful.

use crate::text::{same_text, texts};
use vstd::prelude::*;

verus! {

/// A JSON document.
#[derive(Debug, PartialEq, Eq)]
pub enum Json {
    Null,
    Bool(bool),
    /// A number: its value where it is whole and from 0 to 2^64 - 1, and
    /// nothing more where it is any other number.
    Number(Option<u64>),
    Text(String),
    Array(Vec<Json>),
    /// The members of an object, each with its key.
    Object(Vec<(String, Json)>),
}

/// `serde_json::Value`, a parsed document. Nothing is known of its inside
/// but through [`json_content`].
#[verifier::external_type_specification]
#[verifier::external_body]
pub struct ExValue(serde_json::Value);

/// `serde_json::Error`, the reason why a text is no JSON document.
#[verifier::external_type_specification]
#[verifier::external_body]
pub struct ExError(serde_json::Error);

/// The document that `serde_json` reads from a text, if it reads one: the
/// text must be one JSON value with nothing but white space around it, and
/// not nested deeper than `serde_json` follows.
pub uninterp spec fn json_document(text: Seq<char>) -> Option<Json>;

/// What a parsed document holds: the same variant with the same contents,
/// the items of an array in their order, the members of an object in the
/// order in which the object yields them, each key once.
pub uninterp spec fn json_content(value: serde_json::Value) -> Json;

/// Calls `serde_json::from_str` to read a text as a `serde_json::Value`.
/// Trusted: whether reading succeeds and what it yields depends on the text
/// alone, which is what the name [`json_document`] stands for.
#[verifier::external_body]
fn value_of_text(text: &str) -> (parsed: Result<serde_json::Value, serde_json::Error>)
    ensures
        parsed is Ok <==> json_document(text@) is Some,
        parsed matches Ok(value) ==> json_document(text@) == Some(json_content(value)),
{
    serde_json::from_str::<serde_json::Value>(text)
}

/// Copies a `serde_json::Value` into a [`Json`], variant by variant; of a
/// number it keeps what `Number::as_u64` gives. Trusted: the copy is what
/// the value holds, which is what the name [`json_content`] stands for.
#[verifier::external_body]
fn json_of_value(value: &serde_json::Value) -> (json: Json)
    ensures
        json == json_content(*value),
{
    match value {
        serde_json::Value::Null => Json::Null,
        serde_json::Value::Bool(flag) => Json::Bool(*flag),
        serde_json::Value::Number(number) => Json::Number(number.as_u64()),
        serde_json::Value::String(text) => Json::Text(text.clone()),
        serde_json::Value::Array(items) => Json::Array(items.iter().map(json_of_value).collect()),
        serde_json::Value::Object(members) => Json::Object(
            members.iter().map(|(key, item)| (key.clone(), json_of_value(item))).collect(),
        ),
    }
}

/// Reads a text as a JSON document. `None` when the text is not well-formed.
pub fn parse_document(text: &str) -> (document: Option<Json>)
    ensures
        document == json_document(text@),
{
    match value_of_text(text) {
        Ok(value) => Some(json_of_value(&value)),
        Err(_) => None,
    }
}

/// The first member of an object with a given key.
pub open spec fn member(members: Seq<(String, Json)>, key: Seq<char>) -> Option<Json>
    decreases members.len(),
{
    if members.len() == 0 {
        None
    } else if members[0].0@ == key {
        Some(members[0].1)
    } else {
        member(members.drop_first(), key)
    }
}

/// The text that a member holds, if it is there and is a text.
pub open spec fn text_of(json: Option<Json>) -> Option<Seq<char>> {
    match json {
        Some(Json::Text(text)) => Some(text@),
        _ => None,
    }
}

/// The truth value that a member holds, if it is there and is one.
pub open spec fn flag_of(json: Option<Json>) -> Option<bool> {
    match json {
        Some(Json::Bool(flag)) => Some(flag),
        _ => None,
    }
}

/// The texts that a member holds, if it is there and is an array of texts.
pub open spec fn texts_of(json: Option<Json>) -> Option<Seq<Seq<char>>> {
    match json {
        Some(Json::Array(items)) => if forall|at: int|
            0 <= at < items@.len() ==> #[trigger] items@[at] is Text {
            Some(items@.map_values(|item: Json| item->Text_0@))
        } else {
            None
        },
        _ => None,
    }
}

/// Looks up the first member of an object with a given key.
pub fn find_member<'a>(members: &'a Vec<(String, Json)>, key: &str) -> (found: Option<&'a Json>)
    ensures
        match found {
            Some(json) => member(members@, key@) == Some(*json),
            None => member(members@, key@) is None,
        },
{
    let mut index: usize = 0;
    assert(members@.subrange(0, members@.len() as int) =~= members@);
    while index < members.len()
        invariant
            index <= members.len(),
            member(members@, key@) == member(
                members@.subrange(index as int, members@.len() as int),
                key@,
            ),
        decreases members.len() - index,
    {
        let ghost rest = members@.subrange(index as int, members@.len() as int);
        if same_text(members[index].0.as_str(), key) {
            return Some(&members[index].1);
        }
        assert(rest.drop_first() =~= members@.subrange(index + 1, members@.len() as int));
        index = index + 1;
    }
    None
}

/// A copy of the text that a member holds, if it is there and is a text.
pub fn text_member(fields: &Vec<(String, Json)>, key: &str) -> (text: Option<String>)
    ensures
        match text {
            Some(text) => text_of(member(fields@, key@)) == Some(text@),
            None => text_of(member(fields@, key@)) is None,
        },
{
    match find_member(fields, key) {
        Some(Json::Text(text)) => Some(text.clone()),
        _ => None,
    }
}

/// The truth value that a member holds, if it is there and is one.
pub fn flag_member(fields: &Vec<(String, Json)>, key: &str) -> (flag: Option<bool>)
    ensures
        flag == flag_of(member(fields@, key@)),
{
    match find_member(fields, key) {
        Some(Json::Bool(flag)) => Some(*flag),
        _ => None,
    }
}

/// Copies of the texts that a member holds, if it is there and is an array
/// of texts.
pub fn texts_member(fields: &Vec<(String, Json)>, key: &str) -> (all: Option<Vec<String>>)
    ensures
        match all {
            Some(all) => texts_of(member(fields@, key@)) == Some(texts(all@)),
            None => texts_of(member(fields@, key@)) is None,
        },
{
    match find_member(fields, key) {
        Some(Json::Array(items)) => {
            let mut all: Vec<String> = Vec::new();
            let mut index: usize = 0;
            while index < items.len()
                invariant
                    index <= items.len(),
                    all@.len() == index,
                    member(fields@, key@) == Some(Json::Array(*items)),
                    forall|at: int| 0 <= at < index ==> #[trigger] items@[at] is Text,
                    forall|at: int| 0 <= at < index ==> all@[at]@ == items@[at]->Text_0@,
                decreases items.len() - index,
            {
                match &items[index] {
                    Json::Text(text) => {
                        all.push(text.clone());
                    },
                    _ => {
                        return None;
                    },
                }
                index = index + 1;
            }
            Some(all)
        },
        _ => None,
    }
}

} // verus!
