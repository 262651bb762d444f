//! Reading one text member out of a JSON document, through `serde_json`.

use vstd::prelude::*;

verus! {

/// `serde_json::Value`, a parsed JSON value. It is carried as it is; what
/// the crate reads of it goes through [`text_of`] and [`members_of`].
#[verifier::external_type_specification]
#[verifier::external_body]
pub struct ExJsonValue(serde_json::Value);

/// `serde_json::Error`, the reason why bytes are no JSON document. Nothing
/// is read of it.
#[verifier::external_type_specification]
#[verifier::external_body]
pub struct ExJsonError(serde_json::Error);

/// The text that a JSON value is, for a value that is a string; `None` for
/// any other value.
pub uninterp spec fn text_of(value: serde_json::Value) -> Option<Seq<char>>;

/// The members of a JSON value that is an object, each key with the text of
/// its value (see [`text_of`]); the empty map for any other value.
pub uninterp spec fn members_of(value: serde_json::Value) -> Map<Seq<char>, Option<Seq<char>>>;

/// The members (see [`members_of`]) of the JSON value that `body` parses to;
/// `None` for bytes that `serde_json` does not accept as one JSON document.
pub uninterp spec fn document_members(body: Seq<u8>) -> Option<Map<Seq<char>, Option<Seq<char>>>>;

/// Parses a JSON document: `serde_json::from_slice` at type `Value`.
///
/// Trusted: the outcome is a function of the bytes alone, and is named by
/// [`document_members`].
#[verifier::external_body]
fn parse_document(body: &[u8]) -> (r: Result<serde_json::Value, serde_json::Error>)
    ensures
        match r {
            Ok(document) => document_members(body@) == Some(members_of(document)),
            Err(_) => document_members(body@) is None,
        },
{
    serde_json::from_slice::<serde_json::Value>(body)
}

/// Looks a key up in a JSON value: `serde_json::Value::get` with a string
/// index.
///
/// Trusted: the member under `key` where the value is an object that has the
/// key, `None` otherwise.
#[verifier::external_body]
fn member<'a>(value: &'a serde_json::Value, key: &str) -> (r: Option<&'a serde_json::Value>)
    ensures
        match r {
            Some(found) => members_of(*value).contains_key(key@) && members_of(*value)[key@]
                == text_of(*found),
            None => !members_of(*value).contains_key(key@),
        },
{
    value.get(key)
}

/// Reads a JSON value as text: `serde_json::Value::as_str`.
///
/// Trusted: the string's content where the value is a string, `None`
/// otherwise.
#[verifier::external_body]
fn as_text<'a>(value: &'a serde_json::Value) -> (r: Option<&'a str>)
    ensures
        match r {
            Some(text) => text_of(*value) == Some(text@),
            None => text_of(*value) is None,
        },
{
    value.as_str()
}

/// The text under `key` in the JSON object that `body` holds. There is none
/// where `body` is no JSON document, where the document is no object, where
/// the object lacks the key, and where the member is not a string.
pub open spec fn text_member(body: Seq<u8>, key: Seq<char>) -> Option<Seq<char>> {
    match document_members(body) {
        Some(members) => if members.contains_key(key) {
            members[key]
        } else {
            None
        },
        None => None,
    }
}

/// Finds the text under `key` in the JSON object that `body` holds.
pub fn find_text_member(body: &[u8], key: &str) -> (found: Option<String>)
    ensures
        match found {
            Some(text) => text_member(body@, key@) == Some(text@),
            None => text_member(body@, key@) is None,
        },
{
    match parse_document(body) {
        Ok(document) => match member(&document, key) {
            Some(value) => match as_text(value) {
                Some(text) => Some(String::from_str(text)),
                None => None,
            },
            None => None,
        },
        Err(_) => None,
    }
}

} // verus!
