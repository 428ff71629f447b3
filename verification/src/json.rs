//! JSON documents, read with `serde_json`.
//!
//! Parsing is left to `serde_json`. This module states what the rest of the
//! library relies on, and nothing here is proved: a parsed document is known
//! only by the members it holds as an object.

use vstd::prelude::*;

verus! {

/// `serde_json::Value`, a parsed JSON value. Nothing is seen inside it but
/// what `json_members` names.
#[verifier::external_type_specification]
#[verifier::external_body]
pub struct ExJsonValue(serde_json::Value);

/// `serde_json::Error`, why a text could not be parsed. Nothing is seen
/// inside it.
#[verifier::external_type_specification]
#[verifier::external_body]
pub struct ExJsonError(serde_json::Error);

/// The members that a JSON value holds as an object: each key, with the
/// member's text where the member is a JSON string and `None` where it is of
/// any other kind. A value that is not an object holds no members.
pub uninterp spec fn json_members(doc: serde_json::Value) -> Map<Seq<char>, Option<Seq<char>>>;

/// The members of the value that `serde_json::from_str` reads from a text, or
/// `None` where it reads none because the text is not one JSON value.
pub uninterp spec fn json_text_members(text: Seq<char>) -> Option<
    Map<Seq<char>, Option<Seq<char>>>,
>;

/// Parses a text as one JSON value with `serde_json::from_str`.
///
/// Trusted: parsing depends on the text alone, so the members of the value
/// read are those that `json_text_members` names for the text, and the call
/// fails exactly where `json_text_members` names none.
#[verifier::external_body]
pub(crate) fn parse_json(text: &str) -> (parsed: Result<serde_json::Value, serde_json::Error>)
    ensures
        match parsed {
            Ok(doc) => json_text_members(text@) == Some(json_members(doc)),
            Err(_) => json_text_members(text@) is None,
        },
{
    serde_json::from_str::<serde_json::Value>(text)
}

/// Looks a member up by its key with `serde_json::Value::get`, and reads its
/// text with `serde_json::Value::as_str`.
///
/// Trusted: `get` finds a member exactly where the value is an object that
/// holds the key, and `as_str` gives the member's text exactly where the
/// member is a JSON string.
#[verifier::external_body]
pub(crate) fn json_member(doc: &serde_json::Value, key: &str) -> (member: Option<Option<String>>)
    ensures
        member is Some <==> json_members(*doc).contains_key(key@),
        member matches Some(text) ==> json_members(*doc)[key@] == match text {
            Some(t) => Some(t@),
            None => None,
        },
{
    doc.get(key).map(|member| member.as_str().map(str::to_owned))
}

} // verus!
