//! The version extractor: what API version an instance was declared under.

use crate::error::ScanError;
use crate::instance::{InstanceView, ResourceInstance};
use crate::json::{json_member, json_members, json_text_members, parse_json};
use vstd::prelude::*;

verus! {

/// The annotation in which `kubectl apply` records the configuration that
/// was last applied to an instance.
pub const LAST_APPLIED_ANNOTATION: &'static str =
    "kubectl.kubernetes.io/last-applied-configuration";

/// The member of an applied configuration that names its API version.
pub const API_VERSION_MEMBER: &'static str = "apiVersion";

/// The text of the member `key` among `members`, if there is such a member
/// and it is a JSON string.
pub open spec fn member_text(members: Map<Seq<char>, Option<Seq<char>>>, key: Seq<char>) -> Option<
    Seq<char>,
> {
    if members.contains_key(key) {
        members[key]
    } else {
        None
    }
}

/// The API version that the text of an applied configuration declares:
/// the text of its `apiVersion` member. `None` where the text is not a JSON
/// object with a textual `apiVersion`.
pub open spec fn declared_in(configuration: Seq<char>) -> Option<Seq<char>> {
    match json_text_members(configuration) {
        Some(members) => member_text(members, API_VERSION_MEMBER@),
        None => None,
    }
}

/// The API version that an instance was declared under.
///
/// An instance without the last-applied annotation declares none. One that
/// carries it declares what the annotation says, and is malformed where the
/// annotation does not say it.
pub open spec fn declared_version(instance: InstanceView) -> Result<Option<Seq<char>>, ScanError> {
    if !instance.annotations.contains_key(LAST_APPLIED_ANNOTATION@) {
        Ok(None)
    } else {
        match declared_in(instance.annotations[LAST_APPLIED_ANNOTATION@]) {
            Some(version) => Ok(Some(version)),
            None => Err(ScanError::MalformedAnnotation),
        }
    }
}

/// The view of an optional text.
pub open spec fn text_view(text: Option<String>) -> Option<Seq<char>> {
    match text {
        Some(t) => Some(t@),
        None => None,
    }
}

/// The view of an extraction's outcome.
pub open spec fn extraction_view(outcome: Result<Option<String>, ScanError>) -> Result<
    Option<Seq<char>>,
    ScanError,
> {
    match outcome {
        Ok(declared) => Ok(text_view(declared)),
        Err(error) => Err(error),
    }
}

/// The text of the member `key` of a parsed JSON document, if the document
/// is an object that holds the member as a JSON string.
pub fn document_text(doc: &serde_json::Value, key: &str) -> (text: Option<String>)
    ensures
        text_view(text) == member_text(json_members(*doc), key@),
{
    match json_member(doc, key) {
        Some(member) => member,
        None => None,
    }
}

/// The API version that a parsed configuration declares.
pub fn document_api_version(doc: &serde_json::Value) -> (version: Option<String>)
    ensures
        text_view(version) == member_text(json_members(*doc), API_VERSION_MEMBER@),
{
    document_text(doc, API_VERSION_MEMBER)
}

/// Reads the API version that an instance was declared under from its
/// last-applied annotation.
///
/// Returns `Ok(None)` for an instance without the annotation, and
/// `MalformedAnnotation` for one whose annotation is not a JSON object with
/// a textual `apiVersion`.
pub fn extract_declared_version(instance: &ResourceInstance) -> (declared: Result<
    Option<String>,
    ScanError,
>)
    ensures
        extraction_view(declared) == declared_version(instance@),
{
    match instance.annotation(LAST_APPLIED_ANNOTATION) {
        None => Ok(None),
        Some(configuration) => match parse_json(configuration.as_str()) {
            Err(_) => Err(ScanError::MalformedAnnotation),
            Ok(doc) => match document_api_version(&doc) {
                Some(version) => Ok(Some(version)),
                None => Err(ScanError::MalformedAnnotation),
            },
        },
    }
}

} // verus!
