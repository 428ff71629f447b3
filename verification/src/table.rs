//! The deprecation table: which API coordinates are deprecated or removed
//! at the target platform version.
//!
//! The table arrives as a list of JSON documents, one per entry. Each is an
//! object with the textual members `group`, `version`, `kind` and `removed`,
//! the last of which reads `true` for a kind that is removed outright.

use crate::error::ScanError;
use crate::extract::{document_text, member_text};
use crate::json::json_members;
use crate::model::{entry_views, DeprecationEntry, EntryView};
use vstd::prelude::*;

verus! {

/// The member that names an entry's API group.
pub const GROUP_MEMBER: &'static str = "group";

/// The member that names an entry's API version.
pub const VERSION_MEMBER: &'static str = "version";

/// The member that names an entry's kind.
pub const KIND_MEMBER: &'static str = "kind";

/// The member that says whether an entry's kind is removed.
pub const REMOVED_MEMBER: &'static str = "removed";

/// What the `removed` member reads for a kind that is removed.
pub const REMOVED_TRUE: &'static str = "true";

/// The entry that a document with these members stands for, if it has all
/// four members as text.
pub open spec fn entry_of(members: Map<Seq<char>, Option<Seq<char>>>) -> Option<EntryView> {
    match (
        member_text(members, GROUP_MEMBER@),
        member_text(members, VERSION_MEMBER@),
        member_text(members, KIND_MEMBER@),
        member_text(members, REMOVED_MEMBER@),
    ) {
        (Some(group), Some(version), Some(kind), Some(removed)) => Some(
            EntryView { group, version, kind, removed: removed == REMOVED_TRUE@ },
        ),
        _ => None,
    }
}

/// The table that a list of documents stands for. It is all or nothing: one
/// document that is not an entry leaves no table.
pub open spec fn table_of(documents: Seq<serde_json::Value>) -> Result<Seq<EntryView>, ScanError> {
    if forall|i: int|
        0 <= i < documents.len() ==> entry_of(json_members(#[trigger] documents[i])) is Some {
        Ok(Seq::new(documents.len(), |i: int| entry_of(json_members(documents[i]))->0))
    } else {
        Err(ScanError::SourceUnavailable)
    }
}

/// The view of an optional entry.
pub open spec fn entry_view(entry: Option<DeprecationEntry>) -> Option<EntryView> {
    match entry {
        Some(e) => Some(e@),
        None => None,
    }
}

/// The view of a decoded table.
pub open spec fn table_view(table: Result<Vec<DeprecationEntry>, ScanError>) -> Result<
    Seq<EntryView>,
    ScanError,
> {
    match table {
        Ok(entries) => Ok(entry_views(entries@)),
        Err(error) => Err(error),
    }
}

/// Reads one entry of the table from its document.
///
/// Returns `None` for a document that lacks one of the four members, or
/// holds one of them as something else than text.
pub fn entry_from_json(document: &serde_json::Value) -> (entry: Option<DeprecationEntry>)
    ensures
        entry_view(entry) == entry_of(json_members(*document)),
{
    let group = document_text(document, GROUP_MEMBER);
    let version = document_text(document, VERSION_MEMBER);
    let kind = document_text(document, KIND_MEMBER);
    let removed = document_text(document, REMOVED_MEMBER);
    match (group, version, kind, removed) {
        (Some(group), Some(version), Some(kind), Some(removed)) => {
            let removed = removed == REMOVED_TRUE.to_owned();
            Some(DeprecationEntry { group, version, kind, removed })
        },
        _ => None,
    }
}

/// Reads the deprecation table from its documents, in their order.
///
/// Fails with `SourceUnavailable` if any document is not an entry.
pub fn decode_table(documents: &Vec<serde_json::Value>) -> (table: Result<
    Vec<DeprecationEntry>,
    ScanError,
>)
    ensures
        table_view(table) == table_of(documents@),
{
    let mut entries: Vec<DeprecationEntry> = Vec::new();
    let mut i: usize = 0;
    while i < documents.len()
        invariant
            i <= documents.len(),
            entries.len() == i,
            forall|j: int|
                0 <= j < i ==> entry_of(json_members(#[trigger] documents[j])) == Some(
                    entries[j]@,
                ),
        decreases documents.len() - i,
    {
        match entry_from_json(&documents[i]) {
            Some(entry) => entries.push(entry),
            None => {
                return Err(ScanError::SourceUnavailable);
            },
        }
        i += 1;
    }
    assert(entry_views(entries@) == Seq::new(
        documents@.len(),
        |i: int| entry_of(json_members(documents@[i]))->0,
    ));
    Ok(entries)
}

} // verus!
