//! The records a scan works on, each with its mathematical view.

use vstd::prelude::*;

verus! {

/// One line of the deprecation table: an API coordinate that is deprecated,
/// or removed outright, at the target platform version.
#[derive(Clone, Debug, PartialEq, Eq)]
pub struct DeprecationEntry {
    pub group: String,
    pub version: String,
    pub kind: String,
    pub removed: bool,
}

/// A `DeprecationEntry` as specifications see it.
pub struct EntryView {
    pub group: Seq<char>,
    pub version: Seq<char>,
    pub kind: Seq<char>,
    pub removed: bool,
}

impl View for DeprecationEntry {
    type V = EntryView;

    open spec fn view(&self) -> EntryView {
        EntryView {
            group: self.group@,
            version: self.version@,
            kind: self.kind@,
            removed: self.removed,
        }
    }
}

/// The views of a sequence of entries, in the same order.
pub open spec fn entry_views(entries: Seq<DeprecationEntry>) -> Seq<EntryView> {
    entries.map_values(|entry: DeprecationEntry| entry@)
}

/// What the API server answers when a kind is resolved: the identity of the
/// resource and the plural name under which its instances are listed.
#[derive(Clone, Debug, PartialEq, Eq)]
pub struct ResourceDescriptor {
    pub group: String,
    pub version: String,
    pub api_version: String,
    pub kind: String,
    pub plural: String,
}

/// A `ResourceDescriptor` as specifications see it.
pub struct DescriptorView {
    pub group: Seq<char>,
    pub version: Seq<char>,
    pub api_version: Seq<char>,
    pub kind: Seq<char>,
    pub plural: Seq<char>,
}

impl View for ResourceDescriptor {
    type V = DescriptorView;

    open spec fn view(&self) -> DescriptorView {
        DescriptorView {
            group: self.group@,
            version: self.version@,
            api_version: self.api_version@,
            kind: self.kind@,
            plural: self.plural@,
        }
    }
}

/// One reported use of a deprecated or removed API.
#[derive(Clone, Debug, PartialEq, Eq)]
pub struct Finding {
    pub kind: String,
    pub namespace: String,
    pub name: String,
    pub supported_api_version: String,
    pub deprecated_api_version: String,
}

/// A `Finding` as specifications see it.
pub struct FindingView {
    pub kind: Seq<char>,
    pub namespace: Seq<char>,
    pub name: Seq<char>,
    pub supported_api_version: Seq<char>,
    pub deprecated_api_version: Seq<char>,
}

impl View for Finding {
    type V = FindingView;

    open spec fn view(&self) -> FindingView {
        FindingView {
            kind: self.kind@,
            namespace: self.namespace@,
            name: self.name@,
            supported_api_version: self.supported_api_version@,
            deprecated_api_version: self.deprecated_api_version@,
        }
    }
}

/// The views of a sequence of findings, in the same order.
pub open spec fn finding_views(findings: Seq<Finding>) -> Seq<FindingView> {
    findings.map_values(|finding: Finding| finding@)
}

} // verus!
