//! The finding aggregator: whether an instance is reported, and as what.

use crate::error::ScanError;
use crate::extract::{
    declared_version, extract_declared_version, text_view, LAST_APPLIED_ANNOTATION,
};
use crate::instance::{InstanceView, ResourceInstance};
use crate::model::{DeprecationEntry, EntryView, Finding, FindingView};
use vstd::prelude::*;

verus! {

/// What both version fields of a finding hold when the kind is removed.
pub const REMOVED: &'static str = "REMOVED";

/// What stands between group and version in a supported API version.
pub const VERSION_SEPARATOR: &'static str = "/";

/// The API version that instances of an entry's kind are expected to
/// declare: group and version, joined by a slash.
pub open spec fn supported_version(entry: EntryView) -> Seq<char> {
    entry.group + VERSION_SEPARATOR@ + entry.version
}

/// The finding that reports an instance of a removed kind.
pub open spec fn removed_finding(entry: EntryView, instance: InstanceView) -> FindingView {
    FindingView {
        kind: entry.kind,
        namespace: instance.namespace,
        name: instance.name,
        supported_api_version: REMOVED@,
        deprecated_api_version: REMOVED@,
    }
}

/// The finding that reports an instance declared under another version
/// than the supported one.
pub open spec fn mismatch_finding(
    entry: EntryView,
    instance: InstanceView,
    declared: Seq<char>,
) -> FindingView {
    FindingView {
        kind: entry.kind,
        namespace: instance.namespace,
        name: instance.name,
        supported_api_version: supported_version(entry),
        deprecated_api_version: declared,
    }
}

/// What is reported of an instance whose declared version is known.
///
/// An instance of a removed kind is always reported. Any other instance is
/// reported exactly when it declares a version, and that version is not the
/// supported one.
pub open spec fn verdict(
    entry: EntryView,
    instance: InstanceView,
    declared: Option<Seq<char>>,
) -> Option<FindingView> {
    if entry.removed {
        Some(removed_finding(entry, instance))
    } else {
        match declared {
            None => None,
            Some(version) => if version != supported_version(entry) {
                Some(mismatch_finding(entry, instance, version))
            } else {
                None
            },
        }
    }
}

/// What is reported of an instance, its declared version read from its
/// annotations. The annotations of an instance of a removed kind are not
/// read.
pub open spec fn instance_verdict(entry: EntryView, instance: InstanceView) -> Result<
    Option<FindingView>,
    ScanError,
> {
    if entry.removed {
        Ok(Some(removed_finding(entry, instance)))
    } else {
        match declared_version(instance) {
            Ok(declared) => Ok(verdict(entry, instance, declared)),
            Err(error) => Err(error),
        }
    }
}

/// What is reported of one instance, case by case.
///
/// An instance of a removed kind is reported as removed, whatever its
/// annotations hold. Where the kind is not removed, an instance without the
/// last-applied annotation is not reported, nor is one that declares the
/// supported version, and one that declares another version is reported
/// with that version and the supported one.
pub proof fn lemma_instance_verdict_cases(entry: EntryView, instance: InstanceView)
    ensures
        entry.removed ==> instance_verdict(entry, instance) == Ok::<Option<FindingView>, ScanError>(
            Some(removed_finding(entry, instance)),
        ),
        !entry.removed && !instance.annotations.contains_key(LAST_APPLIED_ANNOTATION@)
            ==> instance_verdict(entry, instance) == Ok::<Option<FindingView>, ScanError>(None),
        !entry.removed && declared_version(instance) == Ok::<Option<Seq<char>>, ScanError>(
            Some(supported_version(entry)),
        ) ==> instance_verdict(entry, instance) == Ok::<Option<FindingView>, ScanError>(None),
        declared_version(instance) matches Ok(Some(version)) ==> (!entry.removed && version
            != supported_version(entry) ==> instance_verdict(entry, instance) == Ok::<
            Option<FindingView>,
            ScanError,
        >(Some(mismatch_finding(entry, instance, version)))),
        !entry.removed && declared_version(instance) is Err ==> instance_verdict(entry, instance)
            == Err::<Option<FindingView>, ScanError>(ScanError::MalformedAnnotation),
{
}

/// The view of an optional finding.
pub open spec fn finding_view(finding: Option<Finding>) -> Option<FindingView> {
    match finding {
        Some(f) => Some(f@),
        None => None,
    }
}

/// The view of the outcome of inspecting one instance.
pub open spec fn inspection_view(outcome: Result<Option<Finding>, ScanError>) -> Result<
    Option<FindingView>,
    ScanError,
> {
    match outcome {
        Ok(finding) => Ok(finding_view(finding)),
        Err(error) => Err(error),
    }
}

/// The API version that instances of an entry's kind are expected to declare.
pub fn supported_api_version(entry: &DeprecationEntry) -> (supported: String)
    ensures
        supported@ == supported_version(entry@),
{
    let mut supported = entry.group.clone();
    supported.append(VERSION_SEPARATOR);
    supported.append(entry.version.as_str());
    supported
}

/// Decides what to report of an instance, given the version it declares.
///
/// Returns a finding with both version fields `REMOVED` for every instance
/// of a removed kind, whatever it declares. For any other kind, returns no
/// finding for an instance that declares no version or the supported one,
/// and a finding that holds both versions for one that declares another.
pub fn evaluate(
    entry: &DeprecationEntry,
    instance: &ResourceInstance,
    declared: Option<String>,
) -> (finding: Option<Finding>)
    ensures
        finding_view(finding) == verdict(entry@, instance@, text_view(declared)),
        entry.removed ==> finding_view(finding) == Some(removed_finding(entry@, instance@)),
        !entry.removed && declared is None ==> finding is None,
        !entry.removed && text_view(declared) == Some(supported_version(entry@))
            ==> finding is None,
        declared matches Some(version) ==> (!entry.removed && version@ != supported_version(entry@)
            ==> finding_view(finding) == Some(mismatch_finding(entry@, instance@, version@))),
{
    if entry.removed {
        Some(
            Finding {
                kind: entry.kind.clone(),
                namespace: instance.namespace().clone(),
                name: instance.name().clone(),
                supported_api_version: REMOVED.to_owned(),
                deprecated_api_version: REMOVED.to_owned(),
            },
        )
    } else {
        match declared {
            None => None,
            Some(version) => {
                let supported = supported_api_version(entry);
                if version == supported {
                    None
                } else {
                    Some(
                        Finding {
                            kind: entry.kind.clone(),
                            namespace: instance.namespace().clone(),
                            name: instance.name().clone(),
                            supported_api_version: supported,
                            deprecated_api_version: version,
                        },
                    )
                }
            },
        }
    }
}

/// Inspects one instance: reads the version it declares, unless the kind is
/// removed, and decides what to report of it.
///
/// Fails with `MalformedAnnotation` exactly for an instance of a kind that
/// is not removed whose last-applied annotation cannot be read.
pub fn inspect(entry: &DeprecationEntry, instance: &ResourceInstance) -> (outcome: Result<
    Option<Finding>,
    ScanError,
>)
    ensures
        inspection_view(outcome) == instance_verdict(entry@, instance@),
{
    if entry.removed {
        Ok(evaluate(entry, instance, None))
    } else {
        match extract_declared_version(instance) {
            Ok(declared) => Ok(evaluate(entry, instance, declared)),
            Err(error) => Err(error),
        }
    }
}

} // verus!
