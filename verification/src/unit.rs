//! One scan unit: the work done for one entry of the deprecation table.
//!
//! A unit resolves the entry's kind, lists the instances of that kind and
//! inspects each of them. Resolving and listing are network calls, which the
//! caller makes; the functions here say what to do with their results:
//! `resolve_request` opens the unit, `after_resolve` takes the resolver's
//! answer, and `after_list` takes the lister's and closes the unit.

use crate::error::ScanError;
use crate::evaluate::{
    inspect, instance_verdict, mismatch_finding, removed_finding, supported_version,
};
use crate::extract::{declared_version, LAST_APPLIED_ANNOTATION};
use crate::instance::{InstanceView, ResourceInstance};
use crate::model::{
    finding_views, DeprecationEntry, DescriptorView, EntryView, Finding, FindingView,
    ResourceDescriptor,
};
use vstd::prelude::*;

verus! {

/// The group, version and kind that a unit asks the resolver for.
#[derive(Clone, Debug, PartialEq, Eq)]
pub struct ResolveRequest {
    pub group: String,
    pub version: String,
    pub kind: String,
}

/// What a unit does once its kind has been resolved.
#[derive(Debug, PartialEq, Eq)]
pub enum UnitStep {
    /// List the instances of the resolved kind in all namespaces.
    List(ResourceDescriptor),
    /// The unit is over, with these findings or this fatal error.
    Finish(Result<Vec<Finding>, ScanError>),
}

/// The views of a sequence of instances, in the same order.
pub open spec fn instance_views(instances: Seq<ResourceInstance>) -> Seq<InstanceView> {
    instances.map_values(|instance: ResourceInstance| instance@)
}

/// The view of a unit's outcome.
pub open spec fn outcome_view(outcome: Result<Vec<Finding>, ScanError>) -> Result<
    Seq<FindingView>,
    ScanError,
> {
    match outcome {
        Ok(findings) => Ok(finding_views(findings@)),
        Err(error) => Err(error),
    }
}

/// The view of the lister's answer.
pub open spec fn listing_view(listed: Result<Vec<ResourceInstance>, ScanError>) -> Result<
    Seq<InstanceView>,
    ScanError,
> {
    match listed {
        Ok(instances) => Ok(instance_views(instances@)),
        Err(error) => Err(error),
    }
}

/// How a unit ends on a failure: a fatal one is its outcome, any other
/// counts as nothing found.
pub open spec fn failure_outcome(error: ScanError) -> Result<Seq<FindingView>, ScanError> {
    if error.is_fatal() {
        Err(error)
    } else {
        Ok(Seq::empty())
    }
}

/// The findings among listed instances, in the order of the listing, or the
/// error of the first instance that cannot be inspected.
pub open spec fn unit_findings(entry: EntryView, instances: Seq<InstanceView>) -> Result<
    Seq<FindingView>,
    ScanError,
>
    decreases instances.len(),
{
    if instances.len() == 0 {
        Ok(Seq::empty())
    } else {
        match unit_findings(entry, instances.drop_last()) {
            Err(error) => Err(error),
            Ok(findings) => match instance_verdict(entry, instances.last()) {
                Err(error) => Err(error),
                Ok(Some(finding)) => Ok(findings.push(finding)),
                Ok(None) => Ok(findings),
            },
        }
    }
}

/// How a unit ends on the lister's answer.
pub open spec fn listing_outcome(
    entry: EntryView,
    listed: Result<Seq<InstanceView>, ScanError>,
) -> Result<Seq<FindingView>, ScanError> {
    match listed {
        Ok(instances) => unit_findings(entry, instances),
        Err(error) => failure_outcome(error),
    }
}

/// How a unit ends, given the answers of resolver and lister. The lister is
/// asked only where the kind was resolved.
pub open spec fn unit_outcome(
    entry: EntryView,
    resolved: Result<DescriptorView, ScanError>,
    listed: Result<Seq<InstanceView>, ScanError>,
) -> Result<Seq<FindingView>, ScanError> {
    match resolved {
        Ok(_) => listing_outcome(entry, listed),
        Err(error) => failure_outcome(error),
    }
}

/// An error in a prefix of a listing is the error of the whole listing.
proof fn lemma_error_persists(entry: EntryView, instances: Seq<InstanceView>, n: int)
    requires
        0 <= n <= instances.len(),
        unit_findings(entry, instances.take(n)) is Err,
    ensures
        unit_findings(entry, instances) == unit_findings(entry, instances.take(n)),
    decreases instances.len() - n,
{
    if n == instances.len() {
        assert(instances.take(n) == instances);
    } else {
        assert(instances.drop_last().take(n) == instances.take(n));
        lemma_error_persists(entry, instances.drop_last(), n);
    }
}

/// The version that an instance declares, where it declares one.
pub open spec fn declared_text(instance: InstanceView) -> Seq<char> {
    declared_version(instance)->Ok_0->0
}

/// Every instance of a removed kind is reported exactly once, as removed,
/// whatever its annotations hold: the findings of a listing are the removed
/// findings of its instances, one for each, in the order of the listing.
pub proof fn lemma_removed_kind_reports_every_instance(
    entry: EntryView,
    instances: Seq<InstanceView>,
)
    requires
        entry.removed,
    ensures
        unit_findings(entry, instances) == Ok::<Seq<FindingView>, ScanError>(
            instances.map_values(|instance: InstanceView| removed_finding(entry, instance)),
        ),
    decreases instances.len(),
{
    let report = |instance: InstanceView| removed_finding(entry, instance);
    if instances.len() == 0 {
        assert(instances.map_values(report) == Seq::<FindingView>::empty());
    } else {
        lemma_removed_kind_reports_every_instance(entry, instances.drop_last());
        assert(instances.map_values(report) == instances.drop_last().map_values(report).push(
            report(instances.last()),
        ));
    }
}

/// Where the kind is not removed, instances without the last-applied
/// annotation are not reported.
pub proof fn lemma_undeclared_instances_are_not_reported(
    entry: EntryView,
    instances: Seq<InstanceView>,
)
    requires
        !entry.removed,
        forall|i: int|
            0 <= i < instances.len() ==> !(#[trigger] instances[i]).annotations.contains_key(
                LAST_APPLIED_ANNOTATION@,
            ),
    ensures
        unit_findings(entry, instances) == Ok::<Seq<FindingView>, ScanError>(Seq::empty()),
    decreases instances.len(),
{
    if instances.len() > 0 {
        lemma_undeclared_instances_are_not_reported(entry, instances.drop_last());
    }
}

/// Where the kind is not removed, instances that declare the supported
/// version are not reported.
pub proof fn lemma_supported_instances_are_not_reported(
    entry: EntryView,
    instances: Seq<InstanceView>,
)
    requires
        !entry.removed,
        forall|i: int|
            0 <= i < instances.len() ==> declared_version(#[trigger] instances[i]) == Ok::<
                Option<Seq<char>>,
                ScanError,
            >(Some(supported_version(entry))),
    ensures
        unit_findings(entry, instances) == Ok::<Seq<FindingView>, ScanError>(Seq::empty()),
    decreases instances.len(),
{
    if instances.len() > 0 {
        lemma_supported_instances_are_not_reported(entry, instances.drop_last());
    }
}

/// Where the kind is not removed, every instance that declares another
/// version than the supported one is reported exactly once, with the
/// version it declares and the supported one: the findings of a listing of
/// such instances are their mismatch findings, one for each, in the order
/// of the listing.
pub proof fn lemma_mismatched_instances_are_reported_once(
    entry: EntryView,
    instances: Seq<InstanceView>,
)
    requires
        !entry.removed,
        forall|i: int|
            0 <= i < instances.len() ==> (declared_version(#[trigger] instances[i]) matches Ok(
                Some(version),
            ) && version != supported_version(entry)),
    ensures
        unit_findings(entry, instances) == Ok::<Seq<FindingView>, ScanError>(
            instances.map_values(
                |instance: InstanceView|
                    mismatch_finding(entry, instance, declared_text(instance)),
            ),
        ),
    decreases instances.len(),
{
    let report = |instance: InstanceView|
        mismatch_finding(entry, instance, declared_text(instance));
    if instances.len() == 0 {
        assert(instances.map_values(report) == Seq::<FindingView>::empty());
    } else {
        lemma_mismatched_instances_are_reported_once(entry, instances.drop_last());
        assert(instances.map_values(report) == instances.drop_last().map_values(report).push(
            report(instances.last()),
        ));
    }
}

/// What one instance adds to the findings of its unit: its finding, if it
/// is reported.
pub open spec fn reported(entry: EntryView, instance: InstanceView) -> Seq<FindingView> {
    match instance_verdict(entry, instance) {
        Ok(Some(finding)) => seq![finding],
        _ => Seq::empty(),
    }
}

/// The findings of a unit that does not fail are what its instances add,
/// one instance after the other: an instance adds its one finding or none,
/// whatever the other instances of the listing are.
pub proof fn lemma_findings_instance_by_instance(entry: EntryView, instances: Seq<InstanceView>)
    requires
        unit_findings(entry, instances) is Ok,
    ensures
        unit_findings(entry, instances)->Ok_0 == instances.map_values(
            |instance: InstanceView| reported(entry, instance),
        ).flatten(),
    decreases instances.len(),
{
    let adds = |instance: InstanceView| reported(entry, instance);
    if instances.len() > 0 {
        let front = instances.drop_last();
        lemma_findings_instance_by_instance(entry, front);
        front.map_values(adds).lemma_flatten_push(adds(instances.last()));
        assert(instances.map_values(adds) == front.map_values(adds).push(adds(instances.last())));
    }
}

/// A unit fails only with `MalformedAnnotation`, and only where the kind is
/// not removed and some listed instance carries an annotation that cannot
/// be read. Where there is such an instance the unit fails, and what it
/// found in other instances is dropped.
pub proof fn lemma_malformed_annotation_fails_unit(entry: EntryView, instances: Seq<InstanceView>)
    ensures
        unit_findings(entry, instances) is Err <==> !entry.removed && exists|i: int|
            0 <= i < instances.len() && declared_version(#[trigger] instances[i]) is Err,
        unit_findings(entry, instances) is Err ==> unit_findings(entry, instances) == Err::<
            Seq<FindingView>,
            ScanError,
        >(ScanError::MalformedAnnotation),
    decreases instances.len(),
{
    if instances.len() > 0 {
        let front = instances.drop_last();
        lemma_malformed_annotation_fails_unit(entry, front);
        assert forall|i: int| 0 <= i < front.len() implies instances[i] == front[i] by {}
    }
}

/// A failed listing does not fail its unit: the unit ends with no findings
/// and no error, and so leaves the findings of the other units alone.
pub proof fn lemma_list_failure_yields_nothing(entry: EntryView, descriptor: DescriptorView)
    ensures
        unit_outcome(entry, Ok(descriptor), Err(ScanError::ListFailure)) == Ok::<
            Seq<FindingView>,
            ScanError,
        >(Seq::empty()),
{
}

/// A kind that the server does not know ends its unit with no findings and
/// no error, while a connection error met when resolving is the unit's
/// outcome, whatever a listing would have held.
pub proof fn lemma_resolve_failures(entry: EntryView, listed: Result<Seq<InstanceView>, ScanError>)
    ensures
        unit_outcome(entry, Err(ScanError::KindNotFound), listed) == Ok::<
            Seq<FindingView>,
            ScanError,
        >(Seq::empty()),
        unit_outcome(entry, Err(ScanError::ConnectionError), listed) == Err::<
            Seq<FindingView>,
            ScanError,
        >(ScanError::ConnectionError),
{
}

/// Every error that ends a unit is fatal.
pub proof fn lemma_unit_errors_are_fatal(
    entry: EntryView,
    resolved: Result<DescriptorView, ScanError>,
    listed: Result<Seq<InstanceView>, ScanError>,
)
    ensures
        unit_outcome(entry, resolved, listed) matches Err(error) ==> error.is_fatal(),
{
    if let Ok(_) = resolved {
        if let Ok(instances) = listed {
            lemma_malformed_annotation_fails_unit(entry, instances);
        }
    }
}

/// Opens a unit: what to ask the resolver for.
pub fn resolve_request(entry: &DeprecationEntry) -> (request: ResolveRequest)
    ensures
        request.group@ == entry@.group,
        request.version@ == entry@.version,
        request.kind@ == entry@.kind,
{
    ResolveRequest {
        group: entry.group.clone(),
        version: entry.version.clone(),
        kind: entry.kind.clone(),
    }
}

/// Ends a unit on a failure of resolver or lister.
fn absorb(error: ScanError) -> (outcome: Result<Vec<Finding>, ScanError>)
    ensures
        outcome_view(outcome) == failure_outcome(error),
{
    if error.fatal() {
        Err(error)
    } else {
        let nothing: Vec<Finding> = Vec::new();
        assert(finding_views(nothing@) == Seq::<FindingView>::empty());
        Ok(nothing)
    }
}

/// Takes the resolver's answer.
///
/// A resolved kind is listed next. A kind that the server does not know
/// ends the unit with no findings, as any failure that is not fatal does. A
/// connection error, as any fatal failure, ends the unit with that error.
pub fn after_resolve(resolved: Result<ResourceDescriptor, ScanError>) -> (step: UnitStep)
    ensures
        match resolved {
            Ok(descriptor) => step == UnitStep::List(descriptor),
            Err(error) => step matches UnitStep::Finish(outcome) && outcome_view(outcome)
                == failure_outcome(error),
        },
{
    match resolved {
        Ok(descriptor) => UnitStep::List(descriptor),
        Err(error) => UnitStep::Finish(absorb(error)),
    }
}

/// Inspects the listed instances in order and collects what is found.
///
/// Fails with the error of the first instance that cannot be inspected;
/// what was found before it is dropped.
pub fn scan_instances(
    entry: &DeprecationEntry,
    instances: &Vec<ResourceInstance>,
) -> (outcome: Result<Vec<Finding>, ScanError>)
    ensures
        outcome_view(outcome) == unit_findings(entry@, instance_views(instances@)),
{
    let ghost listing = instance_views(instances@);
    let mut findings: Vec<Finding> = Vec::new();
    let mut i: usize = 0;
    assert(finding_views(findings@) == Seq::<FindingView>::empty());
    while i < instances.len()
        invariant
            i <= instances.len(),
            listing == instance_views(instances@),
            unit_findings(entry@, listing.take(i as int)) == Ok::<Seq<FindingView>, ScanError>(
                finding_views(findings@),
            ),
        decreases instances.len() - i,
    {
        assert(listing.take(i + 1).drop_last() == listing.take(i as int));
        let ghost before = findings@;
        match inspect(entry, &instances[i]) {
            Err(error) => {
                proof {
                    lemma_error_persists(entry@, listing, i + 1);
                }
                return Err(error);
            },
            Ok(Some(finding)) => {
                findings.push(finding);
                assert(finding_views(findings@) == finding_views(before).push(finding@));
            },
            Ok(None) => {},
        }
        i += 1;
    }
    assert(listing.take(i as int) == listing);
    Ok(findings)
}

/// Takes the lister's answer and closes the unit.
///
/// The listed instances are inspected in order. A list failure, as any
/// failure that is not fatal, counts as no instances and ends the unit with
/// no findings and no error.
pub fn after_list(
    entry: &DeprecationEntry,
    listed: Result<Vec<ResourceInstance>, ScanError>,
) -> (outcome: Result<Vec<Finding>, ScanError>)
    ensures
        outcome_view(outcome) == listing_outcome(entry@, listing_view(listed)),
{
    match listed {
        Ok(instances) => scan_instances(entry, &instances),
        Err(error) => absorb(error),
    }
}

} // verus!
