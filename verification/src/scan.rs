//! The scan orchestrator: one scan from the loading of the deprecation
//! table to the report.
//!
//! A scan starts idle. Once the table is loaded it runs one unit per entry,
//! and takes the outcomes of the units in the order in which they finish.
//! It completes with the report when the last unit has finished, and fails
//! on the first fatal error. The caller does the waiting: it hands each
//! event to `Scan::step` and does what the returned action says.

use crate::error::ScanError;
use crate::model::{
    entry_views, finding_views, DeprecationEntry, DescriptorView, EntryView, Finding,
    FindingView,
};
use crate::unit::{failure_outcome, outcome_view, unit_outcome};
use vstd::prelude::*;

verus! {

#[derive(Debug)]
enum State {
    Idle,
    Running { pending: usize, findings: Vec<Finding> },
    Completed { report: Vec<Finding> },
    Failed { error: ScanError },
}

/// The state of one scan.
#[derive(Debug)]
pub struct Scan {
    state: State,
}

/// A `Scan` as specifications see it.
pub enum ScanView {
    /// The table has not been loaded yet.
    Idle,
    /// `pending` units have not finished yet; `findings` is what the
    /// finished ones found, in the order in which they finished.
    Running { pending: nat, findings: Seq<FindingView> },
    /// Every unit has finished, none with a fatal error.
    Completed { report: Seq<FindingView> },
    /// The scan met a fatal error. It holds no findings.
    Failed { error: ScanError },
}

/// What happened outside the scan.
#[derive(Debug, PartialEq, Eq)]
pub enum ScanEvent {
    /// The deprecation table was loaded, with these entries.
    TableLoaded(Vec<DeprecationEntry>),
    /// The deprecation table could not be obtained.
    TableUnavailable,
    /// A unit finished, with this outcome.
    UnitFinished(Result<Vec<Finding>, ScanError>),
}

/// A `ScanEvent` as specifications see it.
pub enum EventView {
    TableLoaded(Seq<EntryView>),
    TableUnavailable,
    UnitFinished(Result<Seq<FindingView>, ScanError>),
}

/// What the caller of a scan does next.
#[derive(Debug, PartialEq, Eq)]
pub enum ScanAction {
    /// Load the deprecation table.
    LoadTable,
    /// Start one unit for each of these entries, then wait for a unit.
    Launch(Vec<DeprecationEntry>),
    /// Wait for the next unit to finish.
    Await,
    /// Stop waiting: the scan is over.
    Stop,
}

/// A `ScanAction` as specifications see it.
pub enum ActionView {
    LoadTable,
    Launch(Seq<EntryView>),
    Await,
    Stop,
}

impl View for Scan {
    type V = ScanView;

    closed spec fn view(&self) -> ScanView {
        match self.state {
            State::Idle => ScanView::Idle,
            State::Running { pending, findings } => ScanView::Running {
                pending: pending as nat,
                findings: finding_views(findings@),
            },
            State::Completed { report } => ScanView::Completed { report: finding_views(report@) },
            State::Failed { error } => ScanView::Failed { error },
        }
    }
}

impl View for ScanEvent {
    type V = EventView;

    open spec fn view(&self) -> EventView {
        match *self {
            ScanEvent::TableLoaded(entries) => EventView::TableLoaded(entry_views(entries@)),
            ScanEvent::TableUnavailable => EventView::TableUnavailable,
            ScanEvent::UnitFinished(outcome) => EventView::UnitFinished(outcome_view(outcome)),
        }
    }
}

impl View for ScanAction {
    type V = ActionView;

    open spec fn view(&self) -> ActionView {
        match *self {
            ScanAction::LoadTable => ActionView::LoadTable,
            ScanAction::Launch(entries) => ActionView::Launch(entry_views(entries@)),
            ScanAction::Await => ActionView::Await,
            ScanAction::Stop => ActionView::Stop,
        }
    }
}

/// What a unit's outcome counts as in the scan: an error that is not fatal
/// counts as nothing found.
pub open spec fn settled(outcome: Result<Seq<FindingView>, ScanError>) -> Result<
    Seq<FindingView>,
    ScanError,
> {
    match outcome {
        Ok(findings) => Ok(findings),
        Err(error) => failure_outcome(error),
    }
}

/// The state of a scan after an event.
///
/// An idle scan takes the table: it fails if there is none, completes at
/// once with an empty report if the table is empty, and else runs one unit
/// per entry. A running scan takes the outcomes of its units: it fails on a
/// fatal error, dropping what was found, and else appends the unit's
/// findings and completes when no unit is pending. An event that the state
/// does not wait for changes nothing; a completed or failed scan never
/// changes.
pub open spec fn next_state(state: ScanView, event: EventView) -> ScanView {
    match (state, event) {
        (ScanView::Idle, EventView::TableUnavailable) => ScanView::Failed {
            error: ScanError::SourceUnavailable,
        },
        (ScanView::Idle, EventView::TableLoaded(entries)) => if entries.len() == 0 {
            ScanView::Completed { report: Seq::empty() }
        } else {
            ScanView::Running { pending: entries.len(), findings: Seq::empty() }
        },
        (ScanView::Running { pending, findings }, EventView::UnitFinished(outcome)) => {
            match settled(outcome) {
                Err(error) => ScanView::Failed { error },
                Ok(found) => if pending <= 1 {
                    ScanView::Completed { report: findings + found }
                } else {
                    ScanView::Running { pending: (pending - 1) as nat, findings: findings + found }
                },
            }
        },
        _ => state,
    }
}

/// What a scan in a given state waits for.
pub open spec fn pending_action(state: ScanView) -> ActionView {
    match state {
        ScanView::Idle => ActionView::LoadTable,
        ScanView::Running { .. } => ActionView::Await,
        ScanView::Completed { .. } => ActionView::Stop,
        ScanView::Failed { .. } => ActionView::Stop,
    }
}

/// What the caller does after an event: launch the units when an idle scan
/// took a table with entries, and else what the new state waits for.
pub open spec fn next_action(state: ScanView, event: EventView) -> ActionView {
    match (state, event) {
        (ScanView::Idle, EventView::TableLoaded(entries)) => if entries.len() == 0 {
            ActionView::Stop
        } else {
            ActionView::Launch(entries)
        },
        _ => pending_action(next_state(state, event)),
    }
}

/// The outcomes of units, in the order in which they finished.
pub type Outcomes = Seq<Result<Seq<FindingView>, ScanError>>;

/// The state of a scan once its units have finished with these outcomes,
/// in this order.
pub open spec fn after_units(state: ScanView, outcomes: Outcomes) -> ScanView
    decreases outcomes.len(),
{
    if outcomes.len() == 0 {
        state
    } else {
        next_state(
            after_units(state, outcomes.drop_last()),
            EventView::UnitFinished(outcomes.last()),
        )
    }
}

/// What the units found, outcome after outcome. A unit that ended in an
/// error adds nothing.
pub open spec fn collected(outcomes: Outcomes) -> Seq<FindingView>
    decreases outcomes.len(),
{
    if outcomes.len() == 0 {
        Seq::empty()
    } else {
        collected(outcomes.drop_last()) + match outcomes.last() {
            Ok(found) => found,
            Err(_) => Seq::empty(),
        }
    }
}

/// The first fatal error among the outcomes, if there is one.
pub open spec fn first_fatal(outcomes: Outcomes) -> Option<ScanError>
    decreases outcomes.len(),
{
    if outcomes.len() == 0 {
        None
    } else {
        match first_fatal(outcomes.drop_last()) {
            Some(error) => Some(error),
            None => match outcomes.last() {
                Err(error) => if error.is_fatal() {
                    Some(error)
                } else {
                    None
                },
                Ok(_) => None,
            },
        }
    }
}

/// How a running scan ends up: failed with the first fatal error that a
/// unit ended in, if there is one; else completed with all that was found
/// once the last pending unit has finished, and running until then.
pub proof fn lemma_running_scan(pending: nat, findings: Seq<FindingView>, outcomes: Outcomes)
    requires
        outcomes.len() <= pending,
        pending >= 1,
    ensures
        after_units(ScanView::Running { pending, findings }, outcomes) == match first_fatal(
            outcomes,
        ) {
            Some(error) => ScanView::Failed { error },
            None => if outcomes.len() == pending {
                ScanView::Completed { report: findings + collected(outcomes) }
            } else {
                ScanView::Running {
                    pending: (pending - outcomes.len()) as nat,
                    findings: findings + collected(outcomes),
                }
            },
        },
    decreases outcomes.len(),
{
    if outcomes.len() > 0 {
        lemma_running_scan(pending, findings, outcomes.drop_last());
        let found = match outcomes.last() {
            Ok(found) => found,
            Err(_) => Seq::empty(),
        };
        assert(findings + collected(outcomes) == (findings + collected(outcomes.drop_last()))
            + found);
    }
}

/// The first fatal error is the error of the earliest unit that ended in a
/// fatal error.
pub proof fn lemma_first_fatal(outcomes: Outcomes)
    ensures
        match first_fatal(outcomes) {
            Some(error) => exists|k: int|
                0 <= k < outcomes.len() && #[trigger] outcomes[k] == Err::<
                    Seq<FindingView>,
                    ScanError,
                >(error) && error.is_fatal() && first_fatal(outcomes.take(k)) is None,
            None => forall|k: int|
                0 <= k < outcomes.len() ==> ((#[trigger] outcomes[k]) matches Err(error)
                    ==> !error.is_fatal()),
        },
    decreases outcomes.len(),
{
    if outcomes.len() > 0 {
        let front = outcomes.drop_last();
        lemma_first_fatal(front);
        match first_fatal(front) {
            Some(error) => {
                let k = choose|k: int|
                    0 <= k < front.len() && #[trigger] front[k] == Err::<
                        Seq<FindingView>,
                        ScanError,
                    >(error) && error.is_fatal() && first_fatal(front.take(k)) is None;
                assert(outcomes.take(k) == front.take(k));
            },
            None => {
                assert forall|k: int| 0 <= k < front.len() implies outcomes[k] == front[k] by {}
            },
        }
    }
}

/// What was collected holds every finding of every unit.
pub proof fn lemma_collected_holds_all(outcomes: Outcomes, k: int, i: int)
    requires
        0 <= k < outcomes.len(),
        outcomes[k] is Ok,
        0 <= i < outcomes[k]->Ok_0.len(),
    ensures
        collected(outcomes).contains(outcomes[k]->Ok_0[i]),
    decreases outcomes.len(),
{
    let front = collected(outcomes.drop_last());
    if k == outcomes.len() - 1 {
        assert(collected(outcomes)[front.len() + i] == outcomes[k]->Ok_0[i]);
    } else {
        lemma_collected_holds_all(outcomes.drop_last(), k, i);
        let at = choose|at: int| 0 <= at < front.len() && front[at] == outcomes[k]->Ok_0[i];
        assert(collected(outcomes)[at] == front[at]);
    }
}

/// A unit that found nothing can be left out of what was collected.
pub proof fn lemma_collected_without(outcomes: Outcomes, k: int)
    requires
        0 <= k < outcomes.len(),
        outcomes[k] is Err || outcomes[k] == Ok::<Seq<FindingView>, ScanError>(Seq::empty()),
    ensures
        collected(outcomes) == collected(outcomes.remove(k)),
    decreases outcomes.len(),
{
    if k < outcomes.len() - 1 {
        lemma_collected_without(outcomes.drop_last(), k);
        assert(outcomes.remove(k).drop_last() == outcomes.drop_last().remove(k));
    }
}

/// A failed listing for one entry keeps no finding of another entry out of
/// the report.
///
/// Let a scan run one unit per entry, and let every unit have finished, none
/// with a fatal error. If the listing of one unit failed, the scan still
/// completes, and its report is what the other units found, in the order in
/// which they finished: every finding of every other unit is in it.
pub proof fn lemma_list_failure_is_isolated(
    entries: Seq<EntryView>,
    outcomes: Outcomes,
    k: int,
    entry: EntryView,
    descriptor: DescriptorView,
)
    requires
        outcomes.len() == entries.len(),
        0 <= k < outcomes.len(),
        outcomes[k] == unit_outcome(entry, Ok(descriptor), Err(ScanError::ListFailure)),
        forall|j: int|
            0 <= j < outcomes.len() ==> ((#[trigger] outcomes[j]) matches Err(error)
                ==> !error.is_fatal()),
    ensures
        after_units(next_state(ScanView::Idle, EventView::TableLoaded(entries)), outcomes)
            == (ScanView::Completed { report: collected(outcomes.remove(k)) }),
        forall|j: int, i: int|
            0 <= j < outcomes.len() && outcomes[j] is Ok && 0 <= i < outcomes[j]->Ok_0.len()
                ==> collected(outcomes.remove(k)).contains(#[trigger] outcomes[j]->Ok_0[i]),
{
    lemma_first_fatal(outcomes);
    lemma_running_scan(entries.len(), Seq::empty(), outcomes);
    lemma_collected_without(outcomes, k);
    let report = collected(outcomes.remove(k));
    assert forall|j: int, i: int|
        0 <= j < outcomes.len() && outcomes[j] is Ok && 0 <= i < outcomes[j]->Ok_0.len()
        implies report.contains(#[trigger] outcomes[j]->Ok_0[i]) by {
        lemma_collected_holds_all(outcomes, j, i);
    }
}

/// A fatal error in any unit fails the scan, and no report is produced.
///
/// Let a scan run one unit per entry. If a unit ended in a fatal error, as
/// `ConnectionError` and `MalformedAnnotation` are, the scan has failed,
/// however many of the other units have finished and whatever they found.
/// Its error is the first fatal error that a unit ended in.
pub proof fn lemma_fatal_error_fails_scan(
    entries: Seq<EntryView>,
    outcomes: Outcomes,
    k: int,
    error: ScanError,
)
    requires
        outcomes.len() <= entries.len(),
        0 <= k < outcomes.len(),
        outcomes[k] == Err::<Seq<FindingView>, ScanError>(error),
        error.is_fatal(),
    ensures
        first_fatal(outcomes) is Some,
        after_units(next_state(ScanView::Idle, EventView::TableLoaded(entries)), outcomes)
            == (ScanView::Failed { error: first_fatal(outcomes)->0 }),
        ScanError::ConnectionError.is_fatal(),
        ScanError::MalformedAnnotation.is_fatal(),
{
    lemma_first_fatal(outcomes);
    lemma_running_scan(entries.len(), Seq::empty(), outcomes);
}

/// A scan fails only on a fatal error: an error that is not fatal never
/// reaches the caller.
pub proof fn lemma_scan_fails_only_fatally(entries: Seq<EntryView>, outcomes: Outcomes)
    requires
        outcomes.len() <= entries.len(),
    ensures
        after_units(
            next_state(ScanView::Idle, EventView::TableLoaded(entries)),
            outcomes,
        ) matches ScanView::Failed { error } ==> error.is_fatal() && first_fatal(outcomes) == Some(
            error,
        ),
{
    lemma_first_fatal(outcomes);
    if outcomes.len() > 0 {
        lemma_running_scan(entries.len(), Seq::empty(), outcomes);
    }
}

/// A scan whose units all found nothing completes with an empty report.
pub proof fn lemma_nothing_found(entries: Seq<EntryView>, outcomes: Outcomes)
    requires
        outcomes.len() == entries.len(),
        forall|k: int|
            0 <= k < outcomes.len() ==> #[trigger] outcomes[k] == Ok::<
                Seq<FindingView>,
                ScanError,
            >(Seq::empty()),
    ensures
        after_units(next_state(ScanView::Idle, EventView::TableLoaded(entries)), outcomes)
            == (ScanView::Completed { report: Seq::empty() }),
{
    lemma_first_fatal(outcomes);
    if outcomes.len() > 0 {
        lemma_running_scan(entries.len(), Seq::empty(), outcomes);
        lemma_collected_nothing(outcomes);
    }
}

/// Units that all found nothing add up to nothing.
proof fn lemma_collected_nothing(outcomes: Outcomes)
    requires
        forall|k: int|
            0 <= k < outcomes.len() ==> #[trigger] outcomes[k] == Ok::<
                Seq<FindingView>,
                ScanError,
            >(Seq::empty()),
    ensures
        collected(outcomes) == Seq::<FindingView>::empty(),
    decreases outcomes.len(),
{
    if outcomes.len() > 0 {
        lemma_collected_nothing(outcomes.drop_last());
    }
}

impl Scan {
    /// An idle scan, which waits for the deprecation table.
    pub fn new() -> (scan: Scan)
        ensures
            scan@ == ScanView::Idle,
    {
        Scan { state: State::Idle }
    }

    /// Whether the scan has completed or failed.
    pub fn is_over(&self) -> (over: bool)
        ensures
            over == (self@ is Completed || self@ is Failed),
    {
        match &self.state {
            State::Idle => false,
            State::Running { .. } => false,
            State::Completed { .. } => true,
            State::Failed { .. } => true,
        }
    }

    /// Takes an event, and says what to do next.
    pub fn step(self, event: ScanEvent) -> (next: (Scan, ScanAction))
        ensures
            next.0@ == next_state(self@, event@),
            next.1@ == next_action(self@, event@),
    {
        match self.state {
            State::Idle => match event {
                ScanEvent::TableUnavailable => (
                    Scan { state: State::Failed { error: ScanError::SourceUnavailable } },
                    ScanAction::Stop,
                ),
                ScanEvent::TableLoaded(entries) => {
                    let report: Vec<Finding> = Vec::new();
                    assert(finding_views(report@) == Seq::<FindingView>::empty());
                    if entries.len() == 0 {
                        (Scan { state: State::Completed { report } }, ScanAction::Stop)
                    } else {
                        let state = State::Running { pending: entries.len(), findings: report };
                        (Scan { state }, ScanAction::Launch(entries))
                    }
                },
                ScanEvent::UnitFinished(_) => (Scan { state: State::Idle }, ScanAction::LoadTable),
            },
            State::Running { pending, findings } => match event {
                ScanEvent::UnitFinished(Ok(found)) => Self::collect(pending, findings, found),
                ScanEvent::UnitFinished(Err(error)) => {
                    if error.fatal() {
                        (Scan { state: State::Failed { error } }, ScanAction::Stop)
                    } else {
                        Self::collect(pending, findings, Vec::new())
                    }
                },
                _ => (Scan { state: State::Running { pending, findings } }, ScanAction::Await),
            },
            State::Completed { report } => (
                Scan { state: State::Completed { report } },
                ScanAction::Stop,
            ),
            State::Failed { error } => (Scan { state: State::Failed { error } }, ScanAction::Stop),
        }
    }

    /// Appends what a unit found, and completes the scan if it was the last.
    fn collect(pending: usize, findings: Vec<Finding>, found: Vec<Finding>) -> (next: (
        Scan,
        ScanAction,
    ))
        ensures
            next.0@ == next_state(
                ScanView::Running { pending: pending as nat, findings: finding_views(findings@) },
                EventView::UnitFinished(Ok(finding_views(found@))),
            ),
            next.1@ == pending_action(next.0@),
    {
        let mut findings = findings;
        let mut found = found;
        let ghost before = findings@;
        let ghost added = found@;
        findings.append(&mut found);
        assert(finding_views(findings@) == finding_views(before) + finding_views(added));
        if pending <= 1 {
            (Scan { state: State::Completed { report: findings } }, ScanAction::Stop)
        } else {
            (Scan { state: State::Running { pending: pending - 1, findings } }, ScanAction::Await)
        }
    }

    /// The result of a scan that is over: the report of a completed scan,
    /// the error of a failed one. `None` for a scan that is not over.
    pub fn into_outcome(self) -> (outcome: Option<Result<Vec<Finding>, ScanError>>)
        ensures
            match self@ {
                ScanView::Completed { report } => outcome matches Some(Ok(findings))
                    && finding_views(findings@) == report,
                ScanView::Failed { error } => outcome == Some(
                    Err::<Vec<Finding>, ScanError>(error),
                ),
                _ => outcome is None,
            },
    {
        match self.state {
            State::Completed { report } => Some(Ok(report)),
            State::Failed { error } => Some(Err(error)),
            _ => None,
        }
    }
}

} // verus!
