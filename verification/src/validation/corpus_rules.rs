//! Rules on a corpus of documents: how workflows refer to the slices,
//! views, boards and outcomes that other documents define.

use vstd::prelude::*;

use crate::text::{chars_of, contains_chars, contains_seq, lower_chars, lower_seq};
use crate::validation::board::slug_matches;
use crate::validation::board::name_has_slug;
use crate::validation::board_graph::{board_slice_has_disconnected_elements, disconnected};
use crate::validation::corpus_lookup::{
    application_entry_slice_by_slug, board_by_slug, board_slice_by_slug, first_issue_in_corpus,
    slice_by_slug, view_by_name, view_definition_by_name,
};
use crate::validation::find::{
    first_issue_with2, first_issue_with3, first_with, into_result, issue_of, issue_view,
    lemma_first_with_step, msg3, msg4, msg5, msg7, or_else,
};
use crate::validation::model::{
    EventModelDocument, OutcomeDefinition, SliceDefinition, SliceScenario, SliceType,
    WorkflowCommandTransition, WorkflowEventTransition, WorkflowExitRationale,
    WorkflowExitTransition, WorkflowExternalTriggerTransition, WorkflowNavigationTransition,
    WorkflowStep, WorkflowStepLifecycleRole, WorkflowStepRelationship,
};
use crate::validation::names::{contains_name, has_name, DefinitionName, ValidationIssue};
use crate::validation::rules_connections::{view_invokes, view_invokes_command};
use crate::validation::rules_views::view_exists;

verus! {

// ---- application entry slices cover every entry state ----

/// Whether the scenario's name or a step reference, lower-cased, contains `t`.
pub open spec fn references_text(scenario: SliceScenario, t: Seq<char>) -> bool {
    contains_seq(lower_seq(scenario.name@), t) || exists|i: int|
        0 <= i < scenario.scenario_step_references@.len() && contains_seq(
            lower_seq(#[trigger] scenario.scenario_step_references@[i]@),
            t,
        )
}

fn definition_name_contains(n: &DefinitionName, t: &str) -> (r: bool)
    ensures
        r == contains_seq(lower_seq(n@), t@),
{
    let lower = lower_chars(&chars_of(n.as_str()));
    contains_chars(&lower, &chars_of(t))
}

fn scenario_references_text(scenario: &SliceScenario, t: &str) -> (r: bool)
    ensures
        r == references_text(*scenario, t@),
{
    if definition_name_contains(&scenario.name, t) {
        return true;
    }
    let refs = &scenario.scenario_step_references;
    let mut i: usize = 0;
    while i < refs.len()
        invariant
            i <= refs@.len(),
            refs@ == scenario.scenario_step_references@,
            forall|j: int| 0 <= j < i ==> !contains_seq(lower_seq(#[trigger] refs@[j]@), t@),
        decreases refs.len() - i,
    {
        if definition_name_contains(&refs[i], t) {
            return true;
        }
        i = i + 1;
    }
    false
}

/// Whether a scenario of the slice references the entry state `t`.
pub open spec fn covers_state(slice: SliceDefinition, t: Seq<char>) -> bool {
    exists|i: int| 0 <= i < slice.scenarios@.len() && references_text(#[trigger] slice.scenarios@[i], t)
}

fn slice_covers_state(slice: &SliceDefinition, t: &str) -> (r: bool)
    ensures
        r == covers_state(*slice, t@),
{
    let scenarios = &slice.scenarios;
    let mut i: usize = 0;
    while i < scenarios.len()
        invariant
            i <= scenarios@.len(),
            scenarios@ == slice.scenarios@,
            forall|j: int| 0 <= j < i ==> !references_text(#[trigger] scenarios@[j], t@),
        decreases scenarios.len() - i,
    {
        if scenario_references_text(&scenarios[i], t) {
            return true;
        }
        i = i + 1;
    }
    false
}

pub open spec fn state_gap(slice: SliceDefinition, t: Seq<char>) -> Option<Seq<char>> {
    if covers_state(slice, t) {
        None
    } else {
        Some(t)
    }
}

/// The first entry state, in the order of an application's life, that no
/// scenario of the slice covers.
pub open spec fn missing_entry_state(slice: SliceDefinition) -> Option<Seq<char>> {
    or_else(
        state_gap(slice, "fresh and uninitialized"@),
        or_else(
            state_gap(slice, "already initialized and unauthenticated"@),
            or_else(
                state_gap(slice, "already initialized and authenticated"@),
                or_else(
                    state_gap(slice, "partially configured"@),
                    state_gap(slice, "fully configured"@),
                ),
            ),
        ),
    )
}

fn missing_application_entry_state(slice: &SliceDefinition) -> (r: Option<&'static str>)
    ensures
        match r {
            Some(t) => missing_entry_state(*slice) == Some(t@),
            None => missing_entry_state(*slice) is None,
        },
{
    if !slice_covers_state(slice, "fresh and uninitialized") {
        Some("fresh and uninitialized")
    } else if !slice_covers_state(slice, "already initialized and unauthenticated") {
        Some("already initialized and unauthenticated")
    } else if !slice_covers_state(slice, "already initialized and authenticated") {
        Some("already initialized and authenticated")
    } else if !slice_covers_state(slice, "partially configured") {
        Some("partially configured")
    } else if !slice_covers_state(slice, "fully configured") {
        Some("fully configured")
    } else {
        None
    }
}

pub open spec fn entry_step_uncovered() -> spec_fn(Seq<EventModelDocument>, WorkflowStep) -> Option<Seq<char>> {
    |docs: Seq<EventModelDocument>, step: WorkflowStep|
        if step.lifecycle_role == WorkflowStepLifecycleRole::ApplicationEntryStateView {
            match slice_by_slug(docs, step.slice@) {
                Some(slice) => match missing_entry_state(slice) {
                    Some(t) => Some(
                        "application entry slice '"@ + step.slice@ + "' must cover "@ + t + " state"@,
                    ),
                    None => None,
                },
                None => None,
            }
        } else {
            None
        }
}

pub open spec fn doc_entry_uncovered() -> spec_fn(Seq<EventModelDocument>, EventModelDocument) -> Option<
    Seq<char>,
> {
    |docs: Seq<EventModelDocument>, doc: EventModelDocument|
        first_with(docs, doc.workflow_steps@, entry_step_uncovered())
}

pub open spec fn entry_state_coverage_issue(docs: Seq<EventModelDocument>) -> Option<Seq<char>> {
    first_with(docs, docs, doc_entry_uncovered())
}

fn check_entry_step(docs: &[EventModelDocument], step: &WorkflowStep) -> (r: Option<ValidationIssue>)
    ensures
        issue_view(r) == entry_step_uncovered()(docs@, *step),
{
    if step.lifecycle_role == WorkflowStepLifecycleRole::ApplicationEntryStateView {
        match application_entry_slice_by_slug(docs, &step.slice) {
            Some(slice) => match missing_application_entry_state(slice) {
                Some(t) => Some(
                    msg5("application entry slice '", step.slice.as_str(), "' must cover ", t, " state"),
                ),
                None => None,
            },
            None => None,
        }
    } else {
        None
    }
}

fn check_doc_entry(docs: &[EventModelDocument], doc: &EventModelDocument) -> (r: Option<ValidationIssue>)
    ensures
        issue_view(r) == doc_entry_uncovered()(docs@, *doc),
{
    first_issue_in_corpus(docs, &doc.workflow_steps, check_entry_step, Ghost(entry_step_uncovered()))
}

pub fn validate_application_entry_state_coverage(docs: &[EventModelDocument]) -> (r: Result<
    (),
    ValidationIssue,
>)
    ensures
        issue_of(r) == entry_state_coverage_issue(docs@),
{
    into_result(first_issue_in_corpus(docs, docs, check_doc_entry, Ghost(doc_entry_uncovered())))
}

// ---- transitions refer to what their slices define ----

/// The lists of a slice that workflow transitions refer to.
#[derive(Debug, Clone, Copy, PartialEq, Eq, Structural)]
pub enum SliceList {
    Events,
    Commands,
    ExternalTriggers,
    Views,
}

pub open spec fn slice_list(slice: SliceDefinition, which: SliceList) -> Seq<DefinitionName> {
    match which {
        SliceList::Events => slice.owned_events@,
        SliceList::Commands => slice.issued_commands@,
        SliceList::ExternalTriggers => slice.external_triggers@,
        SliceList::Views => slice.owned_views@,
    }
}

/// Whether the slice with slug `slug` lists `n`.
pub open spec fn slug_slice_lists(docs: Seq<EventModelDocument>, slug: Seq<char>, n: Seq<char>, which: SliceList) -> bool {
    match slice_by_slug(docs, slug) {
        Some(slice) => has_name(slice_list(slice, which), n),
        None => false,
    }
}

pub fn slug_slice_has(docs: &[EventModelDocument], slug: &DefinitionName, n: &DefinitionName, which: SliceList) -> (r:
    bool)
    ensures
        r == slug_slice_lists(docs@, slug@, n@, which),
{
    match application_entry_slice_by_slug(docs, slug) {
        Some(slice) => {
            let list = match which {
                SliceList::Events => &slice.owned_events,
                SliceList::Commands => &slice.issued_commands,
                SliceList::ExternalTriggers => &slice.external_triggers,
                SliceList::Views => &slice.owned_views,
            };
            contains_name(list, n)
        },
        None => false,
    }
}

pub open spec fn event_transition_unshared() -> spec_fn(Seq<EventModelDocument>, WorkflowEventTransition) -> Option<
    Seq<char>,
> {
    |docs: Seq<EventModelDocument>, t: WorkflowEventTransition|
        if !slug_slice_lists(docs, t.source_slice@, t.event@, SliceList::Events) && !slug_slice_lists(
            docs,
            t.target_slice@,
            t.event@,
            SliceList::Events,
        ) {
            Some("transition event '"@ + t.event@ + "' is not shared by source and target slices"@)
        } else {
            None
        }
}

pub open spec fn event_transition_unavailable() -> spec_fn(Seq<EventModelDocument>, WorkflowEventTransition) -> Option<
    Seq<char>,
> {
    |docs: Seq<EventModelDocument>, t: WorkflowEventTransition|
        if !slug_slice_lists(docs, t.source_slice@, t.event@, SliceList::Events) {
            Some(
                "transition event '"@ + t.event@ + "' is not available from source slice '"@
                    + t.source_slice@ + "'"@,
            )
        } else {
            None
        }
}

pub open spec fn event_transition_not_accepted() -> spec_fn(Seq<EventModelDocument>, WorkflowEventTransition) -> Option<
    Seq<char>,
> {
    |docs: Seq<EventModelDocument>, t: WorkflowEventTransition|
        if !slug_slice_lists(docs, t.target_slice@, t.event@, SliceList::Events) {
            Some(
                "transition event '"@ + t.event@ + "' is not accepted by target slice '"@
                    + t.target_slice@ + "'"@,
            )
        } else {
            None
        }
}

pub open spec fn doc_event_transition(f: spec_fn(Seq<EventModelDocument>, WorkflowEventTransition) -> Option<Seq<char>>) -> spec_fn(
    Seq<EventModelDocument>,
    EventModelDocument,
) -> Option<Seq<char>> {
    |docs: Seq<EventModelDocument>, doc: EventModelDocument| first_with(docs, doc.workflow_event_transitions@, f)
}

pub open spec fn unshared_event_issue(docs: Seq<EventModelDocument>) -> Option<Seq<char>> {
    first_with(docs, docs, doc_event_transition(event_transition_unshared()))
}

pub open spec fn unavailable_event_issue(docs: Seq<EventModelDocument>) -> Option<Seq<char>> {
    first_with(docs, docs, doc_event_transition(event_transition_unavailable()))
}

pub open spec fn not_accepted_event_issue(docs: Seq<EventModelDocument>) -> Option<Seq<char>> {
    first_with(docs, docs, doc_event_transition(event_transition_not_accepted()))
}

fn check_unshared(docs: &[EventModelDocument], t: &WorkflowEventTransition) -> (r: Option<ValidationIssue>)
    ensures
        issue_view(r) == event_transition_unshared()(docs@, *t),
{
    if !slug_slice_has(docs, &t.source_slice, &t.event, SliceList::Events) && !slug_slice_has(
        docs,
        &t.target_slice,
        &t.event,
        SliceList::Events,
    ) {
        Some(msg3("transition event '", t.event.as_str(), "' is not shared by source and target slices"))
    } else {
        None
    }
}

fn check_unavailable(docs: &[EventModelDocument], t: &WorkflowEventTransition) -> (r: Option<ValidationIssue>)
    ensures
        issue_view(r) == event_transition_unavailable()(docs@, *t),
{
    if !slug_slice_has(docs, &t.source_slice, &t.event, SliceList::Events) {
        Some(
            msg5(
                "transition event '",
                t.event.as_str(),
                "' is not available from source slice '",
                t.source_slice.as_str(),
                "'",
            ),
        )
    } else {
        None
    }
}

fn check_not_accepted(docs: &[EventModelDocument], t: &WorkflowEventTransition) -> (r: Option<ValidationIssue>)
    ensures
        issue_view(r) == event_transition_not_accepted()(docs@, *t),
{
    if !slug_slice_has(docs, &t.target_slice, &t.event, SliceList::Events) {
        Some(
            msg5(
                "transition event '",
                t.event.as_str(),
                "' is not accepted by target slice '",
                t.target_slice.as_str(),
                "'",
            ),
        )
    } else {
        None
    }
}

fn check_doc_unshared(docs: &[EventModelDocument], doc: &EventModelDocument) -> (r: Option<ValidationIssue>)
    ensures
        issue_view(r) == doc_event_transition(event_transition_unshared())(docs@, *doc),
{
    first_issue_in_corpus(docs, &doc.workflow_event_transitions, check_unshared, Ghost(event_transition_unshared()))
}

fn check_doc_unavailable(docs: &[EventModelDocument], doc: &EventModelDocument) -> (r: Option<
    ValidationIssue,
>)
    ensures
        issue_view(r) == doc_event_transition(event_transition_unavailable())(docs@, *doc),
{
    first_issue_in_corpus(
        docs,
        &doc.workflow_event_transitions,
        check_unavailable,
        Ghost(event_transition_unavailable()),
    )
}

fn check_doc_not_accepted(docs: &[EventModelDocument], doc: &EventModelDocument) -> (r: Option<
    ValidationIssue,
>)
    ensures
        issue_view(r) == doc_event_transition(event_transition_not_accepted())(docs@, *doc),
{
    first_issue_in_corpus(
        docs,
        &doc.workflow_event_transitions,
        check_not_accepted,
        Ghost(event_transition_not_accepted()),
    )
}

pub fn validate_unshared_workflow_event_transitions(docs: &[EventModelDocument]) -> (r: Result<
    (),
    ValidationIssue,
>)
    ensures
        issue_of(r) == unshared_event_issue(docs@),
{
    into_result(
        first_issue_in_corpus(docs, docs, check_doc_unshared, Ghost(doc_event_transition(event_transition_unshared()))),
    )
}

pub fn validate_workflow_event_transitions_available_from_source(docs: &[EventModelDocument]) -> (r:
    Result<(), ValidationIssue>)
    ensures
        issue_of(r) == unavailable_event_issue(docs@),
{
    into_result(
        first_issue_in_corpus(
            docs,
            docs,
            check_doc_unavailable,
            Ghost(doc_event_transition(event_transition_unavailable())),
        ),
    )
}

pub fn validate_workflow_event_transitions_accepted_by_target(docs: &[EventModelDocument]) -> (r:
    Result<(), ValidationIssue>)
    ensures
        issue_of(r) == not_accepted_event_issue(docs@),
{
    into_result(
        first_issue_in_corpus(
            docs,
            docs,
            check_doc_not_accepted,
            Ghost(doc_event_transition(event_transition_not_accepted())),
        ),
    )
}

} // verus!
