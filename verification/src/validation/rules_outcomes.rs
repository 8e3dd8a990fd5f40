//! Rules on outcomes, event definitions and the given streams of
//! state-change scenarios.

use vstd::prelude::*;

use crate::validation::find::{
    first_issue_with, first_issue_with2, first_with, into_result, issue_of, issue_view,
    lemma_first_with_step, msg3, msg5, msg7,
};
use crate::validation::lists::{
    event_def, event_definition, first_not_in_list, first_not_in_set, first_repeated,
    first_repeated_name, not_in_list, not_in_set, same_names,
};
use crate::validation::model::{
    EventDefinition, EventModelDocument, OutcomeDefinition, SliceDefinition, SliceScenario,
    SliceType,
};
use crate::validation::names::{contains_name, has_name, name_views, DefinitionName, ValidationIssue};

verus! {

// ---- outcome labels are unique within a slice ----

pub open spec fn slice_duplicate_label() -> spec_fn(EventModelDocument, SliceDefinition) -> Option<
    Seq<char>,
> {
    |doc: EventModelDocument, slice: SliceDefinition|
        match first_repeated_name(slice.outcome_labels@, 0) {
            Some(l) => Some("slice '"@ + slice.name@ + "' has duplicate outcome label '"@ + l + "'"@),
            None => None,
        }
}

pub open spec fn duplicate_outcome_label_issue(doc: EventModelDocument) -> Option<Seq<char>> {
    first_with(doc, doc.slice_definitions@, slice_duplicate_label())
}

fn check_duplicate_label(doc: &EventModelDocument, slice: &SliceDefinition) -> (r: Option<
    ValidationIssue,
>)
    ensures
        issue_view(r) == slice_duplicate_label()(*doc, *slice),
{
    match first_repeated(&slice.outcome_labels) {
        Some(l) => Some(
            msg5("slice '", slice.name.as_str(), "' has duplicate outcome label '", l.as_str(), "'"),
        ),
        None => None,
    }
}

pub fn validate_duplicate_outcome_labels(doc: &EventModelDocument) -> (r: Result<(), ValidationIssue>)
    ensures
        issue_of(r) == duplicate_outcome_label_issue(*doc),
{
    into_result(
        first_issue_with(doc, &doc.slice_definitions, check_duplicate_label, Ghost(slice_duplicate_label())),
    )
}

// ---- every outcome declares events ----

pub open spec fn outcome_without_events() -> spec_fn(SliceDefinition, OutcomeDefinition) -> Option<
    Seq<char>,
> {
    |slice: SliceDefinition, outcome: OutcomeDefinition|
        if outcome.events@.len() == 0 {
            Some("outcome '"@ + outcome.label@ + "' must declare at least one event"@)
        } else {
            None
        }
}

pub open spec fn slice_outcome_without_events() -> spec_fn(EventModelDocument, SliceDefinition) -> Option<
    Seq<char>,
> {
    |doc: EventModelDocument, slice: SliceDefinition|
        first_with(slice, slice.outcomes@, outcome_without_events())
}

pub open spec fn empty_outcome_issue(doc: EventModelDocument) -> Option<Seq<char>> {
    first_with(doc, doc.slice_definitions@, slice_outcome_without_events())
}

fn check_outcome_events(slice: &SliceDefinition, outcome: &OutcomeDefinition) -> (r: Option<
    ValidationIssue,
>)
    ensures
        issue_view(r) == outcome_without_events()(*slice, *outcome),
{
    if outcome.events.len() == 0 {
        Some(msg3("outcome '", outcome.label.as_str(), "' must declare at least one event"))
    } else {
        None
    }
}

fn check_slice_outcome_events(doc: &EventModelDocument, slice: &SliceDefinition) -> (r: Option<
    ValidationIssue,
>)
    ensures
        issue_view(r) == slice_outcome_without_events()(*doc, *slice),
{
    first_issue_with(slice, &slice.outcomes, check_outcome_events, Ghost(outcome_without_events()))
}

pub fn validate_outcome_event_sets_not_empty(doc: &EventModelDocument) -> (r: Result<
    (),
    ValidationIssue,
>)
    ensures
        issue_of(r) == empty_outcome_issue(*doc),
{
    into_result(
        first_issue_with(
            doc,
            &doc.slice_definitions,
            check_slice_outcome_events,
            Ghost(slice_outcome_without_events()),
        ),
    )
}

// ---- outcome events are known ----

pub open spec fn outcome_unknown_event() -> spec_fn(EventModelDocument, OutcomeDefinition) -> Option<
    Seq<char>,
> {
    |doc: EventModelDocument, outcome: OutcomeDefinition|
        match first_with(doc.event_names@, outcome.events@, not_in_set()) {
            Some(e) => Some(
                "outcome '"@ + outcome.label@ + "' references unknown event '"@ + e + "'"@,
            ),
            None => None,
        }
}

pub open spec fn slice_unknown_event() -> spec_fn(EventModelDocument, SliceDefinition) -> Option<
    Seq<char>,
> {
    |doc: EventModelDocument, slice: SliceDefinition|
        first_with(doc, slice.outcomes@, outcome_unknown_event())
}

pub open spec fn unknown_outcome_event_issue(doc: EventModelDocument) -> Option<Seq<char>> {
    first_with(doc, doc.slice_definitions@, slice_unknown_event())
}

fn check_outcome_unknown_event(doc: &EventModelDocument, outcome: &OutcomeDefinition) -> (r: Option<
    ValidationIssue,
>)
    ensures
        issue_view(r) == outcome_unknown_event()(*doc, *outcome),
{
    match first_not_in_set(&outcome.events, &doc.event_names) {
        Some(e) => Some(
            msg5("outcome '", outcome.label.as_str(), "' references unknown event '", e.as_str(), "'"),
        ),
        None => None,
    }
}

fn check_slice_unknown_event(doc: &EventModelDocument, slice: &SliceDefinition) -> (r: Option<
    ValidationIssue,
>)
    ensures
        issue_view(r) == slice_unknown_event()(*doc, *slice),
{
    first_issue_with(doc, &slice.outcomes, check_outcome_unknown_event, Ghost(outcome_unknown_event()))
}

pub fn validate_outcome_events_reference_known_events(doc: &EventModelDocument) -> (r: Result<
    (),
    ValidationIssue,
>)
    ensures
        issue_of(r) == unknown_outcome_event_issue(*doc),
{
    into_result(
        first_issue_with(doc, &doc.slice_definitions, check_slice_unknown_event, Ghost(slice_unknown_event())),
    )
}

// ---- outcome events belong to their slice ----

pub open spec fn outcome_foreign_event() -> spec_fn(SliceDefinition, OutcomeDefinition) -> Option<
    Seq<char>,
> {
    |slice: SliceDefinition, outcome: OutcomeDefinition|
        match first_with(slice.owned_events@, outcome.events@, not_in_list()) {
            Some(e) => Some(
                "outcome '"@ + outcome.label@ + "' references event '"@ + e
                    + "' that is not emitted or observed by slice '"@ + slice.name@ + "'"@,
            ),
            None => None,
        }
}

pub open spec fn slice_foreign_event() -> spec_fn(EventModelDocument, SliceDefinition) -> Option<
    Seq<char>,
> {
    |doc: EventModelDocument, slice: SliceDefinition|
        first_with(slice, slice.outcomes@, outcome_foreign_event())
}

pub open spec fn foreign_outcome_event_issue(doc: EventModelDocument) -> Option<Seq<char>> {
    first_with(doc, doc.slice_definitions@, slice_foreign_event())
}

fn check_outcome_foreign_event(slice: &SliceDefinition, outcome: &OutcomeDefinition) -> (r: Option<
    ValidationIssue,
>)
    ensures
        issue_view(r) == outcome_foreign_event()(*slice, *outcome),
{
    match first_not_in_list(&outcome.events, &slice.owned_events) {
        Some(e) => Some(
            msg7(
                "outcome '",
                outcome.label.as_str(),
                "' references event '",
                e.as_str(),
                "' that is not emitted or observed by slice '",
                slice.name.as_str(),
                "'",
            ),
        ),
        None => None,
    }
}

fn check_slice_foreign_event(doc: &EventModelDocument, slice: &SliceDefinition) -> (r: Option<
    ValidationIssue,
>)
    ensures
        issue_view(r) == slice_foreign_event()(*doc, *slice),
{
    first_issue_with(slice, &slice.outcomes, check_outcome_foreign_event, Ghost(outcome_foreign_event()))
}

pub fn validate_outcome_events_belong_to_slice(doc: &EventModelDocument) -> (r: Result<
    (),
    ValidationIssue,
>)
    ensures
        issue_of(r) == foreign_outcome_event_issue(*doc),
{
    into_result(
        first_issue_with(doc, &doc.slice_definitions, check_slice_foreign_event, Ghost(slice_foreign_event())),
    )
}

// ---- no two outcomes of a slice share an event set ----

pub open spec fn same_event_set() -> spec_fn(OutcomeDefinition, OutcomeDefinition) -> Option<
    Seq<char>,
> {
    |outcome: OutcomeDefinition, candidate: OutcomeDefinition|
        if name_views(outcome.events@) == name_views(candidate.events@) {
            Some(candidate.label@)
        } else {
            None
        }
}

/// The first pair of outcomes, from position `i` on, whose event sets are
/// equal, as its message.
pub open spec fn duplicate_event_set_from(outcomes: Seq<OutcomeDefinition>, i: nat) -> Option<
    Seq<char>,
>
    decreases outcomes.len() - i,
{
    if i >= outcomes.len() {
        None
    } else {
        match first_with(
            outcomes[i as int],
            outcomes.subrange(i + 1 as int, outcomes.len() as int),
            same_event_set(),
        ) {
            Some(second) => Some(
                "outcomes '"@ + outcomes[i as int].label@ + "' and '"@ + second
                    + "' use the same event set"@,
            ),
            None => duplicate_event_set_from(outcomes, i + 1),
        }
    }
}

pub open spec fn slice_duplicate_event_set() -> spec_fn(EventModelDocument, SliceDefinition) -> Option<
    Seq<char>,
> {
    |doc: EventModelDocument, slice: SliceDefinition| duplicate_event_set_from(slice.outcomes@, 0)
}

pub open spec fn duplicate_event_set_issue(doc: EventModelDocument) -> Option<Seq<char>> {
    first_with(doc, doc.slice_definitions@, slice_duplicate_event_set())
}

/// The label of the first outcome after `i` with the event set of outcome `i`.
fn later_same_event_set(outcomes: &Vec<OutcomeDefinition>, i: usize) -> (r: Option<&DefinitionName>)
    requires
        i < outcomes@.len(),
    ensures
        match r {
            Some(l) => first_with(
                outcomes@[i as int],
                outcomes@.subrange(i + 1, outcomes@.len() as int),
                same_event_set(),
            ) == Some(l@),
            None => first_with(
                outcomes@[i as int],
                outcomes@.subrange(i + 1, outcomes@.len() as int),
                same_event_set(),
            ) is None,
        },
{
    let ghost rest = outcomes@.subrange(i + 1, outcomes@.len() as int);
    let ghost o = outcomes@[i as int];
    let len = outcomes.len();
    let mut k: usize = i + 1;
    assert(rest.subrange(0, rest.len() as int) =~= rest);
    while k < outcomes.len()
        invariant
            i < k <= outcomes@.len(),
            rest == outcomes@.subrange(i + 1, outcomes@.len() as int),
            o == outcomes@[i as int],
            first_with(o, rest, same_event_set()) == first_with(
                o,
                rest.subrange(k - i - 1, rest.len() as int),
                same_event_set(),
            ),
        decreases outcomes.len() - k,
    {
        proof {
            lemma_first_with_step(o, rest, same_event_set(), k - i - 1);
        }
        if same_names(&outcomes[i].events, &outcomes[k].events) {
            return Some(&outcomes[k].label);
        }
        k = k + 1;
    }
    assert(rest.subrange(k - i - 1, rest.len() as int) =~= Seq::<OutcomeDefinition>::empty());
    None
}

fn check_duplicate_event_set(doc: &EventModelDocument, slice: &SliceDefinition) -> (r: Option<
    ValidationIssue,
>)
    ensures
        issue_view(r) == slice_duplicate_event_set()(*doc, *slice),
{
    let outcomes = &slice.outcomes;
    let mut i: usize = 0;
    while i < outcomes.len()
        invariant
            i <= outcomes@.len(),
            outcomes@ == slice.outcomes@,
            duplicate_event_set_from(outcomes@, 0) == duplicate_event_set_from(outcomes@, i as nat),
        decreases outcomes.len() - i,
    {
        match later_same_event_set(outcomes, i) {
            Some(second) => {
                return Some(
                    msg5(
                        "outcomes '",
                        outcomes[i].label.as_str(),
                        "' and '",
                        second.as_str(),
                        "' use the same event set",
                    ),
                );
            },
            None => {},
        }
        i = i + 1;
    }
    None
}

pub fn validate_duplicate_outcome_event_sets(doc: &EventModelDocument) -> (r: Result<
    (),
    ValidationIssue,
>)
    ensures
        issue_of(r) == duplicate_event_set_issue(*doc),
{
    into_result(
        first_issue_with(
            doc,
            &doc.slice_definitions,
            check_duplicate_event_set,
            Ghost(slice_duplicate_event_set()),
        ),
    )
}

// ---- events name known streams and have producers ----

pub open spec fn event_unknown_stream() -> spec_fn(EventModelDocument, EventDefinition) -> Option<
    Seq<char>,
> {
    |doc: EventModelDocument, event: EventDefinition|
        match event.stream {
            Some(stream) => if doc.stream_names@.contains(stream@) {
                None
            } else {
                Some("event '"@ + event.name@ + "' references unknown stream '"@ + stream@ + "'"@)
            },
            None => None,
        }
}

pub open spec fn event_stream_issue(doc: EventModelDocument) -> Option<Seq<char>> {
    first_with(doc, doc.event_definitions@, event_unknown_stream())
}

fn check_event_stream(doc: &EventModelDocument, event: &EventDefinition) -> (r: Option<
    ValidationIssue,
>)
    ensures
        issue_view(r) == event_unknown_stream()(*doc, *event),
{
    match &event.stream {
        Some(stream) => {
            if doc.stream_names.contains(stream) {
                None
            } else {
                Some(
                    msg5(
                        "event '",
                        event.name.as_str(),
                        "' references unknown stream '",
                        stream.as_str(),
                        "'",
                    ),
                )
            }
        },
        None => None,
    }
}

pub fn validate_event_stream_references(doc: &EventModelDocument) -> (r: Result<(), ValidationIssue>)
    ensures
        issue_of(r) == event_stream_issue(*doc),
{
    into_result(first_issue_with(doc, &doc.event_definitions, check_event_stream, Ghost(event_unknown_stream())))
}

pub open spec fn event_without_producer() -> spec_fn(EventModelDocument, EventDefinition) -> Option<
    Seq<char>,
> {
    |doc: EventModelDocument, event: EventDefinition|
        if !doc.command_produced_events@.contains(event.name@)
            && !doc.state_view_observed_events@.contains(event.name@) {
            Some("event '"@ + event.name@ + "' is not produced by any command"@)
        } else {
            None
        }
}

pub open spec fn event_producer_issue(doc: EventModelDocument) -> Option<Seq<char>> {
    first_with(doc, doc.event_definitions@, event_without_producer())
}

fn check_event_producer(doc: &EventModelDocument, event: &EventDefinition) -> (r: Option<
    ValidationIssue,
>)
    ensures
        issue_view(r) == event_without_producer()(*doc, *event),
{
    if !doc.command_produced_events.contains(&event.name) && !doc.state_view_observed_events.contains(
        &event.name,
    ) {
        Some(msg3("event '", event.name.as_str(), "' is not produced by any command"))
    } else {
        None
    }
}

pub fn validate_event_producers(doc: &EventModelDocument) -> (r: Result<(), ValidationIssue>)
    ensures
        issue_of(r) == event_producer_issue(*doc),
{
    into_result(
        first_issue_with(doc, &doc.event_definitions, check_event_producer, Ghost(event_without_producer())),
    )
}

// ---- state-change scenarios name the streams they write ----

/// The stream of the first event definition named `e`, if it has one.
pub open spec fn event_stream(doc: EventModelDocument, e: Seq<char>) -> Option<Seq<char>> {
    match event_def(doc, e) {
        Some(def) => match def.stream {
            Some(s) => Some(s@),
            None => None,
        },
        None => None,
    }
}

pub open spec fn then_event_unnamed_stream() -> spec_fn((EventModelDocument, SliceScenario), DefinitionName) -> Option<
    Seq<char>,
> {
    |c: (EventModelDocument, SliceScenario), e: DefinitionName|
        match event_stream(c.0, e@) {
            Some(s) => if has_name(c.1.given_streams@, s) {
                None
            } else {
                Some(
                    "state-change scenario '"@ + c.1.name@ + "' writes stream '"@ + s
                        + "' but does not name it in given_streams"@,
                )
            },
            None => None,
        }
}

pub open spec fn scenario_unnamed_stream() -> spec_fn(EventModelDocument, SliceScenario) -> Option<
    Seq<char>,
> {
    |doc: EventModelDocument, scenario: SliceScenario|
        first_with((doc, scenario), scenario.then_events@, then_event_unnamed_stream())
}

pub open spec fn slice_unnamed_stream() -> spec_fn(EventModelDocument, SliceDefinition) -> Option<
    Seq<char>,
> {
    |doc: EventModelDocument, slice: SliceDefinition|
        if slice.slice_type == SliceType::StateChange {
            first_with(doc, slice.scenarios@, scenario_unnamed_stream())
        } else {
            None
        }
}

pub open spec fn given_streams_issue(doc: EventModelDocument) -> Option<Seq<char>> {
    first_with(doc, doc.slice_definitions@, slice_unnamed_stream())
}

fn check_then_event_stream(doc: &EventModelDocument, scenario: &SliceScenario, e: &DefinitionName) -> (r:
    Option<ValidationIssue>)
    ensures
        issue_view(r) == then_event_unnamed_stream()((*doc, *scenario), *e),
{
    match event_definition(doc, e) {
        Some(def) => match &def.stream {
            Some(s) => {
                if contains_name(&scenario.given_streams, s) {
                    None
                } else {
                    Some(
                        msg5(
                            "state-change scenario '",
                            scenario.name.as_str(),
                            "' writes stream '",
                            s.as_str(),
                            "' but does not name it in given_streams",
                        ),
                    )
                }
            },
            None => None,
        },
        None => None,
    }
}

fn check_scenario_streams(doc: &EventModelDocument, scenario: &SliceScenario) -> (r: Option<
    ValidationIssue,
>)
    ensures
        issue_view(r) == scenario_unnamed_stream()(*doc, *scenario),
{
    first_issue_with2(
        doc,
        scenario,
        &scenario.then_events,
        check_then_event_stream,
        Ghost(then_event_unnamed_stream()),
    )
}

fn check_slice_streams(doc: &EventModelDocument, slice: &SliceDefinition) -> (r: Option<
    ValidationIssue,
>)
    ensures
        issue_view(r) == slice_unnamed_stream()(*doc, *slice),
{
    if slice.slice_type == SliceType::StateChange {
        first_issue_with(doc, &slice.scenarios, check_scenario_streams, Ghost(scenario_unnamed_stream()))
    } else {
        None
    }
}

pub fn validate_state_change_scenario_given_streams(doc: &EventModelDocument) -> (r: Result<
    (),
    ValidationIssue,
>)
    ensures
        issue_of(r) == given_streams_issue(*doc),
{
    into_result(
        first_issue_with(doc, &doc.slice_definitions, check_slice_streams, Ghost(slice_unnamed_stream())),
    )
}

} // verus!
