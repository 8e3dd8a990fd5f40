//! Rules on the slices of one document: their scenarios, outcomes, events
//! and what each kind of slice may own.

use vstd::prelude::*;

use crate::validation::find::{
    first_issue_with, first_issue_with2, first_with, into_result, issue_of, issue_view,
    lemma_first_with_step, msg3, msg5, msg6, msg7,
};
use crate::validation::lists::{
    any_scenario_mentions, command_def, command_definition, event_def, event_definition,
    first_in_set, first_not_in_list, first_not_in_set, first_repeated, first_repeated_name,
    in_set, not_in_list, not_in_set, same_names, some_scenario_mentions, view_def,
    view_definition,
};
use crate::validation::model::{
    AutomationCommandPolicy, AutomationTrigger, EventDefinition, EventModelDocument,
    ExternalPayloadVariant, LegacyScenariosField, OutcomeDefinition, ScenarioSetKind,
    ScenarioStepField, SingletonBehavior, SliceDefinition, SliceScenario, SliceType,
    TranslationContract,
};
use crate::validation::names::{contains_name, has_name, name_views, DefinitionName, ValidationIssue};

verus! {

// ---- no legacy `scenarios` field ----

pub open spec fn legacy_slice() -> spec_fn(EventModelDocument, SliceDefinition) -> Option<Seq<char>> {
    |doc: EventModelDocument, slice: SliceDefinition|
        if slice.legacy_scenarios == LegacyScenariosField::Present {
            Some(
                "slice '"@ + slice.name@
                    + "' uses legacy 'scenarios'; use 'acceptance_scenarios' and 'contract_scenarios'"@,
            )
        } else {
            None
        }
}

pub open spec fn legacy_scenarios_issue(doc: EventModelDocument) -> Option<Seq<char>> {
    first_with(doc, doc.slice_definitions@, legacy_slice())
}

fn check_legacy_slice(doc: &EventModelDocument, slice: &SliceDefinition) -> (r: Option<ValidationIssue>)
    ensures
        issue_view(r) == legacy_slice()(*doc, *slice),
{
    if slice.legacy_scenarios == LegacyScenariosField::Present {
        Some(
            msg3(
                "slice '",
                slice.name.as_str(),
                "' uses legacy 'scenarios'; use 'acceptance_scenarios' and 'contract_scenarios'",
            ),
        )
    } else {
        None
    }
}

pub fn validate_no_legacy_slice_scenarios(doc: &EventModelDocument) -> (r: Result<(), ValidationIssue>)
    ensures
        issue_of(r) == legacy_scenarios_issue(*doc),
{
    into_result(first_issue_with(doc, &doc.slice_definitions, check_legacy_slice, Ghost(legacy_slice())))
}

// ---- every scenario declares `when` ----

pub open spec fn scenario_without_when() -> spec_fn(SliceDefinition, SliceScenario) -> Option<Seq<char>> {
    |slice: SliceDefinition, scenario: SliceScenario|
        if scenario.when_field == ScenarioStepField::Absent {
            Some("slice '"@ + slice.name@ + "' scenario '"@ + scenario.name@ + "' is missing 'when'"@)
        } else {
            None
        }
}

pub open spec fn slice_without_when() -> spec_fn(EventModelDocument, SliceDefinition) -> Option<Seq<char>> {
    |doc: EventModelDocument, slice: SliceDefinition|
        first_with(slice, slice.scenarios@, scenario_without_when())
}

pub open spec fn scenario_when_issue(doc: EventModelDocument) -> Option<Seq<char>> {
    first_with(doc, doc.slice_definitions@, slice_without_when())
}

fn check_scenario_when(slice: &SliceDefinition, scenario: &SliceScenario) -> (r: Option<ValidationIssue>)
    ensures
        issue_view(r) == scenario_without_when()(*slice, *scenario),
{
    if scenario.when_field == ScenarioStepField::Absent {
        Some(msg5("slice '", slice.name.as_str(), "' scenario '", scenario.name.as_str(), "' is missing 'when'"))
    } else {
        None
    }
}

fn check_slice_when(doc: &EventModelDocument, slice: &SliceDefinition) -> (r: Option<ValidationIssue>)
    ensures
        issue_view(r) == slice_without_when()(*doc, *slice),
{
    first_issue_with(slice, &slice.scenarios, check_scenario_when, Ghost(scenario_without_when()))
}

pub fn validate_scenario_when_fields(doc: &EventModelDocument) -> (r: Result<(), ValidationIssue>)
    ensures
        issue_of(r) == scenario_when_issue(*doc),
{
    into_result(first_issue_with(doc, &doc.slice_definitions, check_slice_when, Ghost(slice_without_when())))
}

// ---- scenario names are unique within a slice ----

/// Whether the scenario at `i` repeats the name of an earlier one.
pub open spec fn repeats_scenario_name(scenarios: Seq<SliceScenario>, i: int) -> bool {
    exists|j: int| 0 <= j < i && #[trigger] scenarios[j].name@ == scenarios[i].name@
}

/// The first scenario, from position `i` on, that repeats an earlier name.
pub open spec fn first_repeated_scenario(scenarios: Seq<SliceScenario>, i: nat) -> Option<int>
    decreases scenarios.len() - i,
{
    if i >= scenarios.len() {
        None
    } else if repeats_scenario_name(scenarios, i as int) {
        Some(i as int)
    } else {
        first_repeated_scenario(scenarios, i + 1)
    }
}

/// Whether the repeated name at `i` repeats one of the same scenario set.
pub open spec fn repeated_within_field(scenarios: Seq<SliceScenario>, i: int) -> bool {
    exists|j: int|
        0 <= j < i && #[trigger] scenarios[j].name@ == scenarios[i].name@ && scenarios[j].scenario_set
            == scenarios[i].scenario_set
}

pub open spec fn duplicate_suffix(within: bool) -> Seq<char> {
    if within {
        ""@
    } else {
        " across acceptance_scenarios and contract_scenarios"@
    }
}

pub open spec fn slice_duplicate_scenario() -> spec_fn(EventModelDocument, SliceDefinition) -> Option<
    Seq<char>,
> {
    |doc: EventModelDocument, slice: SliceDefinition|
        match first_repeated_scenario(slice.scenarios@, 0) {
            Some(i) => Some(
                "slice '"@ + slice.name@ + "' has duplicate scenario name '"@
                    + slice.scenarios@[i].name@ + "'"@ + duplicate_suffix(
                    repeated_within_field(slice.scenarios@, i),
                ),
            ),
            None => None,
        }
}

pub open spec fn duplicate_scenario_issue(doc: EventModelDocument) -> Option<Seq<char>> {
    first_with(doc, doc.slice_definitions@, slice_duplicate_scenario())
}

/// The position of the first earlier scenario with the name of scenario `i`.
fn earlier_scenario_named(scenarios: &Vec<SliceScenario>, i: usize) -> (r: Option<usize>)
    requires
        i < scenarios@.len(),
    ensures
        match r {
            Some(j) => j < i && scenarios@[j as int].name@ == scenarios@[i as int].name@,
            None => !repeats_scenario_name(scenarios@, i as int),
        },
{
    let mut j: usize = 0;
    while j < i
        invariant
            i < scenarios@.len(),
            j <= i,
            forall|k: int| 0 <= k < j ==> #[trigger] scenarios@[k].name@ != scenarios@[i as int].name@,
        decreases i - j,
    {
        if scenarios[j].name.same_as(&scenarios[i].name) {
            return Some(j);
        }
        j = j + 1;
    }
    None
}

fn check_duplicate_scenario(doc: &EventModelDocument, slice: &SliceDefinition) -> (r: Option<
    ValidationIssue,
>)
    ensures
        issue_view(r) == slice_duplicate_scenario()(*doc, *slice),
{
    let scenarios = &slice.scenarios;
    let mut i: usize = 0;
    while i < scenarios.len()
        invariant
            i <= scenarios@.len(),
            scenarios@ == slice.scenarios@,
            first_repeated_scenario(scenarios@, 0) == first_repeated_scenario(scenarios@, i as nat),
            forall|k: int| 0 <= k < i ==> !#[trigger] repeats_scenario_name(scenarios@, k),
        decreases scenarios.len() - i,
    {
        match earlier_scenario_named(scenarios, i) {
            Some(j) => {
                let within = scenarios[j].scenario_set == scenarios[i].scenario_set;
                proof {
                    assert(first_repeated_scenario(scenarios@, i as nat) == Some(i as int));
                    if !within && repeated_within_field(scenarios@, i as int) {
                        let j2 = choose|j2: int|
                            0 <= j2 < i && #[trigger] scenarios@[j2].name@ == scenarios@[i as int].name@
                                && scenarios@[j2].scenario_set == scenarios@[i as int].scenario_set;
                        if j2 < j {
                            assert(repeats_scenario_name(scenarios@, j as int));
                        } else {
                            assert(repeats_scenario_name(scenarios@, j2));
                        }
                    }
                }
                let suffix = if within {
                    ""
                } else {
                    " across acceptance_scenarios and contract_scenarios"
                };
                return Some(
                    msg6(
                        "slice '",
                        slice.name.as_str(),
                        "' has duplicate scenario name '",
                        scenarios[i].name.as_str(),
                        "'",
                        suffix,
                    ),
                );
            },
            None => {},
        }
        i = i + 1;
    }
    None
}

pub fn validate_duplicate_scenario_names(doc: &EventModelDocument) -> (r: Result<(), ValidationIssue>)
    ensures
        issue_of(r) == duplicate_scenario_issue(*doc),
{
    into_result(
        first_issue_with(
            doc,
            &doc.slice_definitions,
            check_duplicate_scenario,
            Ghost(slice_duplicate_scenario()),
        ),
    )
}

// ---- acceptance scenarios describe user-facing behaviour only ----

pub open spec fn acceptance_scenario_event() -> spec_fn((EventModelDocument, SliceDefinition), SliceScenario) -> Option<
    Seq<char>,
> {
    |c: (EventModelDocument, SliceDefinition), scenario: SliceScenario|
        if scenario.scenario_set == ScenarioSetKind::Acceptance {
            match first_with(c.0.event_names@, scenario.referenced_events@, in_set()) {
                Some(e) => Some(
                    "slice '"@ + c.1.name@ + "' acceptance scenario '"@ + scenario.name@
                        + "' references event '"@ + e
                        + "'; acceptance_scenarios must describe user-facing behavior only"@,
                ),
                None => None,
            }
        } else {
            None
        }
}

pub open spec fn slice_acceptance_event() -> spec_fn(EventModelDocument, SliceDefinition) -> Option<
    Seq<char>,
> {
    |doc: EventModelDocument, slice: SliceDefinition|
        first_with((doc, slice), slice.scenarios@, acceptance_scenario_event())
}

pub open spec fn acceptance_boundary_issue(doc: EventModelDocument) -> Option<Seq<char>> {
    first_with(doc, doc.slice_definitions@, slice_acceptance_event())
}

fn check_acceptance_scenario(doc: &EventModelDocument, slice: &SliceDefinition, scenario: &SliceScenario) -> (r:
    Option<ValidationIssue>)
    ensures
        issue_view(r) == acceptance_scenario_event()((*doc, *slice), *scenario),
{
    if scenario.scenario_set == ScenarioSetKind::Acceptance {
        match first_in_set(&scenario.referenced_events, &doc.event_names) {
            Some(e) => Some(
                msg7(
                    "slice '",
                    slice.name.as_str(),
                    "' acceptance scenario '",
                    scenario.name.as_str(),
                    "' references event '",
                    e.as_str(),
                    "'; acceptance_scenarios must describe user-facing behavior only",
                ),
            ),
            None => None,
        }
    } else {
        None
    }
}

fn check_slice_acceptance(doc: &EventModelDocument, slice: &SliceDefinition) -> (r: Option<
    ValidationIssue,
>)
    ensures
        issue_view(r) == slice_acceptance_event()(*doc, *slice),
{
    first_issue_with2(
        doc,
        slice,
        &slice.scenarios,
        check_acceptance_scenario,
        Ghost(acceptance_scenario_event()),
    )
}

pub fn validate_acceptance_scenario_boundaries(doc: &EventModelDocument) -> (r: Result<
    (),
    ValidationIssue,
>)
    ensures
        issue_of(r) == acceptance_boundary_issue(*doc),
{
    into_result(
        first_issue_with(doc, &doc.slice_definitions, check_slice_acceptance, Ghost(slice_acceptance_event())),
    )
}

// ---- state-view slices cover the read models of their views ----

/// Whether a contract scenario of the slice gives a state of read model `rm`.
pub open spec fn has_contract_state(slice: SliceDefinition, rm: Seq<char>) -> bool {
    exists|i: int|
        0 <= i < slice.scenarios@.len() && #[trigger] slice.scenarios@[i].scenario_set
            == ScenarioSetKind::Contract && has_name(slice.scenarios@[i].read_model_states@, rm)
}

fn slice_has_contract_state(slice: &SliceDefinition, rm: &DefinitionName) -> (r: bool)
    ensures
        r == has_contract_state(*slice, rm@),
{
    let scenarios = &slice.scenarios;
    let mut i: usize = 0;
    while i < scenarios.len()
        invariant
            i <= scenarios@.len(),
            scenarios@ == slice.scenarios@,
            forall|j: int|
                0 <= j < i ==> !(#[trigger] scenarios@[j].scenario_set == ScenarioSetKind::Contract
                    && has_name(scenarios@[j].read_model_states@, rm@)),
        decreases scenarios.len() - i,
    {
        if scenarios[i].scenario_set == ScenarioSetKind::Contract && contains_name(
            &scenarios[i].read_model_states,
            rm,
        ) {
            return true;
        }
        i = i + 1;
    }
    false
}

pub open spec fn read_model_without_contract() -> spec_fn(SliceDefinition, DefinitionName) -> Option<
    Seq<char>,
> {
    |slice: SliceDefinition, rm: DefinitionName|
        if has_contract_state(slice, rm@) {
            None
        } else {
            Some(
                "state_view slice '"@ + slice.name@ + "' read model '"@ + rm@
                    + "' requires a contract_scenarios GWT for the projector"@,
            )
        }
}

pub open spec fn view_without_contract() -> spec_fn((EventModelDocument, SliceDefinition), DefinitionName) -> Option<
    Seq<char>,
> {
    |c: (EventModelDocument, SliceDefinition), view_name: DefinitionName|
        match view_def(c.0, view_name@) {
            Some(view) => first_with(c.1, view.read_models@, read_model_without_contract()),
            None => None,
        }
}

pub open spec fn slice_without_contract() -> spec_fn(EventModelDocument, SliceDefinition) -> Option<
    Seq<char>,
> {
    |doc: EventModelDocument, slice: SliceDefinition|
        if slice.slice_type == SliceType::StateView {
            first_with((doc, slice), slice.owned_views@, view_without_contract())
        } else {
            None
        }
}

pub open spec fn projector_contract_issue(doc: EventModelDocument) -> Option<Seq<char>> {
    first_with(doc, doc.slice_definitions@, slice_without_contract())
}

fn check_read_model_contract(slice: &SliceDefinition, rm: &DefinitionName) -> (r: Option<
    ValidationIssue,
>)
    ensures
        issue_view(r) == read_model_without_contract()(*slice, *rm),
{
    if slice_has_contract_state(slice, rm) {
        None
    } else {
        Some(
            msg5(
                "state_view slice '",
                slice.name.as_str(),
                "' read model '",
                rm.as_str(),
                "' requires a contract_scenarios GWT for the projector",
            ),
        )
    }
}

fn check_view_contract(doc: &EventModelDocument, slice: &SliceDefinition, view_name: &DefinitionName) -> (r:
    Option<ValidationIssue>)
    ensures
        issue_view(r) == view_without_contract()((*doc, *slice), *view_name),
{
    match view_definition(doc, view_name) {
        Some(view) => first_issue_with(
            slice,
            &view.read_models,
            check_read_model_contract,
            Ghost(read_model_without_contract()),
        ),
        None => None,
    }
}

fn check_slice_contract(doc: &EventModelDocument, slice: &SliceDefinition) -> (r: Option<ValidationIssue>)
    ensures
        issue_view(r) == slice_without_contract()(*doc, *slice),
{
    if slice.slice_type == SliceType::StateView {
        first_issue_with2(doc, slice, &slice.owned_views, check_view_contract, Ghost(view_without_contract()))
    } else {
        None
    }
}

pub fn validate_state_view_projector_contract_scenarios(doc: &EventModelDocument) -> (r: Result<
    (),
    ValidationIssue,
>)
    ensures
        issue_of(r) == projector_contract_issue(*doc),
{
    into_result(
        first_issue_with(doc, &doc.slice_definitions, check_slice_contract, Ghost(slice_without_contract())),
    )
}

/// Whether a scenario of the slice gives read model `rm` the state `state`.
pub open spec fn has_read_model_state(slice: SliceDefinition, rm: Seq<char>, state: Seq<char>) -> bool {
    exists|i: int, j: int|
        0 <= i < slice.scenarios@.len() && 0 <= j
            < slice.scenarios@[i].read_model_state_values@.len() && (#[trigger] slice.scenarios@[i].read_model_state_values@[j]).read_model@
            == rm && slice.scenarios@[i].read_model_state_values@[j].state@ == state
}

fn slice_has_empty_state(slice: &SliceDefinition, rm: &DefinitionName) -> (r: bool)
    ensures
        r == has_read_model_state(*slice, rm@, "empty"@),
{
    let scenarios = &slice.scenarios;
    let mut i: usize = 0;
    while i < scenarios.len()
        invariant
            i <= scenarios@.len(),
            scenarios@ == slice.scenarios@,
            forall|a: int, b: int|
                0 <= a < i && 0 <= b < scenarios@[a].read_model_state_values@.len() ==> !((#[trigger] scenarios@[a].read_model_state_values@[b]).read_model@
                    == rm@ && scenarios@[a].read_model_state_values@[b].state@ == "empty"@),
        decreases scenarios.len() - i,
    {
        let states = &scenarios[i].read_model_state_values;
        let mut j: usize = 0;
        while j < states.len()
            invariant
                i < scenarios@.len(),
                scenarios@ == slice.scenarios@,
                *states == scenarios@[i as int].read_model_state_values,
                j <= states@.len(),
                forall|a: int, b: int|
                    0 <= a < i && 0 <= b < scenarios@[a].read_model_state_values@.len() ==> !((#[trigger] scenarios@[a].read_model_state_values@[b]).read_model@
                        == rm@ && scenarios@[a].read_model_state_values@[b].state@ == "empty"@),
                forall|b: int|
                    0 <= b < j ==> !((#[trigger] states@[b]).read_model@ == rm@ && states@[b].state@
                        == "empty"@),
            decreases states.len() - j,
        {
            if states[j].read_model.same_as(rm) && states[j].state.is_text("empty") {
                assert(scenarios@[i as int].read_model_state_values@[j as int] == states@[j as int]);
                return true;
            }
            j = j + 1;
        }
        i = i + 1;
    }
    false
}

pub open spec fn read_model_without_empty_state() -> spec_fn(SliceDefinition, DefinitionName) -> Option<
    Seq<char>,
> {
    |slice: SliceDefinition, rm: DefinitionName|
        if has_read_model_state(slice, rm@, "empty"@) {
            None
        } else {
            Some(
                "state-view slice '"@ + slice.name@
                    + "' must include a scenario for empty state of read model '"@ + rm@ + "'"@,
            )
        }
}

pub open spec fn view_without_empty_state() -> spec_fn((EventModelDocument, SliceDefinition), DefinitionName) -> Option<
    Seq<char>,
> {
    |c: (EventModelDocument, SliceDefinition), view_name: DefinitionName|
        match view_def(c.0, view_name@) {
            Some(view) => first_with(c.1, view.read_models@, read_model_without_empty_state()),
            None => None,
        }
}

pub open spec fn slice_without_empty_state() -> spec_fn(EventModelDocument, SliceDefinition) -> Option<
    Seq<char>,
> {
    |doc: EventModelDocument, slice: SliceDefinition|
        if slice.slice_type == SliceType::StateView {
            first_with((doc, slice), slice.owned_views@, view_without_empty_state())
        } else {
            None
        }
}

pub open spec fn empty_state_issue(doc: EventModelDocument) -> Option<Seq<char>> {
    first_with(doc, doc.slice_definitions@, slice_without_empty_state())
}

fn check_read_model_empty_state(slice: &SliceDefinition, rm: &DefinitionName) -> (r: Option<
    ValidationIssue,
>)
    ensures
        issue_view(r) == read_model_without_empty_state()(*slice, *rm),
{
    if slice_has_empty_state(slice, rm) {
        None
    } else {
        Some(
            msg5(
                "state-view slice '",
                slice.name.as_str(),
                "' must include a scenario for empty state of read model '",
                rm.as_str(),
                "'",
            ),
        )
    }
}

fn check_view_empty_state(doc: &EventModelDocument, slice: &SliceDefinition, view_name: &DefinitionName) -> (r:
    Option<ValidationIssue>)
    ensures
        issue_view(r) == view_without_empty_state()((*doc, *slice), *view_name),
{
    match view_definition(doc, view_name) {
        Some(view) => first_issue_with(
            slice,
            &view.read_models,
            check_read_model_empty_state,
            Ghost(read_model_without_empty_state()),
        ),
        None => None,
    }
}

fn check_slice_empty_state(doc: &EventModelDocument, slice: &SliceDefinition) -> (r: Option<
    ValidationIssue,
>)
    ensures
        issue_view(r) == slice_without_empty_state()(*doc, *slice),
{
    if slice.slice_type == SliceType::StateView {
        first_issue_with2(
            doc,
            slice,
            &slice.owned_views,
            check_view_empty_state,
            Ghost(view_without_empty_state()),
        )
    } else {
        None
    }
}

pub fn validate_state_view_empty_read_model_state_scenarios(doc: &EventModelDocument) -> (r: Result<
    (),
    ValidationIssue,
>)
    ensures
        issue_of(r) == empty_state_issue(*doc),
{
    into_result(
        first_issue_with(
            doc,
            &doc.slice_definitions,
            check_slice_empty_state,
            Ghost(slice_without_empty_state()),
        ),
    )
}

} // verus!
