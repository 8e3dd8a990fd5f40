//! Rules on what each kind of slice declares and owns: state views, state
//! changes, translations and automations, and the command errors they cover.

use vstd::prelude::*;

use crate::validation::find::{
    first_issue_with, first_issue_with2, first_with, into_result, issue_of, issue_view,
    lemma_first_with_step, msg1, msg3, msg5, msg8,
};
use crate::validation::lists::{
    any_scenario_mentions, command_def, command_definition, first_not_in_list, not_in_list,
    some_scenario_mentions,
};
use crate::validation::model::{
    AutomationCommandPolicy, AutomationTrigger, EventModelDocument, ExternalPayloadVariant,
    SingletonBehavior, SliceDefinition, SliceScenario, SliceType, TranslationContract,
};
use crate::validation::names::{contains_name, has_name, DefinitionName, ValidationIssue};

verus! {

// ---- single-slice conditions ----

pub open spec fn singleton_without_repeat() -> spec_fn(EventModelDocument, SliceDefinition) -> Option<
    Seq<char>,
> {
    |doc: EventModelDocument, slice: SliceDefinition|
        if slice.slice_type == SliceType::StateChange && slice.singleton_behavior
            == SingletonBehavior::MissingRepeatBehavior {
            Some(
                "singleton state_change slice '"@ + slice.name@
                    + "' must declare already-exists or idempotent behavior"@,
            )
        } else {
            None
        }
}

pub open spec fn singleton_issue(doc: EventModelDocument) -> Option<Seq<char>> {
    first_with(doc, doc.slice_definitions@, singleton_without_repeat())
}

fn check_singleton(doc: &EventModelDocument, slice: &SliceDefinition) -> (r: Option<ValidationIssue>)
    ensures
        issue_view(r) == singleton_without_repeat()(*doc, *slice),
{
    if slice.slice_type == SliceType::StateChange && slice.singleton_behavior
        == SingletonBehavior::MissingRepeatBehavior {
        Some(
            msg3(
                "singleton state_change slice '",
                slice.name.as_str(),
                "' must declare already-exists or idempotent behavior",
            ),
        )
    } else {
        None
    }
}

pub fn validate_singleton_state_change_repeat_behavior(doc: &EventModelDocument) -> (r: Result<
    (),
    ValidationIssue,
>)
    ensures
        issue_of(r) == singleton_issue(*doc),
{
    into_result(first_issue_with(doc, &doc.slice_definitions, check_singleton, Ghost(singleton_without_repeat())))
}

pub open spec fn translation_without_contract() -> spec_fn(EventModelDocument, SliceDefinition) -> Option<
    Seq<char>,
> {
    |doc: EventModelDocument, slice: SliceDefinition|
        if slice.slice_type == SliceType::Translation && slice.translation_contract
            == TranslationContract::MissingExternalContract {
            Some(
                "translation slice '"@ + slice.name@
                    + "' must declare an external event or payload contract"@,
            )
        } else {
            None
        }
}

pub open spec fn translation_contract_issue(doc: EventModelDocument) -> Option<Seq<char>> {
    first_with(doc, doc.slice_definitions@, translation_without_contract())
}

fn check_translation_contract(doc: &EventModelDocument, slice: &SliceDefinition) -> (r: Option<
    ValidationIssue,
>)
    ensures
        issue_view(r) == translation_without_contract()(*doc, *slice),
{
    if slice.slice_type == SliceType::Translation && slice.translation_contract
        == TranslationContract::MissingExternalContract {
        Some(
            msg3(
                "translation slice '",
                slice.name.as_str(),
                "' must declare an external event or payload contract",
            ),
        )
    } else {
        None
    }
}

pub fn validate_translation_slice_external_contracts(doc: &EventModelDocument) -> (r: Result<
    (),
    ValidationIssue,
>)
    ensures
        issue_of(r) == translation_contract_issue(*doc),
{
    into_result(
        first_issue_with(
            doc,
            &doc.slice_definitions,
            check_translation_contract,
            Ghost(translation_without_contract()),
        ),
    )
}

pub open spec fn automation_without_trigger() -> spec_fn(EventModelDocument, SliceDefinition) -> Option<
    Seq<char>,
> {
    |doc: EventModelDocument, slice: SliceDefinition|
        if slice.slice_type == SliceType::Automation && slice.automation_trigger is MissingTrigger {
            Some("automation slice '"@ + slice.name@ + "' must declare a trigger"@)
        } else {
            None
        }
}

pub open spec fn automation_trigger_issue(doc: EventModelDocument) -> Option<Seq<char>> {
    first_with(doc, doc.slice_definitions@, automation_without_trigger())
}

fn check_automation_trigger(doc: &EventModelDocument, slice: &SliceDefinition) -> (r: Option<
    ValidationIssue,
>)
    ensures
        issue_view(r) == automation_without_trigger()(*doc, *slice),
{
    if slice.slice_type == SliceType::Automation && matches!(slice.automation_trigger, AutomationTrigger::MissingTrigger) {
        Some(msg3("automation slice '", slice.name.as_str(), "' must declare a trigger"))
    } else {
        None
    }
}

pub fn validate_automation_slice_triggers(doc: &EventModelDocument) -> (r: Result<(), ValidationIssue>)
    ensures
        issue_of(r) == automation_trigger_issue(*doc),
{
    into_result(
        first_issue_with(
            doc,
            &doc.slice_definitions,
            check_automation_trigger,
            Ghost(automation_without_trigger()),
        ),
    )
}

pub open spec fn automation_with_many_commands() -> spec_fn(EventModelDocument, SliceDefinition) -> Option<
    Seq<char>,
> {
    |doc: EventModelDocument, slice: SliceDefinition|
        if slice.slice_type == SliceType::Automation && slice.automation_command_policy
            == AutomationCommandPolicy::MultipleCommands {
            Some("automation slice '"@ + slice.name@ + "' must issue one command per operation"@)
        } else {
            None
        }
}

pub open spec fn automation_policy_issue(doc: EventModelDocument) -> Option<Seq<char>> {
    first_with(doc, doc.slice_definitions@, automation_with_many_commands())
}

fn check_automation_policy(doc: &EventModelDocument, slice: &SliceDefinition) -> (r: Option<
    ValidationIssue,
>)
    ensures
        issue_view(r) == automation_with_many_commands()(*doc, *slice),
{
    if slice.slice_type == SliceType::Automation && slice.automation_command_policy
        == AutomationCommandPolicy::MultipleCommands {
        Some(msg3("automation slice '", slice.name.as_str(), "' must issue one command per operation"))
    } else {
        None
    }
}

pub fn validate_automation_slice_command_policy(doc: &EventModelDocument) -> (r: Result<
    (),
    ValidationIssue,
>)
    ensures
        issue_of(r) == automation_policy_issue(*doc),
{
    into_result(
        first_issue_with(
            doc,
            &doc.slice_definitions,
            check_automation_policy,
            Ghost(automation_with_many_commands()),
        ),
    )
}

pub open spec fn state_view_without_views() -> spec_fn(EventModelDocument, SliceDefinition) -> Option<
    Seq<char>,
> {
    |doc: EventModelDocument, slice: SliceDefinition|
        if slice.slice_type == SliceType::StateView && slice.owned_views@.len() == 0 {
            Some("state_view slice '"@ + slice.name@ + "' must own at least one view"@)
        } else {
            None
        }
}

pub open spec fn state_view_views_issue(doc: EventModelDocument) -> Option<Seq<char>> {
    first_with(doc, doc.slice_definitions@, state_view_without_views())
}

fn check_state_view_views(doc: &EventModelDocument, slice: &SliceDefinition) -> (r: Option<
    ValidationIssue,
>)
    ensures
        issue_view(r) == state_view_without_views()(*doc, *slice),
{
    if slice.is_state_view() && slice.owned_views.len() == 0 {
        Some(msg3("state_view slice '", slice.name.as_str(), "' must own at least one view"))
    } else {
        None
    }
}

pub fn validate_state_view_slices_own_views(doc: &EventModelDocument) -> (r: Result<
    (),
    ValidationIssue,
>)
    ensures
        issue_of(r) == state_view_views_issue(*doc),
{
    into_result(
        first_issue_with(doc, &doc.slice_definitions, check_state_view_views, Ghost(state_view_without_views())),
    )
}

pub open spec fn state_change_without_events() -> spec_fn(EventModelDocument, SliceDefinition) -> Option<
    Seq<char>,
> {
    |doc: EventModelDocument, slice: SliceDefinition|
        if slice.slice_type == SliceType::StateChange && slice.owned_events@.len() == 0 {
            Some("state_change slice '"@ + slice.name@ + "' must emit at least one event"@)
        } else {
            None
        }
}

pub open spec fn state_change_events_issue(doc: EventModelDocument) -> Option<Seq<char>> {
    first_with(doc, doc.slice_definitions@, state_change_without_events())
}

fn check_state_change_events(doc: &EventModelDocument, slice: &SliceDefinition) -> (r: Option<
    ValidationIssue,
>)
    ensures
        issue_view(r) == state_change_without_events()(*doc, *slice),
{
    if slice.slice_type == SliceType::StateChange && slice.owned_events.len() == 0 {
        Some(msg3("state_change slice '", slice.name.as_str(), "' must emit at least one event"))
    } else {
        None
    }
}

pub fn validate_state_change_slices_emit_events(doc: &EventModelDocument) -> (r: Result<
    (),
    ValidationIssue,
>)
    ensures
        issue_of(r) == state_change_events_issue(*doc),
{
    into_result(
        first_issue_with(
            doc,
            &doc.slice_definitions,
            check_state_change_events,
            Ghost(state_change_without_events()),
        ),
    )
}

// ---- what a kind of slice must not own ----

/// The lists of names a slice owns that some kind of slice must leave empty.
#[derive(Debug, Clone, Copy, PartialEq, Eq, Structural)]
pub enum OwnedList {
    IssuedCommands,
    Views,
    ReadModels,
    Automations,
}

pub open spec fn owned_list(slice: SliceDefinition, list: OwnedList) -> Seq<DefinitionName> {
    match list {
        OwnedList::IssuedCommands => slice.issued_commands@,
        OwnedList::Views => slice.owned_views@,
        OwnedList::ReadModels => slice.owned_read_models@,
        OwnedList::Automations => slice.owned_automations@,
    }
}

fn owned_names(slice: &SliceDefinition, list: OwnedList) -> (r: &Vec<DefinitionName>)
    ensures
        r@ == owned_list(*slice, list),
{
    match list {
        OwnedList::IssuedCommands => &slice.issued_commands,
        OwnedList::Views => &slice.owned_views,
        OwnedList::ReadModels => &slice.owned_read_models,
        OwnedList::Automations => &slice.owned_automations,
    }
}

pub open spec fn forbidden_owner() -> spec_fn((SliceType, OwnedList, Seq<char>, Seq<char>), SliceDefinition) -> Option<
    Seq<char>,
> {
    |c: (SliceType, OwnedList, Seq<char>, Seq<char>), slice: SliceDefinition|
        if slice.slice_type == c.0 && owned_list(slice, c.1).len() > 0 {
            Some(
                c.2 + " slice '"@ + slice.name@ + "' must not own "@ + c.3 + " '"@ + owned_list(slice, c.1)[0]@ + "'"@,
            )
        } else {
            None
        }
}

/// The first slice of type `ty` that owns something in `list`: the message
/// names the slice, as a `kind` slice, and the first name of the list, as a
/// `what`.
pub open spec fn forbidden_ownership(
    doc: EventModelDocument,
    ty: SliceType,
    list: OwnedList,
    kind: Seq<char>,
    what: Seq<char>,
) -> Option<Seq<char>> {
    first_with((ty, list, kind, what), doc.slice_definitions@, forbidden_owner())
}

fn first_forbidden_owner(
    doc: &EventModelDocument,
    ty: SliceType,
    list: OwnedList,
    kind: &str,
    what: &str,
) -> (r: Result<(), ValidationIssue>)
    ensures
        issue_of(r) == forbidden_ownership(*doc, ty, list, kind@, what@),
{
    let slices = &doc.slice_definitions;
    let ghost c = (ty, list, kind@, what@);
    let mut i: usize = 0;
    assert(slices@.subrange(0, slices@.len() as int) =~= slices@);
    while i < slices.len()
        invariant
            i <= slices@.len(),
            slices@ == doc.slice_definitions@,
            c == (ty, list, kind@, what@),
            first_with(c, slices@, forbidden_owner()) == first_with(
                c,
                slices@.subrange(i as int, slices@.len() as int),
                forbidden_owner(),
            ),
        decreases slices.len() - i,
    {
        proof {
            lemma_first_with_step(c, slices@, forbidden_owner(), i as int);
        }
        let slice = &slices[i];
        let names = owned_names(slice, list);
        if slice.slice_type == ty && names.len() > 0 {
            return Err(
                msg8(
                    kind,
                    " slice '",
                    slice.name.as_str(),
                    "' must not own ",
                    what,
                    " '",
                    names[0].as_str(),
                    "'",
                ),
            );
        }
        i = i + 1;
    }
    assert(slices@.subrange(i as int, slices@.len() as int) =~= Seq::<SliceDefinition>::empty());
    Ok(())
}

pub open spec fn state_view_commands_issue(doc: EventModelDocument) -> Option<Seq<char>> {
    forbidden_ownership(doc, SliceType::StateView, OwnedList::IssuedCommands, "state_view"@, "command"@)
}

pub fn validate_state_view_slices_do_not_own_commands(doc: &EventModelDocument) -> (r: Result<
    (),
    ValidationIssue,
>)
    ensures
        issue_of(r) == state_view_commands_issue(*doc),
{
    first_forbidden_owner(doc, SliceType::StateView, OwnedList::IssuedCommands, "state_view", "command")
}

pub open spec fn state_change_views_issue(doc: EventModelDocument) -> Option<Seq<char>> {
    forbidden_ownership(doc, SliceType::StateChange, OwnedList::Views, "state_change"@, "view"@)
}

pub fn validate_state_change_slices_do_not_own_views(doc: &EventModelDocument) -> (r: Result<
    (),
    ValidationIssue,
>)
    ensures
        issue_of(r) == state_change_views_issue(*doc),
{
    first_forbidden_owner(doc, SliceType::StateChange, OwnedList::Views, "state_change", "view")
}

pub open spec fn state_change_read_models_issue(doc: EventModelDocument) -> Option<Seq<char>> {
    forbidden_ownership(
        doc,
        SliceType::StateChange,
        OwnedList::ReadModels,
        "state_change"@,
        "read model"@,
    )
}

pub fn validate_state_change_slices_do_not_own_read_models(doc: &EventModelDocument) -> (r: Result<
    (),
    ValidationIssue,
>)
    ensures
        issue_of(r) == state_change_read_models_issue(*doc),
{
    first_forbidden_owner(doc, SliceType::StateChange, OwnedList::ReadModels, "state_change", "read model")
}

pub open spec fn state_change_automations_issue(doc: EventModelDocument) -> Option<Seq<char>> {
    forbidden_ownership(
        doc,
        SliceType::StateChange,
        OwnedList::Automations,
        "state_change"@,
        "automation"@,
    )
}

pub fn validate_state_change_slices_do_not_own_automations(doc: &EventModelDocument) -> (r: Result<
    (),
    ValidationIssue,
>)
    ensures
        issue_of(r) == state_change_automations_issue(*doc),
{
    first_forbidden_owner(doc, SliceType::StateChange, OwnedList::Automations, "state_change", "automation")
}

pub open spec fn translation_views_issue(doc: EventModelDocument) -> Option<Seq<char>> {
    forbidden_ownership(doc, SliceType::Translation, OwnedList::Views, "translation"@, "view"@)
}

pub fn validate_translation_slice_view_ownership(doc: &EventModelDocument) -> (r: Result<
    (),
    ValidationIssue,
>)
    ensures
        issue_of(r) == translation_views_issue(*doc),
{
    first_forbidden_owner(doc, SliceType::Translation, OwnedList::Views, "translation", "view")
}

// ---- scenarios cover payload variants and triggers ----

pub open spec fn variant_without_scenario() -> spec_fn(SliceDefinition, ExternalPayloadVariant) -> Option<
    Seq<char>,
> {
    |slice: SliceDefinition, pv: ExternalPayloadVariant|
        if some_scenario_mentions(slice.scenarios@, pv.variant@) {
            None
        } else {
            Some(
                "translation slice '"@ + slice.name@
                    + "' must include a scenario for external payload variant '"@ + pv.variant@
                    + "'"@,
            )
        }
}

pub open spec fn translation_without_variant_scenario() -> spec_fn(EventModelDocument, SliceDefinition) -> Option<
    Seq<char>,
> {
    |doc: EventModelDocument, slice: SliceDefinition|
        if slice.slice_type == SliceType::Translation {
            first_with(slice, slice.external_payload_variants@, variant_without_scenario())
        } else {
            None
        }
}

pub open spec fn payload_variant_issue(doc: EventModelDocument) -> Option<Seq<char>> {
    first_with(doc, doc.slice_definitions@, translation_without_variant_scenario())
}

fn check_variant_scenario(slice: &SliceDefinition, pv: &ExternalPayloadVariant) -> (r: Option<
    ValidationIssue,
>)
    ensures
        issue_view(r) == variant_without_scenario()(*slice, *pv),
{
    if any_scenario_mentions(&slice.scenarios, &pv.variant) {
        None
    } else {
        Some(
            msg5(
                "translation slice '",
                slice.name.as_str(),
                "' must include a scenario for external payload variant '",
                pv.variant.as_str(),
                "'",
            ),
        )
    }
}

fn check_translation_variants(doc: &EventModelDocument, slice: &SliceDefinition) -> (r: Option<
    ValidationIssue,
>)
    ensures
        issue_view(r) == translation_without_variant_scenario()(*doc, *slice),
{
    if slice.slice_type == SliceType::Translation {
        first_issue_with(
            slice,
            &slice.external_payload_variants,
            check_variant_scenario,
            Ghost(variant_without_scenario()),
        )
    } else {
        None
    }
}

pub fn validate_translation_slice_payload_variant_scenarios(doc: &EventModelDocument) -> (r: Result<
    (),
    ValidationIssue,
>)
    ensures
        issue_of(r) == payload_variant_issue(*doc),
{
    into_result(
        first_issue_with(
            doc,
            &doc.slice_definitions,
            check_translation_variants,
            Ghost(translation_without_variant_scenario()),
        ),
    )
}

pub open spec fn trigger_without_scenario() -> spec_fn(SliceDefinition, DefinitionName) -> Option<
    Seq<char>,
> {
    |slice: SliceDefinition, trigger: DefinitionName|
        if some_scenario_mentions(slice.scenarios@, trigger@) {
            None
        } else {
            Some(
                "automation slice '"@ + slice.name@ + "' must include a scenario for trigger event '"@
                    + trigger@ + "'"@,
            )
        }
}

pub open spec fn automation_without_trigger_scenario() -> spec_fn(EventModelDocument, SliceDefinition) -> Option<
    Seq<char>,
> {
    |doc: EventModelDocument, slice: SliceDefinition|
        if slice.slice_type == SliceType::Automation {
            match slice.automation_trigger {
                AutomationTrigger::DeclaresTriggers(triggers) => first_with(
                    slice,
                    triggers@,
                    trigger_without_scenario(),
                ),
                _ => None,
            }
        } else {
            None
        }
}

pub open spec fn trigger_scenario_issue(doc: EventModelDocument) -> Option<Seq<char>> {
    first_with(doc, doc.slice_definitions@, automation_without_trigger_scenario())
}

fn check_trigger_scenario(slice: &SliceDefinition, trigger: &DefinitionName) -> (r: Option<
    ValidationIssue,
>)
    ensures
        issue_view(r) == trigger_without_scenario()(*slice, *trigger),
{
    if any_scenario_mentions(&slice.scenarios, trigger) {
        None
    } else {
        Some(
            msg5(
                "automation slice '",
                slice.name.as_str(),
                "' must include a scenario for trigger event '",
                trigger.as_str(),
                "'",
            ),
        )
    }
}

fn check_automation_trigger_scenarios(doc: &EventModelDocument, slice: &SliceDefinition) -> (r: Option<
    ValidationIssue,
>)
    ensures
        issue_view(r) == automation_without_trigger_scenario()(*doc, *slice),
{
    if slice.slice_type == SliceType::Automation {
        match &slice.automation_trigger {
            AutomationTrigger::DeclaresTriggers(triggers) => first_issue_with(
                slice,
                triggers,
                check_trigger_scenario,
                Ghost(trigger_without_scenario()),
            ),
            _ => None,
        }
    } else {
        None
    }
}

pub fn validate_automation_slice_trigger_scenarios(doc: &EventModelDocument) -> (r: Result<
    (),
    ValidationIssue,
>)
    ensures
        issue_of(r) == trigger_scenario_issue(*doc),
{
    into_result(
        first_issue_with(
            doc,
            &doc.slice_definitions,
            check_automation_trigger_scenarios,
            Ghost(automation_without_trigger_scenario()),
        ),
    )
}

// ---- command errors are handled, declared and covered ----

pub open spec fn unhandled_error() -> spec_fn(SliceDefinition, DefinitionName) -> Option<Seq<char>> {
    |slice: SliceDefinition, e: DefinitionName|
        if has_name(slice.handled_command_errors@, e@) {
            None
        } else {
            Some(
                "automation slice '"@ + slice.name@ + "' does not handle command error '"@ + e@
                    + "'"@,
            )
        }
}

pub open spec fn command_with_unhandled_error() -> spec_fn((EventModelDocument, SliceDefinition), DefinitionName) -> Option<
    Seq<char>,
> {
    |c: (EventModelDocument, SliceDefinition), command: DefinitionName|
        match command_def(c.0, command@) {
            Some(def) => first_with(c.1, def.errors@, unhandled_error()),
            None => None,
        }
}

pub open spec fn automation_with_unhandled_error() -> spec_fn(EventModelDocument, SliceDefinition) -> Option<
    Seq<char>,
> {
    |doc: EventModelDocument, slice: SliceDefinition|
        if slice.slice_type == SliceType::Automation {
            first_with((doc, slice), slice.issued_commands@, command_with_unhandled_error())
        } else {
            None
        }
}

pub open spec fn automation_error_handling_issue(doc: EventModelDocument) -> Option<Seq<char>> {
    first_with(doc, doc.slice_definitions@, automation_with_unhandled_error())
}

fn check_unhandled_error(slice: &SliceDefinition, e: &DefinitionName) -> (r: Option<ValidationIssue>)
    ensures
        issue_view(r) == unhandled_error()(*slice, *e),
{
    if contains_name(&slice.handled_command_errors, e) {
        None
    } else {
        Some(
            msg5(
                "automation slice '",
                slice.name.as_str(),
                "' does not handle command error '",
                e.as_str(),
                "'",
            ),
        )
    }
}

fn check_command_unhandled_error(doc: &EventModelDocument, slice: &SliceDefinition, command: &DefinitionName) -> (r:
    Option<ValidationIssue>)
    ensures
        issue_view(r) == command_with_unhandled_error()((*doc, *slice), *command),
{
    match command_definition(doc, command) {
        Some(def) => first_issue_with(slice, &def.errors, check_unhandled_error, Ghost(unhandled_error())),
        None => None,
    }
}

fn check_automation_errors(doc: &EventModelDocument, slice: &SliceDefinition) -> (r: Option<
    ValidationIssue,
>)
    ensures
        issue_view(r) == automation_with_unhandled_error()(*doc, *slice),
{
    if slice.slice_type == SliceType::Automation {
        first_issue_with2(
            doc,
            slice,
            &slice.issued_commands,
            check_command_unhandled_error,
            Ghost(command_with_unhandled_error()),
        )
    } else {
        None
    }
}

pub fn validate_automation_slice_command_error_handling(doc: &EventModelDocument) -> (r: Result<
    (),
    ValidationIssue,
>)
    ensures
        issue_of(r) == automation_error_handling_issue(*doc),
{
    into_result(
        first_issue_with(
            doc,
            &doc.slice_definitions,
            check_automation_errors,
            Ghost(automation_with_unhandled_error()),
        ),
    )
}

/// Whether a command that the slice issues declares the error `e`.
pub open spec fn slice_declares_error(doc: EventModelDocument, slice: SliceDefinition, e: Seq<char>) -> bool {
    exists|i: int|
        0 <= i < slice.issued_commands@.len() && match command_def(
            doc,
            #[trigger] slice.issued_commands@[i]@,
        ) {
            Some(def) => has_name(def.errors@, e),
            None => false,
        }
}

fn slice_command_errors_contain(doc: &EventModelDocument, slice: &SliceDefinition, e: &DefinitionName) -> (r:
    bool)
    ensures
        r == slice_declares_error(*doc, *slice, e@),
{
    let commands = &slice.issued_commands;
    let mut i: usize = 0;
    while i < commands.len()
        invariant
            i <= commands@.len(),
            commands@ == slice.issued_commands@,
            forall|j: int|
                0 <= j < i ==> !match command_def(*doc, #[trigger] commands@[j]@) {
                    Some(def) => has_name(def.errors@, e@),
                    None => false,
                },
        decreases commands.len() - i,
    {
        match command_definition(doc, &commands[i]) {
            Some(def) => {
                if contains_name(&def.errors, e) {
                    return true;
                }
            },
            None => {},
        }
        i = i + 1;
    }
    false
}

pub open spec fn undeclared_error() -> spec_fn((EventModelDocument, SliceDefinition), DefinitionName) -> Option<
    Seq<char>,
> {
    |c: (EventModelDocument, SliceDefinition), e: DefinitionName|
        if slice_declares_error(c.0, c.1, e@) {
            None
        } else {
            Some("scenario references undeclared command error '"@ + e@ + "'"@)
        }
}

pub open spec fn scenario_with_undeclared_error() -> spec_fn((EventModelDocument, SliceDefinition), SliceScenario) -> Option<
    Seq<char>,
> {
    |c: (EventModelDocument, SliceDefinition), scenario: SliceScenario|
        first_with(c, scenario.command_errors@, undeclared_error())
}

pub open spec fn slice_with_undeclared_error() -> spec_fn(EventModelDocument, SliceDefinition) -> Option<
    Seq<char>,
> {
    |doc: EventModelDocument, slice: SliceDefinition|
        first_with((doc, slice), slice.scenarios@, scenario_with_undeclared_error())
}

pub open spec fn undeclared_error_issue(doc: EventModelDocument) -> Option<Seq<char>> {
    first_with(doc, doc.slice_definitions@, slice_with_undeclared_error())
}

fn check_undeclared_error(doc: &EventModelDocument, slice: &SliceDefinition, e: &DefinitionName) -> (r:
    Option<ValidationIssue>)
    ensures
        issue_view(r) == undeclared_error()((*doc, *slice), *e),
{
    if slice_command_errors_contain(doc, slice, e) {
        None
    } else {
        Some(msg3("scenario references undeclared command error '", e.as_str(), "'"))
    }
}

fn check_scenario_errors(doc: &EventModelDocument, slice: &SliceDefinition, scenario: &SliceScenario) -> (r:
    Option<ValidationIssue>)
    ensures
        issue_view(r) == scenario_with_undeclared_error()((*doc, *slice), *scenario),
{
    first_issue_with2(doc, slice, &scenario.command_errors, check_undeclared_error, Ghost(undeclared_error()))
}

fn check_slice_undeclared_errors(doc: &EventModelDocument, slice: &SliceDefinition) -> (r: Option<
    ValidationIssue,
>)
    ensures
        issue_view(r) == slice_with_undeclared_error()(*doc, *slice),
{
    first_issue_with2(
        doc,
        slice,
        &slice.scenarios,
        check_scenario_errors,
        Ghost(scenario_with_undeclared_error()),
    )
}

pub fn validate_scenario_command_errors_are_declared(doc: &EventModelDocument) -> (r: Result<
    (),
    ValidationIssue,
>)
    ensures
        issue_of(r) == undeclared_error_issue(*doc),
{
    into_result(
        first_issue_with(
            doc,
            &doc.slice_definitions,
            check_slice_undeclared_errors,
            Ghost(slice_with_undeclared_error()),
        ),
    )
}

/// Whether a scenario of the slice exercises the command error `e`.
pub open spec fn covers_error(slice: SliceDefinition, e: Seq<char>) -> bool {
    exists|i: int|
        0 <= i < slice.scenarios@.len() && has_name(#[trigger] slice.scenarios@[i].command_errors@, e)
}

fn state_change_slice_covers_command_error(slice: &SliceDefinition, e: &DefinitionName) -> (r: bool)
    ensures
        r == covers_error(*slice, e@),
{
    let scenarios = &slice.scenarios;
    let mut i: usize = 0;
    while i < scenarios.len()
        invariant
            i <= scenarios@.len(),
            scenarios@ == slice.scenarios@,
            forall|j: int| 0 <= j < i ==> !has_name(#[trigger] scenarios@[j].command_errors@, e@),
        decreases scenarios.len() - i,
    {
        if contains_name(&scenarios[i].command_errors, e) {
            return true;
        }
        i = i + 1;
    }
    false
}

pub open spec fn uncovered_error() -> spec_fn(SliceDefinition, DefinitionName) -> Option<Seq<char>> {
    |slice: SliceDefinition, e: DefinitionName|
        if covers_error(slice, e@) {
            None
        } else {
            Some("command error '"@ + e@ + "' must be covered by a state-change scenario"@)
        }
}

pub open spec fn command_with_uncovered_error() -> spec_fn((EventModelDocument, SliceDefinition), DefinitionName) -> Option<
    Seq<char>,
> {
    |c: (EventModelDocument, SliceDefinition), command: DefinitionName|
        match command_def(c.0, command@) {
            Some(def) => first_with(c.1, def.errors@, uncovered_error()),
            None => None,
        }
}

pub open spec fn state_change_with_uncovered_error() -> spec_fn(EventModelDocument, SliceDefinition) -> Option<
    Seq<char>,
> {
    |doc: EventModelDocument, slice: SliceDefinition|
        if slice.slice_type == SliceType::StateChange {
            first_with((doc, slice), slice.issued_commands@, command_with_uncovered_error())
        } else {
            None
        }
}

pub open spec fn uncovered_error_issue(doc: EventModelDocument) -> Option<Seq<char>> {
    first_with(doc, doc.slice_definitions@, state_change_with_uncovered_error())
}

fn check_uncovered_error(slice: &SliceDefinition, e: &DefinitionName) -> (r: Option<ValidationIssue>)
    ensures
        issue_view(r) == uncovered_error()(*slice, *e),
{
    if state_change_slice_covers_command_error(slice, e) {
        None
    } else {
        Some(msg3("command error '", e.as_str(), "' must be covered by a state-change scenario"))
    }
}

fn check_command_uncovered_error(doc: &EventModelDocument, slice: &SliceDefinition, command: &DefinitionName) -> (r:
    Option<ValidationIssue>)
    ensures
        issue_view(r) == command_with_uncovered_error()((*doc, *slice), *command),
{
    match command_definition(doc, command) {
        Some(def) => first_issue_with(slice, &def.errors, check_uncovered_error, Ghost(uncovered_error())),
        None => None,
    }
}

fn check_state_change_errors(doc: &EventModelDocument, slice: &SliceDefinition) -> (r: Option<
    ValidationIssue,
>)
    ensures
        issue_view(r) == state_change_with_uncovered_error()(*doc, *slice),
{
    if slice.slice_type == SliceType::StateChange {
        first_issue_with2(
            doc,
            slice,
            &slice.issued_commands,
            check_command_uncovered_error,
            Ghost(command_with_uncovered_error()),
        )
    } else {
        None
    }
}

pub fn validate_state_change_command_error_scenarios(doc: &EventModelDocument) -> (r: Result<
    (),
    ValidationIssue,
>)
    ensures
        issue_of(r) == uncovered_error_issue(*doc),
{
    into_result(
        first_issue_with(
            doc,
            &doc.slice_definitions,
            check_state_change_errors,
            Ghost(state_change_with_uncovered_error()),
        ),
    )
}

} // verus!
