//! The whole validation of one document: every rule, in order; the first
//! issue found is the one reported.

use vstd::prelude::*;

use crate::validation::find::{issue_of, lemma_first_with_at, lemma_first_with_none, or_else};
use crate::validation::model::{AutomationCommandPolicy, SliceType};
use crate::validation::model::EventModelDocument;
use crate::validation::names::ValidationIssue;
use crate::validation::reach::{reachable_from_entry_issue, validate_workflow_steps_reachable_from_entry};
use crate::validation::rules_board::{ElementFault, board_lane_issue, element_fault_issue, element_lane_issue, element_reference_issue, validate_board_automation_references, validate_board_element_lanes, validate_board_element_references, validate_board_external_event_references, validate_board_lane_ids, validate_external_events_not_modeled_as_automation, validate_unnamed_board_automation_references};
use crate::validation::rules_connections::{ConnectionFault, LinkFault, connection_fault_issue, link_fault_issue, validate_board_connection_kinds, validate_command_board_triggers, validate_command_event_board_connections, validate_event_read_model_board_connections, validate_read_model_view_board_connections, validate_undeclared_external_event_bridges, validate_view_command_board_connections};
use crate::validation::rules_data::{AttributeFault, FieldFault, attribute_fault_issue, external_source_issue, field_fault_issue, field_source_issue, input_field_issue, legacy_reads_issue, transitive_issue, validate_absence_default_read_model_field_events, validate_absence_default_read_model_field_scenarios, validate_command_input_external_source_fields, validate_command_legacy_read_model_reads, validate_command_sourced_event_attributes, validate_derived_read_model_field_provenance, validate_derived_read_model_field_scenarios, validate_external_sourced_event_attributes, validate_generated_event_attribute_sources, validate_read_model_field_event_sources, validate_read_model_sourced_event_attributes, validate_transitive_read_model_derivation};
use crate::validation::rules_kinds::{automation_with_many_commands, automation_error_handling_issue, automation_policy_issue, automation_trigger_issue, payload_variant_issue, singleton_issue, state_change_automations_issue, state_change_events_issue, state_change_read_models_issue, state_change_views_issue, state_view_commands_issue, state_view_views_issue, translation_contract_issue, translation_views_issue, trigger_scenario_issue, uncovered_error_issue, undeclared_error_issue, validate_automation_slice_command_error_handling, validate_automation_slice_command_policy, validate_automation_slice_trigger_scenarios, validate_automation_slice_triggers, validate_scenario_command_errors_are_declared, validate_singleton_state_change_repeat_behavior, validate_state_change_command_error_scenarios, validate_state_change_slices_do_not_own_automations, validate_state_change_slices_do_not_own_read_models, validate_state_change_slices_do_not_own_views, validate_state_change_slices_emit_events, validate_state_view_slices_do_not_own_commands, validate_state_view_slices_own_views, validate_translation_slice_external_contracts, validate_translation_slice_payload_variant_scenarios, validate_translation_slice_view_ownership};
use crate::validation::rules_outcomes::{duplicate_event_set_issue, duplicate_outcome_label_issue, empty_outcome_issue, event_producer_issue, event_stream_issue, foreign_outcome_event_issue, given_streams_issue, unknown_outcome_event_issue, validate_duplicate_outcome_event_sets, validate_duplicate_outcome_labels, validate_event_producers, validate_event_stream_references, validate_outcome_event_sets_not_empty, validate_outcome_events_belong_to_slice, validate_outcome_events_reference_known_events, validate_state_change_scenario_given_streams};
use crate::validation::rules_slices::{acceptance_boundary_issue, duplicate_scenario_issue, empty_state_issue, legacy_scenarios_issue, projector_contract_issue, scenario_when_issue, validate_acceptance_scenario_boundaries, validate_duplicate_scenario_names, validate_no_legacy_slice_scenarios, validate_scenario_when_fields, validate_state_view_empty_read_model_state_scenarios, validate_state_view_projector_contract_scenarios};
use crate::validation::rules_views::{NavigationFault, control_error_handling_issue, intermediate_issue, local_state_issue, modeled_target_issue, navigation_fault_issue, recovery_issue, validate_board_read_model_to_command_intermediates, validate_control_command_error_handling, validate_control_error_handling_recovery, validate_external_system_navigation_targets, validate_external_workflow_navigation_targets, validate_local_view_state_navigation_targets, validate_modeled_view_navigation_targets, validate_navigation_controls_declare_type};
use crate::validation::rules_workflow::{alternate_rationale_issue, async_lifecycle_issue, board_key_issue, composition_steps_issue, duplicate_definition_issue, duplicate_step_slice_issue, entry_before_bootstrap_issue, entry_step_count_issue, incoming_reachability_issue, internal_definitions_issue, referenced_slices_used_issue, slice_file_count_issue, steps_reference_slices_issue, top_level_keys_issue, unknown_target_issue, validate_alternate_workflow_step_rationale, validate_application_entry_before_bootstrap, validate_async_lifecycle_steps_not_main, validate_board_key, validate_duplicate_named_definitions, validate_duplicate_workflow_step_slices, validate_slice_file_count, validate_top_level_keys, validate_workflow_composition_steps, validate_workflow_entry_step_count, validate_workflow_internal_definitions, validate_workflow_referenced_slices_are_used, validate_workflow_step_incoming_reachability, validate_workflow_steps_compose_whole_slices, validate_workflow_steps_reference_composed_slices, validate_workflow_transition_targets_known_steps, whole_slices_issue};

verus! {

/// The shape of the document and the steps of its workflow.
pub open spec fn structure_issue(doc: EventModelDocument) -> Option<Seq<char>> {
    or_else(top_level_keys_issue(doc), or_else(board_key_issue(doc), or_else(duplicate_definition_issue(doc), or_else(slice_file_count_issue(doc), or_else(composition_steps_issue(doc), or_else(entry_step_count_issue(doc), or_else(internal_definitions_issue(doc), or_else(whole_slices_issue(doc), or_else(steps_reference_slices_issue(doc), or_else(referenced_slices_used_issue(doc), or_else(duplicate_step_slice_issue(doc), or_else(unknown_target_issue(doc), or_else(alternate_rationale_issue(doc), or_else(async_lifecycle_issue(doc), or_else(entry_before_bootstrap_issue(doc), or_else(incoming_reachability_issue(doc), reachable_from_entry_issue(doc)))))))))))))))))
}

fn validate_structure(doc: &EventModelDocument) -> (r: Result<(), ValidationIssue>)
    ensures
        issue_of(r) == structure_issue(*doc),
{
    let r = validate_top_level_keys(doc);
    if r.is_err() {
        return r;
    }
    let r = validate_board_key(doc);
    if r.is_err() {
        return r;
    }
    let r = validate_duplicate_named_definitions(doc);
    if r.is_err() {
        return r;
    }
    let r = validate_slice_file_count(doc);
    if r.is_err() {
        return r;
    }
    let r = validate_workflow_composition_steps(doc);
    if r.is_err() {
        return r;
    }
    let r = validate_workflow_entry_step_count(doc);
    if r.is_err() {
        return r;
    }
    let r = validate_workflow_internal_definitions(doc);
    if r.is_err() {
        return r;
    }
    let r = validate_workflow_steps_compose_whole_slices(doc);
    if r.is_err() {
        return r;
    }
    let r = validate_workflow_steps_reference_composed_slices(doc);
    if r.is_err() {
        return r;
    }
    let r = validate_workflow_referenced_slices_are_used(doc);
    if r.is_err() {
        return r;
    }
    let r = validate_duplicate_workflow_step_slices(doc);
    if r.is_err() {
        return r;
    }
    let r = validate_workflow_transition_targets_known_steps(doc);
    if r.is_err() {
        return r;
    }
    let r = validate_alternate_workflow_step_rationale(doc);
    if r.is_err() {
        return r;
    }
    let r = validate_async_lifecycle_steps_not_main(doc);
    if r.is_err() {
        return r;
    }
    let r = validate_application_entry_before_bootstrap(doc);
    if r.is_err() {
        return r;
    }
    let r = validate_workflow_step_incoming_reachability(doc);
    if r.is_err() {
        return r;
    }
    validate_workflow_steps_reachable_from_entry(doc)
}

/// The scenarios, outcomes, events and kinds of the slices.
pub open spec fn slices_issue(doc: EventModelDocument) -> Option<Seq<char>> {
    or_else(legacy_scenarios_issue(doc), or_else(scenario_when_issue(doc), or_else(duplicate_scenario_issue(doc), or_else(acceptance_boundary_issue(doc), or_else(projector_contract_issue(doc), or_else(empty_state_issue(doc), or_else(duplicate_outcome_label_issue(doc), or_else(empty_outcome_issue(doc), or_else(unknown_outcome_event_issue(doc), or_else(foreign_outcome_event_issue(doc), or_else(duplicate_event_set_issue(doc), or_else(event_stream_issue(doc), or_else(event_producer_issue(doc), or_else(given_streams_issue(doc), or_else(singleton_issue(doc), or_else(translation_contract_issue(doc), or_else(translation_views_issue(doc), or_else(payload_variant_issue(doc), or_else(automation_trigger_issue(doc), or_else(trigger_scenario_issue(doc), or_else(automation_policy_issue(doc), or_else(automation_error_handling_issue(doc), or_else(undeclared_error_issue(doc), uncovered_error_issue(doc))))))))))))))))))))))))
}

fn validate_slices(doc: &EventModelDocument) -> (r: Result<(), ValidationIssue>)
    ensures
        issue_of(r) == slices_issue(*doc),
{
    let r = validate_no_legacy_slice_scenarios(doc);
    if r.is_err() {
        return r;
    }
    let r = validate_scenario_when_fields(doc);
    if r.is_err() {
        return r;
    }
    let r = validate_duplicate_scenario_names(doc);
    if r.is_err() {
        return r;
    }
    let r = validate_acceptance_scenario_boundaries(doc);
    if r.is_err() {
        return r;
    }
    let r = validate_state_view_projector_contract_scenarios(doc);
    if r.is_err() {
        return r;
    }
    let r = validate_state_view_empty_read_model_state_scenarios(doc);
    if r.is_err() {
        return r;
    }
    let r = validate_duplicate_outcome_labels(doc);
    if r.is_err() {
        return r;
    }
    let r = validate_outcome_event_sets_not_empty(doc);
    if r.is_err() {
        return r;
    }
    let r = validate_outcome_events_reference_known_events(doc);
    if r.is_err() {
        return r;
    }
    let r = validate_outcome_events_belong_to_slice(doc);
    if r.is_err() {
        return r;
    }
    let r = validate_duplicate_outcome_event_sets(doc);
    if r.is_err() {
        return r;
    }
    let r = validate_event_stream_references(doc);
    if r.is_err() {
        return r;
    }
    let r = validate_event_producers(doc);
    if r.is_err() {
        return r;
    }
    let r = validate_state_change_scenario_given_streams(doc);
    if r.is_err() {
        return r;
    }
    let r = validate_singleton_state_change_repeat_behavior(doc);
    if r.is_err() {
        return r;
    }
    let r = validate_translation_slice_external_contracts(doc);
    if r.is_err() {
        return r;
    }
    let r = validate_translation_slice_view_ownership(doc);
    if r.is_err() {
        return r;
    }
    let r = validate_translation_slice_payload_variant_scenarios(doc);
    if r.is_err() {
        return r;
    }
    let r = validate_automation_slice_triggers(doc);
    if r.is_err() {
        return r;
    }
    let r = validate_automation_slice_trigger_scenarios(doc);
    if r.is_err() {
        return r;
    }
    let r = validate_automation_slice_command_policy(doc);
    if r.is_err() {
        return r;
    }
    let r = validate_automation_slice_command_error_handling(doc);
    if r.is_err() {
        return r;
    }
    let r = validate_scenario_command_errors_are_declared(doc);
    if r.is_err() {
        return r;
    }
    validate_state_change_command_error_scenarios(doc)
}

/// The controls and navigation of the views.
pub open spec fn views_issue(doc: EventModelDocument) -> Option<Seq<char>> {
    or_else(control_error_handling_issue(doc), or_else(recovery_issue(doc), or_else(navigation_fault_issue(doc, NavigationFault::Unclassified), or_else(modeled_target_issue(doc), or_else(local_state_issue(doc), or_else(navigation_fault_issue(doc, NavigationFault::NoWorkflowTarget), navigation_fault_issue(doc, NavigationFault::NoExternalSystem)))))))
}

fn validate_views(doc: &EventModelDocument) -> (r: Result<(), ValidationIssue>)
    ensures
        issue_of(r) == views_issue(*doc),
{
    let r = validate_control_command_error_handling(doc);
    if r.is_err() {
        return r;
    }
    let r = validate_control_error_handling_recovery(doc);
    if r.is_err() {
        return r;
    }
    let r = validate_navigation_controls_declare_type(doc);
    if r.is_err() {
        return r;
    }
    let r = validate_modeled_view_navigation_targets(doc);
    if r.is_err() {
        return r;
    }
    let r = validate_local_view_state_navigation_targets(doc);
    if r.is_err() {
        return r;
    }
    let r = validate_external_workflow_navigation_targets(doc);
    if r.is_err() {
        return r;
    }
    validate_external_system_navigation_targets(doc)
}

/// The lanes, elements and connections of the board.
pub open spec fn board_issue(doc: EventModelDocument) -> Option<Seq<char>> {
    or_else(board_lane_issue(doc), or_else(element_lane_issue(doc), or_else(element_reference_issue(doc), or_else(intermediate_issue(doc), or_else(element_fault_issue(doc, ElementFault::ExternalEventAsAutomation), or_else(element_fault_issue(doc, ElementFault::UnknownAutomation), or_else(element_fault_issue(doc, ElementFault::UndeclaredUnnamedAutomation), or_else(element_fault_issue(doc, ElementFault::UnknownExternalEvent), or_else(link_fault_issue(doc, LinkFault::UndeclaredBridge), or_else(connection_fault_issue(doc, ConnectionFault::NotCausal), or_else(link_fault_issue(doc, LinkFault::UntriggeredCommand), or_else(connection_fault_issue(doc, ConnectionFault::EventNotProduced), or_else(connection_fault_issue(doc, ConnectionFault::EventNotProjected), or_else(connection_fault_issue(doc, ConnectionFault::CommandNotInvoked), link_fault_issue(doc, LinkFault::ReadModelWithoutUpdate)))))))))))))))
}

fn validate_board(doc: &EventModelDocument) -> (r: Result<(), ValidationIssue>)
    ensures
        issue_of(r) == board_issue(*doc),
{
    let r = validate_board_lane_ids(doc);
    if r.is_err() {
        return r;
    }
    let r = validate_board_element_lanes(doc);
    if r.is_err() {
        return r;
    }
    let r = validate_board_element_references(doc);
    if r.is_err() {
        return r;
    }
    let r = validate_board_read_model_to_command_intermediates(doc);
    if r.is_err() {
        return r;
    }
    let r = validate_external_events_not_modeled_as_automation(doc);
    if r.is_err() {
        return r;
    }
    let r = validate_board_automation_references(doc);
    if r.is_err() {
        return r;
    }
    let r = validate_unnamed_board_automation_references(doc);
    if r.is_err() {
        return r;
    }
    let r = validate_board_external_event_references(doc);
    if r.is_err() {
        return r;
    }
    let r = validate_undeclared_external_event_bridges(doc);
    if r.is_err() {
        return r;
    }
    let r = validate_board_connection_kinds(doc);
    if r.is_err() {
        return r;
    }
    let r = validate_command_board_triggers(doc);
    if r.is_err() {
        return r;
    }
    let r = validate_command_event_board_connections(doc);
    if r.is_err() {
        return r;
    }
    let r = validate_event_read_model_board_connections(doc);
    if r.is_err() {
        return r;
    }
    let r = validate_view_command_board_connections(doc);
    if r.is_err() {
        return r;
    }
    validate_read_model_view_board_connections(doc)
}

/// The sources of event attributes, command inputs and read model fields.
pub open spec fn data_issue(doc: EventModelDocument) -> Option<Seq<char>> {
    or_else(attribute_fault_issue(doc, AttributeFault::CommandInput), or_else(legacy_reads_issue(doc), or_else(external_source_issue(doc), or_else(attribute_fault_issue(doc, AttributeFault::ReadModelSource), or_else(attribute_fault_issue(doc, AttributeFault::Generated), or_else(input_field_issue(doc), or_else(field_fault_issue(doc, FieldFault::DerivationWithoutProvenance), or_else(field_fault_issue(doc, FieldFault::DerivationWithoutScenarios), or_else(field_fault_issue(doc, FieldFault::DefaultWithoutAbsenceEvent), or_else(field_fault_issue(doc, FieldFault::DefaultWithoutScenarios), or_else(transitive_issue(doc), field_source_issue(doc))))))))))))
}

fn validate_data(doc: &EventModelDocument) -> (r: Result<(), ValidationIssue>)
    ensures
        issue_of(r) == data_issue(*doc),
{
    let r = validate_command_sourced_event_attributes(doc);
    if r.is_err() {
        return r;
    }
    let r = validate_command_legacy_read_model_reads(doc);
    if r.is_err() {
        return r;
    }
    let r = validate_external_sourced_event_attributes(doc);
    if r.is_err() {
        return r;
    }
    let r = validate_read_model_sourced_event_attributes(doc);
    if r.is_err() {
        return r;
    }
    let r = validate_generated_event_attribute_sources(doc);
    if r.is_err() {
        return r;
    }
    let r = validate_command_input_external_source_fields(doc);
    if r.is_err() {
        return r;
    }
    let r = validate_derived_read_model_field_provenance(doc);
    if r.is_err() {
        return r;
    }
    let r = validate_derived_read_model_field_scenarios(doc);
    if r.is_err() {
        return r;
    }
    let r = validate_absence_default_read_model_field_events(doc);
    if r.is_err() {
        return r;
    }
    let r = validate_absence_default_read_model_field_scenarios(doc);
    if r.is_err() {
        return r;
    }
    let r = validate_transitive_read_model_derivation(doc);
    if r.is_err() {
        return r;
    }
    validate_read_model_field_event_sources(doc)
}

/// What state-view and state-change slices own.
pub open spec fn ownership_issue(doc: EventModelDocument) -> Option<Seq<char>> {
    or_else(state_view_views_issue(doc), or_else(state_view_commands_issue(doc), or_else(state_change_events_issue(doc), or_else(state_change_views_issue(doc), or_else(state_change_read_models_issue(doc), state_change_automations_issue(doc))))))
}

fn validate_ownership(doc: &EventModelDocument) -> (r: Result<(), ValidationIssue>)
    ensures
        issue_of(r) == ownership_issue(*doc),
{
    let r = validate_state_view_slices_own_views(doc);
    if r.is_err() {
        return r;
    }
    let r = validate_state_view_slices_do_not_own_commands(doc);
    if r.is_err() {
        return r;
    }
    let r = validate_state_change_slices_emit_events(doc);
    if r.is_err() {
        return r;
    }
    let r = validate_state_change_slices_do_not_own_views(doc);
    if r.is_err() {
        return r;
    }
    let r = validate_state_change_slices_do_not_own_read_models(doc);
    if r.is_err() {
        return r;
    }
    validate_state_change_slices_do_not_own_automations(doc)
}

/// The first issue of the document, in the order the rules are checked.
pub open spec fn document_issue(doc: EventModelDocument) -> Option<Seq<char>> {
    or_else(structure_issue(doc), or_else(slices_issue(doc), or_else(views_issue(doc), or_else(board_issue(doc), or_else(data_issue(doc), ownership_issue(doc))))))
}

/// Checks every rule on the document, in order, and reports the first issue.
pub fn validate_event_model(doc: &EventModelDocument) -> (r: Result<(), ValidationIssue>)
    ensures
        issue_of(r) == document_issue(*doc),
{
    let r = validate_structure(doc);
    if r.is_err() {
        return r;
    }
    let r = validate_slices(doc);
    if r.is_err() {
        return r;
    }
    let r = validate_views(doc);
    if r.is_err() {
        return r;
    }
    let r = validate_board(doc);
    if r.is_err() {
        return r;
    }
    let r = validate_data(doc);
    if r.is_err() {
        return r;
    }
    validate_ownership(doc)
}

/// An automation slice that issues several commands per operation is
/// reported by name, the first such slice, once every rule checked before
/// that one passes.
pub proof fn law_automation_slice_must_issue_one_command(doc: EventModelDocument, i: int)
    requires
        0 <= i < doc.slice_definitions@.len(),
        doc.slice_definitions@[i].slice_type == SliceType::Automation,
        doc.slice_definitions@[i].automation_command_policy == AutomationCommandPolicy::MultipleCommands,
        forall|j: int|
            0 <= j < i ==> !(#[trigger] doc.slice_definitions@[j].slice_type == SliceType::Automation
                && doc.slice_definitions@[j].automation_command_policy
                == AutomationCommandPolicy::MultipleCommands),
        structure_issue(doc) is None,
        legacy_scenarios_issue(doc) is None,
        scenario_when_issue(doc) is None,
        duplicate_scenario_issue(doc) is None,
        acceptance_boundary_issue(doc) is None,
        projector_contract_issue(doc) is None,
        empty_state_issue(doc) is None,
        duplicate_outcome_label_issue(doc) is None,
        empty_outcome_issue(doc) is None,
        unknown_outcome_event_issue(doc) is None,
        foreign_outcome_event_issue(doc) is None,
        duplicate_event_set_issue(doc) is None,
        event_stream_issue(doc) is None,
        event_producer_issue(doc) is None,
        given_streams_issue(doc) is None,
        singleton_issue(doc) is None,
        translation_contract_issue(doc) is None,
        translation_views_issue(doc) is None,
        payload_variant_issue(doc) is None,
        automation_trigger_issue(doc) is None,
        trigger_scenario_issue(doc) is None,
    ensures
        document_issue(doc) == Some(
            "automation slice '"@ + doc.slice_definitions@[i].name@
                + "' must issue one command per operation"@,
        ),
{
    let s = doc.slice_definitions@;
    assert forall|j: int| 0 <= j < i implies #[trigger] automation_with_many_commands()(doc, s[j]) is None by {
        assert(!(s[j].slice_type == SliceType::Automation && s[j].automation_command_policy
            == AutomationCommandPolicy::MultipleCommands));
    }
    lemma_first_with_at(doc, s, automation_with_many_commands(), i);
}

/// No slice other than an automation slice that issues several commands
/// per operation is held to issuing one command per operation.
pub proof fn law_only_automation_slices_are_held_to_one_command(doc: EventModelDocument)
    requires
        forall|j: int|
            0 <= j < doc.slice_definitions@.len() ==> !(
            #[trigger] doc.slice_definitions@[j].slice_type == SliceType::Automation
                && doc.slice_definitions@[j].automation_command_policy
                == AutomationCommandPolicy::MultipleCommands),
    ensures
        automation_policy_issue(doc) is None,
{
    let s = doc.slice_definitions@;
    lemma_first_with_none(doc, s, automation_with_many_commands());
    assert forall|j: int| 0 <= j < s.len() implies #[trigger] automation_with_many_commands()(doc, s[j]) is None by {
        assert(!(s[j].slice_type == SliceType::Automation && s[j].automation_command_policy
            == AutomationCommandPolicy::MultipleCommands));
    }
}

} // verus!
