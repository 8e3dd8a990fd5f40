use emc::dto::{
    parse_board_connection_endpoint_kind, parse_board_element_kind, parse_board_lane_id,
    parse_command_error_recovery_kind, parse_command_input_source_kind, parse_contract_kind_name,
    parse_control_recovery_behavior, parse_data_flow_source_kind,
    parse_event_attribute_source_kind, parse_lean_module_name, parse_model_description,
    parse_model_digest, parse_model_name, parse_navigation_target_type, parse_project_name,
    parse_quint_module_name, parse_read_model_field_source_kind, parse_review_timestamp,
    parse_reviewer_id, parse_scenario_kind, parse_singleton_repeat_behavior, parse_slice_slug,
    parse_transformation_semantics, parse_transition_trigger_name, parse_view_field_source_kind,
    parse_workflow_entry_lifecycle_state_name, parse_workflow_event_participation,
    parse_workflow_owned_definition_kind, parse_workflow_slug, parse_workflow_transition_endpoint,
    parse_workflow_transition_kind, parse_workflow_view_role,
};
use emc::types::{
    EventDraftType, EventStreamId, ProjectPath, ReviewRuleName, ReviewStatus, SliceKindName,
    WorkflowStepRelationshipName,
};

#[test]
fn boundary_parsers_convert_raw_strings_to_semantic_types() {
    let project_name = parse_project_name(" Repair Desk ").unwrap();
    let model_name = parse_model_name(" Repair Desk ").unwrap();
    let model_description = parse_model_description(" Repairs organization access ").unwrap();
    let workflow_slug = parse_workflow_slug(" Organization Access ").unwrap();
    let slice_slug = parse_slice_slug(" Resolve Application Entry ").unwrap();
    let lean_module = parse_lean_module_name(" RepairDesk ").unwrap();
    let quint_module = parse_quint_module_name(" RepairDesk ").unwrap();
    let digest = parse_model_digest(" abc123 ").unwrap();
    let transition_trigger = parse_transition_trigger_name(" Open request ").unwrap();
    let transition_endpoint = parse_workflow_transition_endpoint(" capture-ticket ").unwrap();
    let transition_kind = parse_workflow_transition_kind(" navigation ").unwrap();
    let signer = parse_reviewer_id(" event-model-signer ").unwrap();
    let reviewed_at = parse_review_timestamp(" 2026-06-03T00:00:00.000Z ").unwrap();

    assert_eq!(project_name.as_str(), "Repair Desk", "project name is trimmed");
    assert_eq!(model_name.as_str(), "Repair Desk", "model name is trimmed");
    assert_eq!(model_description.as_str(), "Repairs organization access", "model description is trimmed");
    assert_eq!(workflow_slug.as_str(), "organization-access", "workflow slug is normalized");
    assert_eq!(slice_slug.as_str(), "resolve-application-entry", "slice slug is normalized");
    assert_eq!(lean_module.as_str(), "RepairDesk", "Lean module name is trimmed");
    assert_eq!(quint_module.as_str(), "RepairDesk", "Quint module name is trimmed");
    assert_eq!(digest.as_str(), "abc123", "digest is trimmed");
    assert_eq!(transition_trigger.as_str(), "Open request", "transition trigger is trimmed");
    assert_eq!(transition_endpoint.as_str(), "capture-ticket", "workflow transition endpoint is trimmed");
    assert_eq!(transition_kind.as_str(), "navigation", "workflow transition kind is trimmed");
    assert_eq!(signer.as_str(), "event-model-signer", "the signer id is trimmed");
    assert_eq!(reviewed_at.as_str(), "2026-06-03T00:00:00.000Z", "review timestamp is trimmed");
}

#[test]
fn boundary_parsers_reject_empty_semantic_values() {
    assert!(parse_project_name("   ").is_err());
    assert!(parse_model_name("   ").is_err());
    assert!(parse_model_description("   ").is_err());
    assert!(parse_workflow_slug("   ").is_err());
    assert!(parse_slice_slug("   ").is_err());
    assert!(parse_lean_module_name("   ").is_err());
    assert!(parse_quint_module_name("   ").is_err());
    assert!(parse_model_digest("   ").is_err());
    assert!(parse_transition_trigger_name("   ").is_err());
    assert!(parse_workflow_transition_endpoint("   ").is_err());
    assert!(parse_workflow_transition_kind("   ").is_err());
    assert!(parse_reviewer_id("   ").is_err());
    assert!(parse_review_timestamp("   ").is_err());
}

#[test]
fn review_timestamps_must_use_utc_millisecond_instants() {
    assert!(parse_review_timestamp("2026-06-03T00:00:00.000Z").is_ok());
    assert!(parse_review_timestamp("2026-06-03T00:00:00Z").is_err());
    assert!(parse_review_timestamp("2026-06-03 00:00:00.000Z").is_err());
    assert!(parse_review_timestamp("2026-06-03T00:00:00.000-07:00").is_err());
    assert!(parse_review_timestamp("202A-06-03T00:00:00.000Z").is_err());
    assert!(parse_review_timestamp("2026-0:-03T00:00:00.000Z").is_err());
    assert!(parse_review_timestamp("2026-19-03T00:00:00.000Z").is_err());
    assert!(parse_review_timestamp("2026-06-03T24:00:00.000Z").is_err());
    assert!(parse_review_timestamp("2026-06-03T00:60:00.000Z").is_err());
    assert!(parse_review_timestamp("2026-06-03T00:00:60.000Z").is_err());
    assert!(parse_review_timestamp("2026-06-03T00:00:00.A00Z").is_err());
    assert!(parse_review_timestamp("not-a-timestamp").is_err());
}

#[test]
fn project_paths_are_relative_to_the_current_project() {
    let path = ProjectPath::try_new("model/lean/OpenTicket.lean".to_owned()).unwrap();

    assert_eq!(path.as_str(), "model/lean/OpenTicket.lean");
    assert!(ProjectPath::try_new("/tmp/site".to_owned()).is_err(), "absolute paths must not enter project-local effects");
    assert!(ProjectPath::try_new("../outside-model".to_owned()).is_err(), "parent traversal must not enter project-local effects");
}

#[test]
fn exported_event_stream_ids_are_modeled_domain_terms() {
    for (raw, expected) in [
        ("project", "project"),
        ("workflow::open-ticket", "workflow::open-ticket"),
        ("slice::capture-ticket", "slice::capture-ticket"),
        ("review::open-ticket", "review::open-ticket"),
    ] {
        let stream_id = EventStreamId::try_new(raw.to_owned()).unwrap();
        assert_eq!(stream_id.as_str(), expected);
    }
    for raw in ["", "artifact::open-ticket", "workflow::", "slice::", "review::", "workflow::open::ticket"] {
        assert!(EventStreamId::try_new(raw.to_owned()).is_err(), "{raw:?} must not be a stream id");
    }
}

#[test]
fn workflow_transition_kinds_are_closed_domain_terms() {
    for term in ["command", "event", "navigation", "external_trigger", "outcome", "workflow_exit:command", "workflow_exit:event", "workflow_exit:navigation", "workflow_exit:external_trigger", "workflow_exit:outcome"] {
        assert!(parse_workflow_transition_kind(term).is_ok(), "{term} should be accepted");
    }
    assert!(parse_workflow_transition_kind("screen-flow").is_err());
    assert!(parse_workflow_transition_kind("workflow_exit").is_err());
}

#[test]
fn workflow_owned_definition_kinds_are_closed_domain_terms() {
    for term in ["command", "event", "view", "control", "read_model", "outcome", "error", "automation", "translation", "external_payload"] {
        assert!(parse_workflow_owned_definition_kind(term).is_ok(), "{term} should be accepted");
    }
    assert!(parse_workflow_owned_definition_kind("spreadsheet").is_err());
}

#[test]
fn workflow_owned_definition_roles_are_closed_domain_terms() {
    for role in ["emitted", "observed"] {
        assert!(parse_workflow_event_participation(role).is_ok(), "{role} should be accepted");
    }
    assert!(parse_workflow_event_participation("subscribed").is_err());
    assert!(parse_workflow_view_role("entry").is_ok());
    assert!(parse_workflow_view_role("summary").is_err());
}

#[test]
fn slice_kind_names_are_closed_domain_terms() {
    for term in ["state_view", "state_change", "translation", "automation"] {
        assert!(SliceKindName::try_new(term.to_owned()).is_ok(), "{term} should be accepted");
    }
    assert!(SliceKindName::try_new("spreadsheet".to_owned()).is_err());
}

#[test]
fn workflow_step_relationships_are_closed_domain_terms() {
    for term in ["entry", "main", "branch", "alternate", "async_lifecycle", "supporting"] {
        assert!(WorkflowStepRelationshipName::try_new(term.to_owned()).is_ok(), "{term} should be accepted");
    }
    assert!(WorkflowStepRelationshipName::try_new("optional".to_owned()).is_err());
}

#[test]
fn workflow_entry_lifecycle_states_are_closed_domain_terms() {
    for term in ["fresh_uninitialized", "initialized_unauthenticated", "initialized_authenticated", "partially_configured", "fully_configured"] {
        assert!(parse_workflow_entry_lifecycle_state_name(term).is_ok(), "{term} should be accepted");
    }
    assert!(parse_workflow_entry_lifecycle_state_name("logged_in").is_err());
}

#[test]
fn command_input_source_kinds_are_closed_domain_terms() {
    for term in ["actor", "session", "generated", "external_payload", "event_stream_state", "invocation_argument"] {
        assert!(parse_command_input_source_kind(term).is_ok(), "{term} should be accepted");
    }
    assert!(parse_command_input_source_kind("spreadsheet").is_err());
}

#[test]
fn command_error_recovery_kinds_are_closed_domain_terms() {
    for term in ["retry", "stay_on_screen", "navigation", "explicit_recovery_action"] {
        assert!(parse_command_error_recovery_kind(term).is_ok(), "{term} should be accepted");
    }
    assert!(parse_command_error_recovery_kind("email_support").is_err());
}

#[test]
fn control_recovery_behaviors_are_closed_domain_terms() {
    for term in ["retry", "stay_on_screen", "navigation", "explicit_recovery_action"] {
        assert!(parse_control_recovery_behavior(term).is_ok(), "{term} should be accepted");
    }
    assert!(parse_control_recovery_behavior("email_support").is_err());
}

#[test]
fn singleton_repeat_behaviors_are_closed_domain_terms() {
    for term in ["already_exists_error", "idempotent"] {
        assert!(parse_singleton_repeat_behavior(term).is_ok(), "{term} should be accepted");
    }
    assert!(parse_singleton_repeat_behavior("replace_existing").is_err());
}

#[test]
fn read_model_field_source_kinds_are_closed_domain_terms() {
    for term in ["event_attribute", "derivation", "absence_default"] {
        assert!(parse_read_model_field_source_kind(term).is_ok(), "{term} should be accepted");
    }
    assert!(parse_read_model_field_source_kind("spreadsheet").is_err());
}

#[test]
fn view_field_source_kinds_are_closed_domain_terms() {
    for term in ["read_model"] {
        assert!(parse_view_field_source_kind(term).is_ok(), "{term} should be accepted");
    }
    assert!(parse_view_field_source_kind("event_attribute").is_err());
}

#[test]
fn navigation_target_types_are_closed_domain_terms() {
    for term in ["modeled_view", "local_view_state", "external_system", "external_workflow"] {
        assert!(parse_navigation_target_type(term).is_ok(), "{term} should be accepted");
    }
    assert!(parse_navigation_target_type("url").is_err());
}

#[test]
fn event_attribute_source_kinds_are_closed_domain_terms() {
    for term in ["command_input", "external_payload", "generated", "session", "derivation"] {
        assert!(parse_event_attribute_source_kind(term).is_ok(), "{term} should be accepted");
    }
    assert!(parse_event_attribute_source_kind("spreadsheet").is_err());
}

#[test]
fn board_lane_ids_are_closed_domain_terms() {
    for term in ["ux", "actions", "events"] {
        assert!(parse_board_lane_id(term).is_ok(), "{term} should be accepted");
    }
    assert!(parse_board_lane_id("support").is_err());
}

#[test]
fn board_element_kinds_are_closed_domain_terms() {
    for term in ["view", "automation", "external_event", "command", "read_model", "event"] {
        assert!(parse_board_element_kind(term).is_ok(), "{term} should be accepted");
    }
    assert!(parse_board_element_kind("workflow_trigger").is_err());
}

#[test]
fn board_connection_endpoint_kinds_are_closed_domain_terms() {
    for term in ["view", "automation", "external_event", "workflow_trigger", "command", "event", "read_model"] {
        assert!(parse_board_connection_endpoint_kind(term).is_ok(), "{term} should be accepted");
    }
    assert!(parse_board_connection_endpoint_kind("scheduler").is_err());
}

#[test]
fn data_flow_source_kinds_are_closed_domain_terms() {
    for term in ["original", "modeled_target"] {
        assert!(parse_data_flow_source_kind(term).is_ok(), "{term} should be accepted");
    }
    assert!(parse_data_flow_source_kind("event_attribute").is_err());
}

#[test]
fn transformation_semantics_are_closed_domain_terms() {
    for term in ["identity", "projection", "derivation", "default", "absence", "transformation"] {
        assert!(parse_transformation_semantics(term).is_ok(), "{term} should be accepted");
    }
    assert!(parse_transformation_semantics("custom_mapping").is_err());
}

#[test]
fn contract_kinds_are_closed_domain_terms() {
    for term in ["projector", "command", "automation", "translation", "derivation", "absence", "transitive"] {
        assert!(parse_contract_kind_name(term).is_ok(), "{term} should be accepted");
    }
    assert!(parse_contract_kind_name("integration").is_err());
}

#[test]
fn scenario_kinds_are_closed_domain_terms() {
    for term in ["acceptance", "contract"] {
        assert!(parse_scenario_kind(term).is_ok(), "{term} should be accepted");
    }
    assert!(parse_scenario_kind("journey").is_err());
}

#[test]
fn review_statuses_are_closed_domain_terms() {
    for term in ["clean", "changes_requested"] {
        assert!(ReviewStatus::try_new(term.to_owned()).is_ok(), "{term} should be accepted");
    }
    assert!(ReviewStatus::try_new("approved".to_owned()).is_err());
}

#[test]
fn review_rule_names_are_closed_domain_terms() {
    for term in ["lifecycle-entry", "canonical-lanes", "board-connections", "fake-intermediates", "slice-ownership", "source-chains", "workflow-reachability", "transition-resolution", "navigation-targets", "branch-shape", "outcomes-and-errors", "scenario-coverage", "timeline-rendering"] {
        assert!(ReviewRuleName::try_new(term.to_owned()).is_ok(), "{term} should be accepted");
    }
    assert!(ReviewRuleName::try_new("manual-approval".to_owned()).is_err());
}

#[test]
fn exported_event_types_are_closed_domain_terms() {
    for term in ["ProjectInitialized", "WorkflowAdded", "WorkflowUpdated", "WorkflowRemoved", "WorkflowOutcomeAdded", "WorkflowCommandErrorAdded", "WorkflowOwnedDefinitionAdded", "WorkflowTransitionEvidenceAdded", "WorkflowEntryLifecycleCoverageRequired", "WorkflowEntryLifecycleStateAdded", "WorkflowReadinessDeclared", "WorkflowConnected", "WorkflowTransitionRemoved", "SliceAdded", "SliceUpdated", "SliceRemoved", "SliceScenarioAdded", "SliceOutcomeAdded", "SliceExternalPayloadAdded", "SliceEventDefinitionAdded", "SliceCommandDefinitionAdded", "SliceReadModelAdded", "SliceViewAdded", "SliceBitLevelDataFlowAdded", "SliceTranslationAdded", "SliceAutomationAdded", "SliceBoardElementAdded", "SliceBoardConnectionAdded", "ReviewRecorded", "ConflictResolved"] {
        assert!(EventDraftType::try_new(term.to_owned()).is_ok(), "{term} should be accepted");
    }
    assert!(EventDraftType::try_new("SliceFactAdded".to_owned()).is_err());
    assert!(EventDraftType::try_new("WorkflowRenamed".to_owned()).is_err());
}

#[test]
fn a_normalized_slug_reads_back_unchanged() {
    let first = parse_workflow_slug("  Open  Ticket -- Flow! ").unwrap();
    assert_eq!(first.as_str(), "open-ticket-flow");
    let again = parse_workflow_slug(first.as_str()).unwrap();
    assert_eq!(again.as_str(), first.as_str());
    let slice = parse_slice_slug("Capture__Ticket2").unwrap();
    assert_eq!(slice.as_str(), "capture-ticket2");
    assert_eq!(parse_slice_slug(slice.as_str()).unwrap().as_str(), "capture-ticket2");
}

#[test]
fn semantic_text_reads_back_unchanged() {
    let name = parse_model_name("  Repair Desk\t").unwrap();
    assert_eq!(parse_model_name(name.as_str()).unwrap().as_str(), name.as_str());
}
