use emc::validation::corpus::validate_event_model_corpus;
use emc::validation::model::{
    BoardLane, BoardLanes, EventDefinition, LegacyScenariosField, OutcomeDefinition, ScenarioSetKind, ScenarioStepField,
    SingletonBehavior, SliceScenario, SliceScenarioParts,
    DefinitionKind, EventModelDocument, EventModelDocumentParts, EventModelFileKind,
    NamedDefinition, SliceDefinition, SliceDefinitionCount, SliceDefinitionParts, SliceType,
    WorkflowComposition, WorkflowEntryStepCount, WorkflowInternalDefinitions, WorkflowStep,
    WorkflowStepExit, WorkflowStepLifecycleRole, WorkflowStepRelationship, WorkflowStepTrigger,
};
use emc::validation::names::{DefinitionName, NameSet, TopLevelKey, TopLevelKeys};
use emc::validation::validate::validate_event_model;

fn n(raw: &str) -> DefinitionName {
    DefinitionName::try_new(raw.to_owned()).unwrap()
}

fn keys(raw: &[&str]) -> TopLevelKeys {
    let mut keys = TopLevelKeys::new();
    for k in raw {
        keys.insert(TopLevelKey::try_new((*k).to_owned()).unwrap());
    }
    keys
}

fn set(raw: &[&str]) -> NameSet {
    let mut s = NameSet::new();
    for r in raw {
        s.insert(n(r));
    }
    s
}

const ALL_KEYS: [&str; 8] = ["name", "version", "streams", "events", "commands", "read_models", "slices", "board"];

fn base(kind: EventModelFileKind) -> EventModelDocumentParts {
    EventModelDocumentParts::new(kind).with_top_level_keys(keys(&ALL_KEYS))
}

fn message(doc: EventModelDocumentParts) -> Option<String> {
    validate_event_model(&EventModelDocument::new(doc))
        .err()
        .map(|issue| issue.as_str().to_owned())
}

fn step(slice: &str, relationship: WorkflowStepRelationship, targets: &[&str]) -> WorkflowStep {
    WorkflowStep::new(
        n(slice),
        relationship,
        WorkflowStepTrigger::Absent,
        WorkflowStepExit::Absent,
        set(targets),
        None,
        WorkflowStepLifecycleRole::Other,
    )
}

fn composed(steps: Vec<WorkflowStep>, slices: &[&str]) -> EventModelDocumentParts {
    base(EventModelFileKind::Workflow)
        .with_workflow_composition(WorkflowComposition::DeclaresSteps)
        .with_workflow_entry_step_count(WorkflowEntryStepCount::One)
        .with_workflow_slice_references(set(slices))
        .with_workflow_step_slices(set(slices))
        .with_workflow_steps(steps)
}

use WorkflowStepRelationship::{Alternate, Branch, Entry, Main};

#[test]
fn a_document_with_every_key_and_nothing_else_is_valid() {
    assert_eq!(message(base(EventModelFileKind::Workflow)), None);
}

#[test]
fn the_first_missing_top_level_key_is_reported() {
    let doc = EventModelDocumentParts::new(EventModelFileKind::Workflow)
        .with_top_level_keys(keys(&["name", "streams", "events", "board"]));
    assert_eq!(message(doc), Some("missing top-level key 'version'".to_owned()));
    let doc = EventModelDocumentParts::new(EventModelFileKind::Workflow)
        .with_top_level_keys(keys(&["name", "version", "streams", "events", "commands", "read_models", "slices"]));
    assert_eq!(message(doc), Some("missing explicit board".to_owned()));
}

#[test]
fn duplicate_named_definitions_are_reported_by_kind() {
    let doc = base(EventModelFileKind::Workflow).with_named_definitions(vec![
        NamedDefinition::new(DefinitionKind::Command, n("SubmitTicket")),
        NamedDefinition::new(DefinitionKind::Event, n("SubmitTicket")),
        NamedDefinition::new(DefinitionKind::ReadModel, n("Tickets")),
        NamedDefinition::new(DefinitionKind::ReadModel, n("Tickets")),
    ]);
    assert_eq!(message(doc), Some("duplicate read model name 'Tickets'".to_owned()));
}

#[test]
fn slice_files_hold_exactly_one_slice() {
    let doc = base(EventModelFileKind::Slice).with_slice_count(SliceDefinitionCount::Multiple);
    assert_eq!(message(doc), Some("slice file must contain exactly one slice".to_owned()));
    let doc = base(EventModelFileKind::Workflow).with_slice_count(SliceDefinitionCount::Multiple);
    assert_eq!(message(doc), None);
}

#[test]
fn workflow_composition_shape_is_checked() {
    let doc = base(EventModelFileKind::Workflow).with_workflow_composition(WorkflowComposition::MissingSteps);
    assert_eq!(message(doc), Some("workflow composition must declare steps".to_owned()));
    let doc = base(EventModelFileKind::Workflow)
        .with_workflow_composition(WorkflowComposition::DeclaresSteps)
        .with_workflow_entry_step_count(WorkflowEntryStepCount::NotOne);
    assert_eq!(message(doc), Some("workflow must declare exactly one entry step".to_owned()));
    let doc = base(EventModelFileKind::Workflow)
        .with_workflow_composition(WorkflowComposition::DeclaresSteps)
        .with_workflow_entry_step_count(WorkflowEntryStepCount::One)
        .with_workflow_internal_definitions(WorkflowInternalDefinitions::Present);
    assert_eq!(
        message(doc),
        Some("workflow files must not define commands, views, read models, automations, or scenarios".to_owned())
    );
}

#[test]
fn a_connected_composed_workflow_is_valid() {
    let doc = composed(
        vec![step("a", Entry, &["b"]), step("b", Main, &["c"]), step("c", Main, &[])],
        &["a", "b", "c"],
    );
    assert_eq!(message(doc), None);
}

#[test]
fn workflow_steps_compose_whole_referenced_slices() {
    let mut first = step("a", Entry, &[]);
    first.selected_scenario = Some(n("happy-path"));
    let doc = composed(vec![first], &["a"]);
    assert_eq!(
        message(doc),
        Some("workflow step 'a' must compose the whole slice, not scenario 'happy-path'".to_owned())
    );

    let doc = composed(vec![step("a", Entry, &[])], &["a"]).with_workflow_slice_references(set(&[]));
    assert_eq!(message(doc), Some("workflow step 'a' does not reference a composed slice".to_owned()));

    let doc = composed(vec![step("a", Entry, &[])], &["a"]).with_workflow_slice_references(set(&["a", "z"]));
    assert_eq!(message(doc), Some("referenced slice 'z' is not used by workflow steps".to_owned()));

    let doc = composed(vec![step("a", Entry, &[])], &["a"]).with_duplicate_workflow_step_slice(Some(n("a")));
    assert_eq!(message(doc), Some("workflow step slice 'a' is duplicated".to_owned()));
}

#[test]
fn workflow_transitions_and_step_roles_are_checked() {
    let doc = composed(vec![step("a", Entry, &["q"])], &["a"]);
    assert_eq!(message(doc), Some("transition targets unknown workflow step 'q'".to_owned()));

    let doc = composed(vec![step("a", Entry, &[]), step("b", Alternate, &[])], &["a", "b"]);
    assert_eq!(
        message(doc),
        Some("alternate workflow step 'b' must declare a trigger or incoming transition".to_owned())
    );

    let mut triggered = step("b", Main, &[]);
    triggered.trigger = WorkflowStepTrigger::Present;
    let doc = composed(vec![step("a", Entry, &[]), triggered], &["a", "b"]);
    assert_eq!(
        message(doc),
        Some("async lifecycle step 'b' must be alternate or async_lifecycle".to_owned())
    );

    let doc = composed(vec![step("a", Entry, &[]), step("b", Main, &[])], &["a", "b"]);
    assert_eq!(message(doc), Some("workflow step 'b' has no incoming transition".to_owned()));

    let doc = composed(
        vec![step("a", Entry, &[]), step("c", Branch, &["d"]), step("d", Main, &[])],
        &["a", "c", "d"],
    );
    assert_eq!(message(doc), Some("workflow step 'c' is not reachable from entry step 'a'".to_owned()));
}

#[test]
fn the_application_entry_view_comes_before_the_bootstrap() {
    let mut bootstrap = step("boot", Entry, &["view"]);
    bootstrap.lifecycle_role = WorkflowStepLifecycleRole::BootstrapRootEntryStateChange;
    let mut view = step("view", Main, &[]);
    view.lifecycle_role = WorkflowStepLifecycleRole::ApplicationEntryStateView;
    let doc = composed(vec![bootstrap, view], &["boot", "view"]);
    assert_eq!(
        message(doc),
        Some("should model the application entry root bootstrap state view before bootstrap".to_owned())
    );
}

fn slice_doc(slice: &str, commands: &[&str]) -> EventModelDocument {
    let mut parts = SliceDefinitionParts::new(n(slice), SliceType::StateChange);
    parts.issued_commands = commands.iter().map(|c| n(c)).collect();
    EventModelDocument::new(
        base(EventModelFileKind::Slice)
            .with_slice_count(SliceDefinitionCount::One)
            .with_slice_definitions(vec![SliceDefinition::new(parts)]),
    )
}

#[test]
fn an_empty_corpus_is_valid() {
    assert!(validate_event_model_corpus(&[]).is_ok());
}

#[test]
fn a_command_issued_by_two_slices_is_reported() {
    let docs = vec![slice_doc("capture", &["SubmitTicket"]), slice_doc("review", &["ApproveTicket", "SubmitTicket"])];
    assert_eq!(
        validate_event_model_corpus(&docs).unwrap_err().as_str(),
        "command 'SubmitTicket' is defined by more than one slice"
    );
    let docs = vec![slice_doc("capture", &["SubmitTicket", "SubmitTicket"])];
    assert!(validate_event_model_corpus(&docs).is_ok());
}

fn slice_with(name: &str, kind: SliceType, edit: impl FnOnce(&mut SliceDefinitionParts)) -> EventModelDocumentParts {
    let mut parts = SliceDefinitionParts::new(n(name), kind);
    edit(&mut parts);
    base(EventModelFileKind::Slice)
        .with_slice_count(SliceDefinitionCount::One)
        .with_slice_definitions(vec![SliceDefinition::new(parts)])
}

fn scenario(name: &str, when: ScenarioStepField, set: ScenarioSetKind) -> SliceScenario {
    SliceScenario::new(SliceScenarioParts::new(n(name), when, set))
}

fn names(raw: &[&str]) -> Vec<DefinitionName> {
    raw.iter().map(|r| n(r)).collect()
}

#[test]
fn slice_scenarios_are_checked() {
    let doc = slice_with("capture", SliceType::Other, |s| s.legacy_scenarios = LegacyScenariosField::Present);
    assert_eq!(
        message(doc),
        Some("slice 'capture' uses legacy 'scenarios'; use 'acceptance_scenarios' and 'contract_scenarios'".to_owned())
    );
    let doc = slice_with("capture", SliceType::Other, |s| {
        s.scenarios = vec![scenario("happy", ScenarioStepField::Absent, ScenarioSetKind::Acceptance)]
    });
    assert_eq!(message(doc), Some("slice 'capture' scenario 'happy' is missing 'when'".to_owned()));
    let doc = slice_with("capture", SliceType::Other, |s| {
        s.scenarios = vec![
            scenario("happy", ScenarioStepField::Present, ScenarioSetKind::Acceptance),
            scenario("happy", ScenarioStepField::Present, ScenarioSetKind::Contract),
        ]
    });
    assert_eq!(
        message(doc),
        Some("slice 'capture' has duplicate scenario name 'happy' across acceptance_scenarios and contract_scenarios".to_owned())
    );
    let doc = slice_with("capture", SliceType::Other, |s| {
        s.scenarios = vec![
            scenario("sad", ScenarioStepField::Present, ScenarioSetKind::Contract),
            scenario("sad", ScenarioStepField::Present, ScenarioSetKind::Contract),
        ]
    });
    assert_eq!(message(doc), Some("slice 'capture' has duplicate scenario name 'sad'".to_owned()));
}

#[test]
fn slice_outcomes_are_checked_in_order() {
    let doc = slice_with("capture", SliceType::Other, |s| s.outcome_labels = names(&["done", "open", "done"]));
    assert_eq!(message(doc), Some("slice 'capture' has duplicate outcome label 'done'".to_owned()));

    let doc = slice_with("capture", SliceType::Other, |s| s.outcomes = vec![OutcomeDefinition::new(n("done"), vec![])]);
    assert_eq!(message(doc), Some("outcome 'done' must declare at least one event".to_owned()));

    let doc = slice_with("capture", SliceType::Other, |s| {
        s.outcomes = vec![OutcomeDefinition::new(n("done"), names(&["TicketCaptured"]))]
    });
    assert_eq!(message(doc), Some("outcome 'done' references unknown event 'TicketCaptured'".to_owned()));

    let doc = slice_with("capture", SliceType::Other, |s| {
        s.outcomes = vec![OutcomeDefinition::new(n("done"), names(&["TicketCaptured"]))]
    })
    .with_event_names(set(&["TicketCaptured"]));
    assert_eq!(
        message(doc),
        Some("outcome 'done' references event 'TicketCaptured' that is not emitted or observed by slice 'capture'".to_owned())
    );

    let doc = slice_with("capture", SliceType::Other, |s| {
        s.owned_events = names(&["TicketCaptured"]);
        s.outcomes = vec![
            OutcomeDefinition::new(n("done"), names(&["TicketCaptured"])),
            OutcomeDefinition::new(n("finished"), names(&["TicketCaptured"])),
        ]
    })
    .with_event_names(set(&["TicketCaptured"]));
    assert_eq!(message(doc), Some("outcomes 'done' and 'finished' use the same event set".to_owned()));
}

#[test]
fn events_name_known_streams_and_have_producers() {
    let doc = base(EventModelFileKind::Workflow).with_event_definitions(vec![EventDefinition::new(
        n("TicketCaptured"),
        Some(n("tickets")),
        vec![],
    )]);
    assert_eq!(message(doc), Some("event 'TicketCaptured' references unknown stream 'tickets'".to_owned()));

    let doc = base(EventModelFileKind::Workflow)
        .with_stream_names(set(&["tickets"]))
        .with_event_definitions(vec![EventDefinition::new(n("TicketCaptured"), Some(n("tickets")), vec![])]);
    assert_eq!(message(doc), Some("event 'TicketCaptured' is not produced by any command".to_owned()));

    let doc = base(EventModelFileKind::Workflow)
        .with_stream_names(set(&["tickets"]))
        .with_command_produced_events(set(&["TicketCaptured"]))
        .with_event_definitions(vec![EventDefinition::new(n("TicketCaptured"), Some(n("tickets")), vec![])]);
    assert_eq!(message(doc), None);
}

#[test]
fn state_change_scenarios_name_the_streams_they_write() {
    let doc = slice_with("capture", SliceType::StateChange, |s| {
        s.owned_events = names(&["TicketCaptured"]);
        s.scenarios = vec![SliceScenario::new(
            SliceScenarioParts::new(n("happy"), ScenarioStepField::Present, ScenarioSetKind::Acceptance)
                .with_then_events(names(&["TicketCaptured"])),
        )];
    })
    .with_stream_names(set(&["tickets"]))
    .with_event_names(set(&["TicketCaptured"]))
    .with_command_produced_events(set(&["TicketCaptured"]))
    .with_event_definitions(vec![EventDefinition::new(n("TicketCaptured"), Some(n("tickets")), vec![])]);
    assert_eq!(
        message(doc),
        Some("state-change scenario 'happy' writes stream 'tickets' but does not name it in given_streams".to_owned())
    );
}

#[test]
fn singleton_state_changes_declare_repeat_behavior() {
    let doc = slice_with("capture", SliceType::StateChange, |s| {
        s.singleton_behavior = SingletonBehavior::MissingRepeatBehavior
    });
    assert_eq!(
        message(doc),
        Some("singleton state_change slice 'capture' must declare already-exists or idempotent behavior".to_owned())
    );
}

fn lane(id: &str, name: Option<&str>) -> BoardLane {
    BoardLane::new(n(id), name.map(n))
}

#[test]
fn board_lanes_are_the_three_canonical_lanes() {
    let lanes = |ls: Vec<BoardLane>| message(base(EventModelFileKind::Workflow).with_board_lanes(BoardLanes::Present(ls)));
    assert_eq!(
        lanes(vec![lane("ux", None), lane("support", None)]),
        Some("board lanes must be exactly ux, actions, and events".to_owned())
    );
    assert_eq!(
        lanes(vec![lane("ux", None), lane("ux", None)]),
        Some("board lane id 'ux' is duplicated".to_owned())
    );
    assert_eq!(
        lanes(vec![lane("ux", None), lane("events", None)]),
        Some("board lanes must include canonical lane 'actions'".to_owned())
    );
    assert_eq!(
        lanes(vec![
            lane("ux", Some("People, Views, and Translations")),
            lane("actions", Some("Commands")),
            lane("events", None),
        ]),
        Some("board lane 'actions' must be named 'Commands and Projections'".to_owned())
    );
    assert_eq!(
        lanes(vec![
            lane("events", Some("Stored Facts")),
            lane("ux", None),
            lane("actions", Some("Commands and Projections")),
        ]),
        None
    );
}

#[test]
fn top_level_keys_hold_each_key_once() {
    let mut k = keys(&["name", "board"]);
    k.insert(TopLevelKey::try_new(" name ".to_owned()).unwrap());
    assert!(k.contains_text("name"));
    assert!(k.contains_text("board"));
    assert!(!k.contains_text("version"));
}
