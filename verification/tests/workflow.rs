use emc::effect::{Effect, EffectPlan, ModuleLanguage};
use emc::formal_graph::{FormalWorkflowGraph, WorkflowSliceDetail, WorkflowTransitionRecord};
use emc::types::{
    CommandErrorName, CommandName, OutcomeLabelName, StreamName, WorkflowEntryLifecycleStateName,
    WorkflowEventParticipation, WorkflowOwnedDefinitionKind, WorkflowOwnedDefinitionName,
    WorkflowTransitionEvidenceText, ModelDescription, ModelName, ProjectName, ProjectPath, SliceKindName, SliceSlug,
    TransitionTriggerName, WorkflowSlug, WorkflowStepRelationshipName,
    WorkflowTransitionEndpoint, WorkflowTransitionKind,
};
use emc::verify::ModeledWorkflowLayout;
use emc::workflow_records::{
    WorkflowCommandErrorRecord, WorkflowEntryLifecycleStateRecord, WorkflowOutcomeRecord,
    WorkflowOwnedDefinitionRecord, WorkflowTransitionEvidenceRecord,
};
use emc::workflow::{
    add_workflow, remove_workflow, update_workflow_description, update_workflow_name,
    workflow_module_name, IndexedWorkflowGraph, IndexedWorkflowGraphs, NewWorkflow,
};

fn name(raw: &str) -> ModelName {
    ModelName::try_new(raw.to_owned()).unwrap()
}

fn description(raw: &str) -> ModelDescription {
    ModelDescription::try_new(raw.to_owned()).unwrap()
}

fn slug(raw: &str) -> WorkflowSlug {
    WorkflowSlug::try_new(raw.to_owned()).unwrap()
}

fn path(raw: &str) -> ProjectPath {
    ProjectPath::try_new(raw.to_owned()).unwrap()
}

fn layout(s: &str, n: &str, d: &str) -> ModeledWorkflowLayout {
    let module = workflow_module_name(n);
    ModeledWorkflowLayout {
        slug: slug(s),
        name: name(n),
        description: description(d),
        lean_artifact_path: path(&format!("model/lean/{module}.lean")),
        quint_artifact_path: path(&format!("model/quint/{module}.qnt")),
    }
}

fn slice(n: &str) -> WorkflowSliceDetail {
    WorkflowSliceDetail {
        slug: SliceSlug::try_new(n.to_lowercase().replace(' ', "-")).unwrap(),
        name: name(n),
        kind: SliceKindName::try_new("state_view".to_owned()).unwrap(),
        description: description("A slice."),
        relationship: WorkflowStepRelationshipName::try_new("main".to_owned()).unwrap(),
    }
}

fn transition(source: &str, target: &str, kind: &str) -> WorkflowTransitionRecord {
    WorkflowTransitionRecord {
        source: WorkflowTransitionEndpoint::try_new(source.to_owned()).unwrap(),
        target: WorkflowTransitionEndpoint::try_new(target.to_owned()).unwrap(),
        kind: WorkflowTransitionKind::try_new(kind.to_owned()).unwrap(),
        trigger: TransitionTriggerName::try_new("Go on".to_owned()).unwrap(),
        rationale: None,
        payload_contract: None,
    }
}

fn graph(n: &str, d: &str, slices: Vec<WorkflowSliceDetail>, transitions: Vec<WorkflowTransitionRecord>) -> FormalWorkflowGraph {
    FormalWorkflowGraph {
        name: name(n),
        description: description(d),
        slices,
        transitions,
        outcomes: vec![],
        command_errors: vec![],
        owned_definitions: vec![],
        transition_evidences: vec![],
        entry_lifecycle_required: false,
        entry_lifecycle_states: vec![],
    }
}

fn describe(plan: &EffectPlan) -> Vec<String> {
    plan.effects
        .iter()
        .map(|effect| match effect {
            Effect::WriteProjectRoot(project, slugs) => format!(
                "root {} [{}]",
                project.as_str(),
                slugs.iter().map(|s| s.as_str()).collect::<Vec<_>>().join(",")
            ),
            Effect::WriteWorkflowModule(write) => format!(
                "write {} {} {} {} | {} | {} | slices {} | transitions {}",
                match write.language {
                    ModuleLanguage::Lean => "lean",
                    ModuleLanguage::Quint => "quint",
                },
                write.path.as_str(),
                write.module_name,
                write.slug.as_str(),
                write.name.as_str(),
                write.description.as_str(),
                write.slices.len(),
                write.transitions.len()
            ),
            Effect::RemoveFile(p) => format!("remove {}", p.as_str()),
            Effect::Report(line) => format!("report {line}"),
            Effect::RunProcess(_) | Effect::RunProcessBatch(_) => "run".to_owned(),
        })
        .collect()
}

fn project() -> ProjectName {
    ProjectName::try_new("Repair Desk".to_owned()).unwrap()
}

#[test]
fn workflow_module_names_capitalize_each_run_and_keep_the_rest() {
    assert_eq!(workflow_module_name("open ticket"), "OpenTicket");
    assert_eq!(workflow_module_name("rePair-desk flow"), "RePairDeskFlow");
    assert_eq!(workflow_module_name("  2nd  step!"), "2ndStep");
    assert_eq!(workflow_module_name("---"), "");
    assert_eq!(workflow_module_name(&workflow_module_name("open ticket")), "OpenTicket");
}

#[test]
fn adding_a_workflow_plans_the_root_modules_and_report() {
    let existing = vec![layout("close-ticket", "Close ticket", "Closes tickets.")];
    let workflow = NewWorkflow::new(name("Open ticket"), description("Opens tickets."), slug("open-ticket"));
    let plan = add_workflow(project(), existing, workflow).unwrap();
    assert_eq!(
        describe(&plan),
        vec![
            "root Repair Desk [close-ticket,open-ticket]".to_owned(),
            "write lean model/lean/OpenTicket.lean OpenTicket open-ticket | Open ticket | Opens tickets. | slices 0 | transitions 0".to_owned(),
            "write quint model/quint/OpenTicket.qnt OpenTicket open-ticket | Open ticket | Opens tickets. | slices 0 | transitions 0".to_owned(),
            "report added workflow Open ticket".to_owned(),
        ]
    );
}

#[test]
fn adding_a_workflow_refuses_a_taken_slug() {
    let existing = vec![layout("open-ticket", "Open ticket", "Opens tickets.")];
    let workflow = NewWorkflow::new(name("Another"), description("Other."), slug("open-ticket"));
    let error = add_workflow(project(), existing, workflow).unwrap_err();
    assert_eq!(error.message(), "workflow open-ticket already exists");
}

#[test]
fn adding_a_workflow_refuses_a_taken_module_name() {
    let existing = vec![layout("open-ticket", "Open ticket", "Opens tickets.")];
    let workflow = NewWorkflow::new(name("open Ticket"), description("Other."), slug("open-ticket-2"));
    let error = add_workflow(project(), existing, workflow).unwrap_err();
    assert_eq!(error.message(), "workflow module OpenTicket already exists");
}

#[test]
fn describing_a_workflow_anew_regenerates_its_modules() {
    let existing = vec![layout("open-ticket", "Open ticket", "Opens tickets.")];
    let g = graph(
        "Open ticket",
        "Opens tickets.",
        vec![slice("Capture ticket")],
        vec![transition("capture-ticket", "review-ticket", "navigation")],
    );
    let plan = update_workflow_description(existing, g, slug("open-ticket"), description("Opens repair tickets.")).unwrap();
    assert_eq!(
        describe(&plan),
        vec![
            "write lean model/lean/OpenTicket.lean OpenTicket open-ticket | Open ticket | Opens repair tickets. | slices 1 | transitions 1".to_owned(),
            "write quint model/quint/OpenTicket.qnt OpenTicket open-ticket | Open ticket | Opens repair tickets. | slices 1 | transitions 1".to_owned(),
            "report updated workflow Open ticket".to_owned(),
        ]
    );
}

#[test]
fn describing_an_unknown_or_mismatched_workflow_is_refused() {
    let g = graph("Open ticket", "Opens tickets.", vec![], vec![]);
    let error = update_workflow_description(vec![], g, slug("open-ticket"), description("New.")).unwrap_err();
    assert_eq!(error.message(), "unknown workflow open-ticket");

    let existing = vec![layout("open-ticket", "Open ticket", "Opens tickets.")];
    let g = graph("Close ticket", "Opens tickets.", vec![], vec![]);
    let error = update_workflow_description(existing, g, slug("open-ticket"), description("New.")).unwrap_err();
    assert_eq!(
        error.message(),
        "workflow graph name 'Close ticket' does not match index name 'Open ticket'"
    );
}

#[test]
fn renaming_a_workflow_removes_the_modules_of_its_old_name() {
    let existing = vec![layout("open-ticket", "Open ticket", "Opens tickets.")];
    let g = graph("Open ticket", "Opens tickets.", vec![], vec![]);
    let plan = update_workflow_name(existing, g, slug("open-ticket"), name("Open repair ticket")).unwrap();
    assert_eq!(
        describe(&plan),
        vec![
            "remove model/lean/OpenTicket.lean".to_owned(),
            "remove model/quint/OpenTicket.qnt".to_owned(),
            "write lean model/lean/OpenRepairTicket.lean OpenRepairTicket open-ticket | Open repair ticket | Opens tickets. | slices 0 | transitions 0".to_owned(),
            "write quint model/quint/OpenRepairTicket.qnt OpenRepairTicket open-ticket | Open repair ticket | Opens tickets. | slices 0 | transitions 0".to_owned(),
            "report updated workflow Open repair ticket".to_owned(),
        ]
    );
}

#[test]
fn renaming_a_workflow_without_changing_its_module_removes_nothing() {
    let existing = vec![layout("open-ticket", "Open ticket", "Opens tickets.")];
    let g = graph("Open ticket", "Opens tickets.", vec![], vec![]);
    let plan = update_workflow_name(existing, g, slug("open-ticket"), name("Open  ticket")).unwrap();
    assert_eq!(describe(&plan).len(), 3);
    assert_eq!(describe(&plan)[2], "report updated workflow Open  ticket");
}

#[test]
fn renaming_a_workflow_refuses_clashes_and_mismatches() {
    let existing = vec![
        layout("open-ticket", "Open ticket", "Opens tickets."),
        layout("close-ticket", "Close ticket", "Closes tickets."),
    ];
    let g = graph("Open ticket", "Opens tickets.", vec![], vec![]);
    let error = update_workflow_name(existing, g, slug("open-ticket"), name("close ticket")).unwrap_err();
    assert_eq!(error.message(), "workflow module CloseTicket already exists");

    let existing = vec![layout("open-ticket", "Open ticket", "Opens tickets.")];
    let g = graph("Open ticket", "Opens other things.", vec![], vec![]);
    let error = update_workflow_name(existing, g, slug("open-ticket"), name("Renamed")).unwrap_err();
    assert_eq!(
        error.message(),
        "workflow graph description 'Opens other things.' does not match index description 'Opens tickets.'"
    );

    let g = graph("Open ticket", "Opens tickets.", vec![], vec![]);
    let error = update_workflow_name(vec![], g, slug("open-ticket"), name("Renamed")).unwrap_err();
    assert_eq!(error.message(), "unknown workflow open-ticket");
}

fn indexed(s: &str, g: FormalWorkflowGraph) -> IndexedWorkflowGraph {
    IndexedWorkflowGraph::new(slug(s), g)
}

#[test]
fn removing_a_workflow_plans_the_root_and_removes_its_artifacts() {
    let existing = vec![
        layout("close-ticket", "Close ticket", "Closes tickets."),
        layout("open-ticket", "Open ticket", "Opens tickets."),
        layout("archive", "Archive", "Archives tickets."),
    ];
    let graphs = IndexedWorkflowGraphs::new(vec![
        indexed("close-ticket", graph("Close ticket", "Closes tickets.", vec![], vec![])),
        indexed(
            "open-ticket",
            graph(
                "Open ticket",
                "Opens tickets.",
                vec![slice("Capture ticket"), slice("review ticket")],
                vec![transition("capture-ticket", "close-ticket", "workflow_exit:navigation")],
            ),
        ),
    ]);
    let plan = remove_workflow(project(), existing, graphs, slug("open-ticket")).unwrap();
    assert_eq!(
        describe(&plan),
        vec![
            "root Repair Desk [close-ticket,archive]".to_owned(),
            "remove model/lean/OpenTicket.lean".to_owned(),
            "remove model/quint/OpenTicket.qnt".to_owned(),
            "remove model/lean/slices/CaptureTicket.lean".to_owned(),
            "remove model/quint/slices/CaptureTicket.qnt".to_owned(),
            "remove model/lean/slices/ReviewTicket.lean".to_owned(),
            "remove model/quint/slices/ReviewTicket.qnt".to_owned(),
            "report removed workflow Open ticket".to_owned(),
        ]
    );
}

#[test]
fn removing_a_workflow_that_another_exits_to_is_refused() {
    let existing = vec![
        layout("close-ticket", "Close ticket", "Closes tickets."),
        layout("open-ticket", "Open ticket", "Opens tickets."),
    ];
    let graphs = IndexedWorkflowGraphs::new(vec![
        indexed("open-ticket", graph("Open ticket", "Opens tickets.", vec![], vec![])),
        indexed(
            "close-ticket",
            graph(
                "Close ticket",
                "Closes tickets.",
                vec![],
                vec![
                    transition("close", "open-ticket", "navigation"),
                    transition("close", "open-ticket", "workflow_exit:event"),
                ],
            ),
        ),
    ]);
    let error = remove_workflow(project(), existing, graphs, slug("open-ticket")).unwrap_err();
    assert_eq!(error.message(), "workflow open-ticket is referenced by workflow close-ticket");
}

#[test]
fn removing_refuses_unknown_workflows_missing_graphs_and_mismatched_names() {
    let error = remove_workflow(project(), vec![], IndexedWorkflowGraphs::new(vec![]), slug("open-ticket")).unwrap_err();
    assert_eq!(error.message(), "unknown workflow open-ticket");

    let existing = vec![layout("open-ticket", "Open ticket", "Opens tickets.")];
    let error = remove_workflow(project(), existing, IndexedWorkflowGraphs::new(vec![]), slug("open-ticket")).unwrap_err();
    assert_eq!(error.message(), "workflow open-ticket graph is missing");

    let existing = vec![layout("open-ticket", "Open ticket", "Opens tickets.")];
    let graphs = IndexedWorkflowGraphs::new(vec![indexed(
        "open-ticket",
        graph("Opened ticket", "Opens tickets.", vec![], vec![]),
    )]);
    let error = remove_workflow(project(), existing, graphs, slug("open-ticket")).unwrap_err();
    assert_eq!(
        error.message(),
        "workflow graph name 'Opened ticket' does not match index name 'Open ticket'"
    );
}

#[test]
fn indexed_graphs_keep_their_slug_and_graph() {
    let g = indexed("open-ticket", graph("Open ticket", "Opens tickets.", vec![slice("Capture")], vec![]));
    assert_eq!(g.slug().as_str(), "open-ticket");
    assert_eq!(g.graph().name.as_str(), "Open ticket");
    assert_eq!(g.graph().slices.len(), 1);
}

#[test]
fn removing_a_workflow_just_added_restores_the_root_and_removes_what_was_written() {
    let before = vec![layout("close-ticket", "Close ticket", "Closes tickets.")];
    let added = add_workflow(
        project(),
        vec![layout("close-ticket", "Close ticket", "Closes tickets.")],
        NewWorkflow::new(name("Open ticket"), description("Opens tickets."), slug("open-ticket")),
    )
    .unwrap();
    let mut after = before;
    after.push(layout("open-ticket", "Open ticket", "Opens tickets."));
    let graphs = IndexedWorkflowGraphs::new(vec![indexed(
        "open-ticket",
        graph("Open ticket", "Opens tickets.", vec![], vec![]),
    )]);
    let removed = remove_workflow(project(), after, graphs, slug("open-ticket")).unwrap();
    let added = describe(&added);
    let removed = describe(&removed);
    assert_eq!(added[0], "root Repair Desk [close-ticket,open-ticket]");
    assert_eq!(removed[0], "root Repair Desk [close-ticket]");
    assert!(added[1].starts_with("write lean model/lean/OpenTicket.lean "));
    assert_eq!(removed[1], "remove model/lean/OpenTicket.lean");
    assert!(added[2].starts_with("write quint model/quint/OpenTicket.qnt "));
    assert_eq!(removed[2], "remove model/quint/OpenTicket.qnt");
}

fn endpoint(raw: &str) -> WorkflowTransitionEndpoint {
    WorkflowTransitionEndpoint::try_new(raw.to_owned()).unwrap()
}

#[test]
fn regenerated_modules_carry_every_record_of_the_graph() {
    let existing = vec![layout("open-ticket", "Open ticket", "Opens tickets.")];
    let mut g = graph("Open ticket", "Opens tickets.", vec![slice("Capture ticket")], vec![]);
    g.outcomes = vec![WorkflowOutcomeRecord {
        source_slice: endpoint("capture-ticket"),
        label: OutcomeLabelName::try_new("ticket-captured".to_owned()).unwrap(),
        externally_relevant: true,
    }];
    g.command_errors = vec![WorkflowCommandErrorRecord {
        source_slice: endpoint("capture-ticket"),
        command: CommandName::try_new("SubmitTicket".to_owned()).unwrap(),
        error: CommandErrorName::try_new("DuplicateTicket".to_owned()).unwrap(),
    }];
    g.owned_definitions = vec![WorkflowOwnedDefinitionRecord {
        source_slice: endpoint("capture-ticket"),
        definition_kind: WorkflowOwnedDefinitionKind::try_new("event".to_owned()).unwrap(),
        definition_name: WorkflowOwnedDefinitionName::try_new("TicketCaptured".to_owned()).unwrap(),
        definition_stream: Some(StreamName::try_new("ticket-events".to_owned()).unwrap()),
        source_provenance: Some(description("Capture emits the event.")),
        event_participation: Some(WorkflowEventParticipation::try_new("emitted".to_owned()).unwrap()),
        view_role: None,
    }];
    g.transition_evidences = vec![WorkflowTransitionEvidenceRecord {
        source: endpoint("capture-ticket"),
        target: endpoint("review-ticket"),
        via: WorkflowTransitionKind::try_new("navigation".to_owned()).unwrap(),
        name: TransitionTriggerName::try_new("Review ticket".to_owned()).unwrap(),
        source_evidence: WorkflowTransitionEvidenceText::try_new("Ticket capture is complete.".to_owned()).unwrap(),
        target_evidence: WorkflowTransitionEvidenceText::try_new("Review screen is reachable.".to_owned()).unwrap(),
    }];
    g.entry_lifecycle_required = true;
    g.entry_lifecycle_states = vec![WorkflowEntryLifecycleStateRecord {
        state: WorkflowEntryLifecycleStateName::try_new("initialized_authenticated".to_owned()).unwrap(),
        step: endpoint("capture-ticket"),
        evidence: description("Authenticated entry is represented."),
    }];
    let plan = update_workflow_description(existing, g, slug("open-ticket"), description("New.")).unwrap();
    for effect in &plan.effects[0..2] {
        match effect {
            Effect::WriteWorkflowModule(write) => {
                assert_eq!(write.outcomes[0].label.as_str(), "ticket-captured");
                assert!(write.outcomes[0].externally_relevant);
                assert_eq!(write.command_errors[0].error.as_str(), "DuplicateTicket");
                assert_eq!(write.owned_definitions[0].definition_stream.as_ref().unwrap().as_str(), "ticket-events");
                assert!(write.owned_definitions[0].view_role.is_none());
                assert_eq!(write.transition_evidences[0].target_evidence.as_str(), "Review screen is reachable.");
                assert!(write.entry_lifecycle_required);
                assert_eq!(write.entry_lifecycle_states[0].state.as_str(), "initialized_authenticated");
                assert_eq!(write.description.as_str(), "New.");
            }
            _ => panic!("the module writes come first"),
        }
    }
}

#[test]
fn an_added_workflow_starts_with_a_blank_graph() {
    let plan = add_workflow(
        project(),
        vec![],
        NewWorkflow::new(name("Open ticket"), description("Opens tickets."), slug("open-ticket")),
    )
    .unwrap();
    match &plan.effects[1] {
        Effect::WriteWorkflowModule(write) => {
            assert!(write.outcomes.is_empty() && write.command_errors.is_empty());
            assert!(write.owned_definitions.is_empty() && write.transition_evidences.is_empty());
            assert!(!write.entry_lifecycle_required && write.entry_lifecycle_states.is_empty());
        }
        _ => panic!("the Lean4 module write follows the root"),
    }
}
