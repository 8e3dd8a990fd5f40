use emc::effect::Effect;
use emc::types::{
    ModelDescription, ModelName, ProjectName, ProjectPath, SliceKindName, SliceSlug, WorkflowSlug,
    WorkflowStepRelationshipName,
};
use emc::verify::{verify_project, ModeledWorkflowLayout, QuintInvariantName, QuintInvariantSet};

#[test]
fn verification_invariant_sets_are_composed_from_closed_domain_names() {
    let project_root = QuintInvariantSet::project_root();
    let workflow = QuintInvariantSet::workflow();
    let slice = QuintInvariantSet::slice();

    assert!(project_root.contains(QuintInvariantName::MODEL_WORKFLOW_BEHAVIOR_SURFACE_IS_COMPLETE));
    assert!(project_root.contains(
        QuintInvariantName::MODEL_DATA_FLOW_SOURCE_CHAINS_PRESERVE_BIT_ENCODING_SEMANTICS
    ));
    assert!(workflow.contains(QuintInvariantName::WORKFLOW_ONLY_EVENTS_MAY_BE_SHARED_ACROSS_SLICES));
    assert!(slice.contains(
        QuintInvariantName::STATE_VIEW_SLICES_REPRESENT_SINGLE_VIEW_PROJECTION_BOUNDARY
    ));
    assert_eq!(
        project_root.as_process_argument().as_str(),
        "modelIdentityStable,modelVersionStable,modelDigestStable,modelWorkflowsAreDeclared,modelSlicesAreDeclared,modelSliceModulesAreDeclared,modelScenariosAreDeclared,modelScenarioDefinitionsAreDeclared,modelWorkflowCompositionStructureComplete,modelWorkflowBehaviorSurfaceIsComplete,modelScenarioDefinitionsHaveGwt,modelScenarioKindsAreFirstClass,modelDataFlowsAreDeclared,modelDataFlowsAreBitComplete,modelDataFlowSourceKindsAreModeled,modelDataFlowModeledSourcesResolve,modelDataFlowSourceChainsReachOriginals,modelDataFlowSourceChainsPreserveBitEncodingSemantics,modelDataFlowTransformationsAreModeled,modelMeaningfulDataFlowsAreCovered,modelDataFlowSourceBitEncodingsMatchModeledSources,modelViewFieldBitEncodingsMatchDataFlows,modelExternalPayloadFieldBitEncodingsMatchDataFlows,modelOutcomesAreDeclared,modelCommandErrorsAreDeclared,modelCommandsAreDeclared,modelCommandInputsAreDeclared,modelCommandInputsHaveProvenance,modelCommandInputsTraceToInvocationSources,modelReadModelsAreDeclared,modelReadModelDefinitionsAreDeclared,modelReadModelFieldsAreDeclared,modelReadModelFieldSourcesAreComplete,modelViewFieldSourcesAreComplete,modelViewFieldReadModelFieldSourcesResolve,modelDisplayedDataTraceToOriginalProvenance,modelExternalPayloadFieldsHaveProvenance,modelViewsAreDeclared,modelViewDefinitionsAreDeclared,modelViewControlsAreDeclared,modelBoardElementsAreDeclared,modelBoardConnectionsAreDeclared,modelViewFieldsAreDeclared,modelAutomationsAreDeclared,modelAutomationDefinitionsAreDeclared,modelTranslationsAreDeclared,modelTranslationDefinitionsAreDeclared,modelExternalPayloadsAreDeclared,modelExternalPayloadFieldsAreDeclared,modelStreamsAreDeclared,modelEventsAreDeclared,modelEventAttributesAreDeclared,modelViewControlsProvideCommandInputs"
    );
}

fn detail(name: &str) -> emc::formal_graph::WorkflowSliceDetail {
    emc::formal_graph::WorkflowSliceDetail {
        slug: SliceSlug::try_new("s".to_owned()).unwrap(),
        name: ModelName::try_new(name.to_owned()).unwrap(),
        kind: SliceKindName::try_new("state_view".to_owned()).unwrap(),
        description: ModelDescription::try_new("d".to_owned()).unwrap(),
        relationship: WorkflowStepRelationshipName::try_new("main".to_owned()).unwrap(),
    }
}

#[test]
fn verifying_a_project_checks_each_artifact_once_and_batches_quint() {
    let project = ProjectName::try_new("Repair Desk".to_owned()).unwrap();
    let workflows = vec![ModeledWorkflowLayout {
        slug: WorkflowSlug::try_new("open-ticket".to_owned()).unwrap(),
        name: ModelName::try_new("Open ticket".to_owned()).unwrap(),
        description: ModelDescription::try_new("Opens tickets.".to_owned()).unwrap(),
        lean_artifact_path: ProjectPath::try_new("model/lean/OpenTicket.lean".to_owned()).unwrap(),
        quint_artifact_path: ProjectPath::try_new("model/quint/OpenTicket.qnt".to_owned()).unwrap(),
    }];
    let slices = vec![detail("review-TICKET"), detail("Capture ticket"), detail("capture  TICKET")];
    let plan = verify_project(&project, &workflows, &slices);
    let runs: Vec<(String, Vec<String>)> = plan
        .effects
        .iter()
        .filter_map(|e| match e {
            Effect::RunProcess(p) => Some((p.program.clone(), p.arguments.clone())),
            _ => None,
        })
        .collect();
    let lean = |path: &str| ("lake".to_owned(), vec!["env".to_owned(), "lean".to_owned(), path.to_owned()]);
    assert_eq!(
        runs,
        vec![
            lean("model/lean/RepairDesk.lean"),
            ("quint".to_owned(), vec!["typecheck".to_owned(), "model/quint/RepairDesk.qnt".to_owned()]),
            lean("model/lean/OpenTicket.lean"),
            lean("model/lean/slices/CaptureTicket.lean"),
            lean("model/lean/slices/ReviewTicket.lean"),
        ]
    );
    assert_eq!(plan.effects.len(), 6);
    match &plan.effects[5] {
        Effect::RunProcessBatch(batch) => {
            let paths: Vec<&str> = batch.iter().map(|p| p.arguments[3].as_str()).collect();
            assert_eq!(
                paths,
                vec![
                    "model/quint/RepairDesk.qnt",
                    "model/quint/OpenTicket.qnt",
                    "model/quint/slices/CaptureTicket.qnt",
                    "model/quint/slices/ReviewTicket.qnt",
                ]
            );
            assert!(batch.iter().all(|p| p.program == "quint" && p.arguments[0] == "verify" && p.arguments[1] == "--invariant"));
            assert!(batch[0].arguments[2].starts_with("modelIdentityStable,"));
            assert!(batch.iter().all(|p| p.report == "Quint artifacts verified"));
        }
        _ => panic!("the last effect is the Quint batch"),
    }
}
