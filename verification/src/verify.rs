//! Verifying a project's generated formal artifacts: the processes that
//! check the Lean4 and Quint modules of the project root, its workflows and
//! its slices, and the invariants Quint checks on each.

use vstd::prelude::*;

use crate::effect::{
    concat3, effect_view, effect_views, invocation_view, invocation_views, push_effect,
    push_invocation, text_views, Effect, EffectPlan, EffectView, InvocationView,
    ProcessInvocation,
};
use crate::formal_graph::{slice_views, SliceView, WorkflowSliceDetail};
use crate::text::{
    ascii_alnum, ascii_lower, ascii_upper, chars_of, is_ascii_alnum, string_from_chars,
    to_ascii_lower, to_ascii_upper,
};
use crate::types::{ModelDescription, ModelName, ProjectName, ProjectPath, WorkflowSlug};
use crate::validation::names::{
    lemma_seq_lt_irreflexive, lemma_seq_lt_transitive, lemma_seq_lt_trichotomy, seq_lt,
    strictly_sorted,
};

verus! {

/// The name of an invariant that Quint checks on a generated model.
#[derive(Debug, Clone, Copy, PartialEq, Eq, Structural)]
pub enum QuintInvariantName {
    ModelIdentityStable,
    ModelVersionStable,
    ModelDigestStable,
    ModelWorkflowsAreDeclared,
    ModelSlicesAreDeclared,
    ModelSliceModulesAreDeclared,
    ModelScenariosAreDeclared,
    ModelScenarioDefinitionsAreDeclared,
    ModelWorkflowCompositionStructureComplete,
    ModelWorkflowBehaviorSurfaceIsComplete,
    ModelScenarioDefinitionsHaveGwt,
    ModelScenarioKindsAreFirstClass,
    ModelDataFlowsAreDeclared,
    ModelDataFlowsAreBitComplete,
    ModelDataFlowSourceKindsAreModeled,
    ModelDataFlowModeledSourcesResolve,
    ModelDataFlowSourceChainsReachOriginals,
    ModelDataFlowSourceChainsPreserveBitEncodingSemantics,
    ModelDataFlowTransformationsAreModeled,
    ModelMeaningfulDataFlowsAreCovered,
    ModelDataFlowSourceBitEncodingsMatchModeledSources,
    ModelViewFieldBitEncodingsMatchDataFlows,
    ModelExternalPayloadFieldBitEncodingsMatchDataFlows,
    ModelOutcomesAreDeclared,
    ModelCommandErrorsAreDeclared,
    ModelCommandsAreDeclared,
    ModelCommandInputsAreDeclared,
    ModelCommandInputsHaveProvenance,
    ModelCommandInputsTraceToInvocationSources,
    ModelReadModelsAreDeclared,
    ModelReadModelDefinitionsAreDeclared,
    ModelReadModelFieldsAreDeclared,
    ModelReadModelFieldSourcesAreComplete,
    ModelViewFieldSourcesAreComplete,
    ModelViewFieldReadModelFieldSourcesResolve,
    ModelDisplayedDataTraceToOriginalProvenance,
    ModelExternalPayloadFieldsHaveProvenance,
    ModelViewsAreDeclared,
    ModelViewDefinitionsAreDeclared,
    ModelViewControlsAreDeclared,
    ModelBoardElementsAreDeclared,
    ModelBoardConnectionsAreDeclared,
    ModelViewFieldsAreDeclared,
    ModelAutomationsAreDeclared,
    ModelAutomationDefinitionsAreDeclared,
    ModelTranslationsAreDeclared,
    ModelTranslationDefinitionsAreDeclared,
    ModelExternalPayloadsAreDeclared,
    ModelExternalPayloadFieldsAreDeclared,
    ModelStreamsAreDeclared,
    ModelEventsAreDeclared,
    ModelEventAttributesAreDeclared,
    ModelViewControlsProvideCommandInputs,
    WorkflowIdentityStable,
    WorkflowSliceDetailsComplete,
    WorkflowSliceModulesComplete,
    WorkflowTransitionsStructured,
    WorkflowTransitionSourcesResolve,
    WorkflowTransitionTargetsResolve,
    WorkflowStepRelationshipsAreAllowed,
    WorkflowStepSlugsAreUnique,
    WorkflowHasExactlyOneEntryStep,
    WorkflowMainStepsHaveIncomingReachability,
    WorkflowNonSupportingStepsReachableFromEntry,
    WorkflowBranchAndAlternateStepsHaveTriggerOrRationale,
    WorkflowTransitionsHaveModeledKinds,
    WorkflowExitsNameTargetsAndRationale,
    WorkflowExternallyRelevantOutcomesHandled,
    WorkflowOutcomesSourceResolve,
    WorkflowCommandErrorsSourceResolve,
    WorkflowTransitionsDoNotUseCommandErrorsAsOutcomes,
    WorkflowNonEventDefinitionsAreUniquelyOwned,
    WorkflowSharedEventDefinitionsHaveIdenticalIdentity,
    WorkflowOnlyEventsMayBeSharedAcrossSlices,
    WorkflowCommandTransitionsTargetOwnedCommands,
    WorkflowCommandTransitionsSourceOwnedControls,
    WorkflowCommandTransitionsResolveControlsAndCommands,
    WorkflowStateViewCommandTransitionsTargetStateChanges,
    WorkflowEventTransitionsAreSharedByEndpointSlices,
    WorkflowEventTransitionsHaveParticipatingEndpointEvents,
    WorkflowNavigationTransitionsResolveControlsAndViews,
    WorkflowNavigationTransitionsResolveToEntryViews,
    WorkflowExternalTriggersDeclarePayloadContracts,
    WorkflowExternalTriggerPayloadContractsHaveProvenance,
    WorkflowTransitionsHaveRequiredEvidence,
    WorkflowEntryLifecycleStatesCoverRequiredStates,
    SliceIdentityStable,
    SliceRepresentsOneCoherentModelUnit,
    SliceRepresentsSmallestUsefulBehaviorBoundary,
    SliceStateChangeRequiresEvent,
    SliceBitLevelDataFlowsStructured,
    ModeledDataFlowsAreBitComplete,
    SliceScenariosHaveGwt,
    SliceScenarioNamesAreUnique,
    SliceNamedDefinitionsAreUniquelyOwned,
    SliceScenarioStreamsResolve,
    StateChangeScenariosNameStreams,
    AcceptanceScenariosAreUserFacing,
    StateViewReadModelsHaveProjectorContracts,
    ContractScenariosTargetKnownDefinitions,
    ContractScenariosCoverModeledContracts,
    CommandInputsHaveAllowedSources,
    CommandInputsHaveProvenance,
    CommandInputsWithoutIssuingControlsHaveProvenance,
    CommandSessionInputsHaveDescriptions,
    CommandInputsTraceToInvocationSources,
    CommandInputsSourcedFromEventStreamsResolve,
    CommandInputsSourcedFromExternalPayloadsResolve,
    CommandInputsSourcedFromGeneratedValuesHaveCoordinates,
    CommandInputsSourcedFromSessionValuesHaveCoordinates,
    CommandErrorsAreDeclared,
    CommandErrorsHaveAllowedRecovery,
    CommandErrorsHaveScenarioCoverage,
    ScenarioErrorReferencesAreDeclared,
    SingletonCommandsDeclareRepeatBehavior,
    AutomationSlicesDeclareTriggers,
    AutomationSlicesRepresentOneReaction,
    AutomationsIssueKnownCommands,
    AutomationsHandleCommandErrors,
    TranslationSlicesDeclareExternalContracts,
    ExternalBoundariesHavePayloadContractsAndFieldProvenance,
    TranslationsTargetKnownCommands,
    TranslationsReferenceObservedExternalEvents,
    BoardLanesAreCanonical,
    BoardElementsUseCanonicalLanes,
    BoardElementsReferenceDeclarations,
    AutomationBoardElementsAreDeclaredAutomations,
    ExternalBoardElementsAreObservedEvents,
    CommandEventBoardEdgesMatchEmissions,
    EventReadModelBoardEdgesMatchProjectionSources,
    ViewCommandBoardEdgesMatchControls,
    BoardConnectionsHaveCausalSemantics,
    ExternalEventTriggersMatchTranslations,
    ExternalEventsDoNotUpdateReadModels,
    ReadModelsFeedingViewsHaveIncomingEventUpdates,
    CommandsHaveIncomingTriggers,
    MainPathBoardHasNoDisconnectedIslands,
    OutcomeLabelsAreUnique,
    OutcomeEventSetsAreNonEmpty,
    OutcomeEventSetsAreDistinct,
    OutcomeEventsAreKnownToSlice,
    EventsReferenceKnownStreams,
    CommandEmittedEventsAreKnown,
    LocallyEmittedEventsAreProducedByCommands,
    ExternalPayloadFieldsHaveProvenance,
    EventAttributesHaveAllowedSources,
    EventAttributesHaveProvenance,
    EventAttributeSourcesAreComplete,
    StoredEventFactsTraceToOriginalSources,
    ReadModelFieldsHaveAllowedSources,
    ReadModelFieldsHaveProvenance,
    ReadModelFieldSourcesAreComplete,
    ReadModelFieldEventAttributeSourcesResolve,
    DerivedReadModelFieldsHaveScenarioCoverage,
    AbsenceReadModelFieldsHaveScenarioCoverage,
    TransitiveReadModelsHaveSemantics,
    ViewFieldsHaveAllowedSources,
    ViewFieldsHaveProvenance,
    ViewFieldSourcesAreComplete,
    ViewFieldsSourceFromUsedReadModels,
    ViewsHaveInformationSketches,
    ViewFieldsAppearInSketch,
    ViewSketchTokensMapToModeledElements,
    ViewFieldReadModelFieldSourcesResolve,
    DisplayedDataTraceToOriginalProvenance,
    ViewControlsHaveSketchTokens,
    ViewControlsAppearInSketch,
    ViewControlsReferenceKnownCommands,
    ViewControlsProvideCommandInputs,
    ViewControlInputsHaveAllowedSources,
    ViewControlInputsHaveProvenance,
    ViewControlInputsHaveDescriptions,
    ViewControlSessionInputsHaveDescriptions,
    ViewControlInputVisibilityIsModeled,
    ViewControlDecisionFieldsAreVisible,
    ViewControlActorInputsAreVisible,
    ViewControlsHandleCommandErrors,
    ViewControlRecoveryBehaviorIsModeled,
    StateViewSlicesDoNotOwnCommands,
    StateViewSlicesOwnViews,
    StateViewSlicesOwnReadModels,
    StateViewSlicesOwnProjectionPaths,
    StateViewSlicesRepresentSingleViewProjectionBoundary,
    StateChangeSlicesOwnCommands,
    StateChangeSlicesOwnEvents,
    StateChangeSlicesOwnOutcomes,
    StateChangeSlicesOwnErrors,
    StateChangeSlicesDoNotOwnReadModelsOrViews,
    StateChangeSlicesDoNotOwnAutomationsOrTranslations,
    StateChangeSlicesDoNotOwnControlsOrSketches,
    TranslationSlicesDoNotOwnViews,
    ViewControlNavigationTypesAreModeled,
    ViewControlNavigationTypesAreDeclared,
    ViewControlModeledViewNavigationTargetsResolve,
    ViewControlExternalWorkflowNavigationTargetsNamed,
    ViewControlExternalSystemNavigationTargetsHaveContracts,
    ViewControlNavigationTargetsAreComplete,
}

impl QuintInvariantName {
    pub const MODEL_DATA_FLOW_SOURCE_CHAINS_PRESERVE_BIT_ENCODING_SEMANTICS: QuintInvariantName = QuintInvariantName::ModelDataFlowSourceChainsPreserveBitEncodingSemantics;
    pub const MODEL_WORKFLOW_BEHAVIOR_SURFACE_IS_COMPLETE: QuintInvariantName = QuintInvariantName::ModelWorkflowBehaviorSurfaceIsComplete;
    pub const WORKFLOW_ONLY_EVENTS_MAY_BE_SHARED_ACROSS_SLICES: QuintInvariantName = QuintInvariantName::WorkflowOnlyEventsMayBeSharedAcrossSlices;
    pub const STATE_VIEW_SLICES_REPRESENT_SINGLE_VIEW_PROJECTION_BOUNDARY: QuintInvariantName = QuintInvariantName::StateViewSlicesRepresentSingleViewProjectionBoundary;

    /// The invariant's name as Quint knows it.
    pub fn as_str(self) -> (r: &'static str)
        ensures
            r@ == invariant_text(self),
    {
        match self {
            QuintInvariantName::ModelIdentityStable => "modelIdentityStable",
            QuintInvariantName::ModelVersionStable => "modelVersionStable",
            QuintInvariantName::ModelDigestStable => "modelDigestStable",
            QuintInvariantName::ModelWorkflowsAreDeclared => "modelWorkflowsAreDeclared",
            QuintInvariantName::ModelSlicesAreDeclared => "modelSlicesAreDeclared",
            QuintInvariantName::ModelSliceModulesAreDeclared => "modelSliceModulesAreDeclared",
            QuintInvariantName::ModelScenariosAreDeclared => "modelScenariosAreDeclared",
            QuintInvariantName::ModelScenarioDefinitionsAreDeclared => "modelScenarioDefinitionsAreDeclared",
            QuintInvariantName::ModelWorkflowCompositionStructureComplete => "modelWorkflowCompositionStructureComplete",
            QuintInvariantName::ModelWorkflowBehaviorSurfaceIsComplete => "modelWorkflowBehaviorSurfaceIsComplete",
            QuintInvariantName::ModelScenarioDefinitionsHaveGwt => "modelScenarioDefinitionsHaveGwt",
            QuintInvariantName::ModelScenarioKindsAreFirstClass => "modelScenarioKindsAreFirstClass",
            QuintInvariantName::ModelDataFlowsAreDeclared => "modelDataFlowsAreDeclared",
            QuintInvariantName::ModelDataFlowsAreBitComplete => "modelDataFlowsAreBitComplete",
            QuintInvariantName::ModelDataFlowSourceKindsAreModeled => "modelDataFlowSourceKindsAreModeled",
            QuintInvariantName::ModelDataFlowModeledSourcesResolve => "modelDataFlowModeledSourcesResolve",
            QuintInvariantName::ModelDataFlowSourceChainsReachOriginals => "modelDataFlowSourceChainsReachOriginals",
            QuintInvariantName::ModelDataFlowSourceChainsPreserveBitEncodingSemantics => "modelDataFlowSourceChainsPreserveBitEncodingSemantics",
            QuintInvariantName::ModelDataFlowTransformationsAreModeled => "modelDataFlowTransformationsAreModeled",
            QuintInvariantName::ModelMeaningfulDataFlowsAreCovered => "modelMeaningfulDataFlowsAreCovered",
            QuintInvariantName::ModelDataFlowSourceBitEncodingsMatchModeledSources => "modelDataFlowSourceBitEncodingsMatchModeledSources",
            QuintInvariantName::ModelViewFieldBitEncodingsMatchDataFlows => "modelViewFieldBitEncodingsMatchDataFlows",
            QuintInvariantName::ModelExternalPayloadFieldBitEncodingsMatchDataFlows => "modelExternalPayloadFieldBitEncodingsMatchDataFlows",
            QuintInvariantName::ModelOutcomesAreDeclared => "modelOutcomesAreDeclared",
            QuintInvariantName::ModelCommandErrorsAreDeclared => "modelCommandErrorsAreDeclared",
            QuintInvariantName::ModelCommandsAreDeclared => "modelCommandsAreDeclared",
            QuintInvariantName::ModelCommandInputsAreDeclared => "modelCommandInputsAreDeclared",
            QuintInvariantName::ModelCommandInputsHaveProvenance => "modelCommandInputsHaveProvenance",
            QuintInvariantName::ModelCommandInputsTraceToInvocationSources => "modelCommandInputsTraceToInvocationSources",
            QuintInvariantName::ModelReadModelsAreDeclared => "modelReadModelsAreDeclared",
            QuintInvariantName::ModelReadModelDefinitionsAreDeclared => "modelReadModelDefinitionsAreDeclared",
            QuintInvariantName::ModelReadModelFieldsAreDeclared => "modelReadModelFieldsAreDeclared",
            QuintInvariantName::ModelReadModelFieldSourcesAreComplete => "modelReadModelFieldSourcesAreComplete",
            QuintInvariantName::ModelViewFieldSourcesAreComplete => "modelViewFieldSourcesAreComplete",
            QuintInvariantName::ModelViewFieldReadModelFieldSourcesResolve => "modelViewFieldReadModelFieldSourcesResolve",
            QuintInvariantName::ModelDisplayedDataTraceToOriginalProvenance => "modelDisplayedDataTraceToOriginalProvenance",
            QuintInvariantName::ModelExternalPayloadFieldsHaveProvenance => "modelExternalPayloadFieldsHaveProvenance",
            QuintInvariantName::ModelViewsAreDeclared => "modelViewsAreDeclared",
            QuintInvariantName::ModelViewDefinitionsAreDeclared => "modelViewDefinitionsAreDeclared",
            QuintInvariantName::ModelViewControlsAreDeclared => "modelViewControlsAreDeclared",
            QuintInvariantName::ModelBoardElementsAreDeclared => "modelBoardElementsAreDeclared",
            QuintInvariantName::ModelBoardConnectionsAreDeclared => "modelBoardConnectionsAreDeclared",
            QuintInvariantName::ModelViewFieldsAreDeclared => "modelViewFieldsAreDeclared",
            QuintInvariantName::ModelAutomationsAreDeclared => "modelAutomationsAreDeclared",
            QuintInvariantName::ModelAutomationDefinitionsAreDeclared => "modelAutomationDefinitionsAreDeclared",
            QuintInvariantName::ModelTranslationsAreDeclared => "modelTranslationsAreDeclared",
            QuintInvariantName::ModelTranslationDefinitionsAreDeclared => "modelTranslationDefinitionsAreDeclared",
            QuintInvariantName::ModelExternalPayloadsAreDeclared => "modelExternalPayloadsAreDeclared",
            QuintInvariantName::ModelExternalPayloadFieldsAreDeclared => "modelExternalPayloadFieldsAreDeclared",
            QuintInvariantName::ModelStreamsAreDeclared => "modelStreamsAreDeclared",
            QuintInvariantName::ModelEventsAreDeclared => "modelEventsAreDeclared",
            QuintInvariantName::ModelEventAttributesAreDeclared => "modelEventAttributesAreDeclared",
            QuintInvariantName::ModelViewControlsProvideCommandInputs => "modelViewControlsProvideCommandInputs",
            QuintInvariantName::WorkflowIdentityStable => "workflowIdentityStable",
            QuintInvariantName::WorkflowSliceDetailsComplete => "workflowSliceDetailsComplete",
            QuintInvariantName::WorkflowSliceModulesComplete => "workflowSliceModulesComplete",
            QuintInvariantName::WorkflowTransitionsStructured => "workflowTransitionsStructured",
            QuintInvariantName::WorkflowTransitionSourcesResolve => "workflowTransitionSourcesResolve",
            QuintInvariantName::WorkflowTransitionTargetsResolve => "workflowTransitionTargetsResolve",
            QuintInvariantName::WorkflowStepRelationshipsAreAllowed => "workflowStepRelationshipsAreAllowed",
            QuintInvariantName::WorkflowStepSlugsAreUnique => "workflowStepSlugsAreUnique",
            QuintInvariantName::WorkflowHasExactlyOneEntryStep => "workflowHasExactlyOneEntryStep",
            QuintInvariantName::WorkflowMainStepsHaveIncomingReachability => "workflowMainStepsHaveIncomingReachability",
            QuintInvariantName::WorkflowNonSupportingStepsReachableFromEntry => "workflowNonSupportingStepsReachableFromEntry",
            QuintInvariantName::WorkflowBranchAndAlternateStepsHaveTriggerOrRationale => "workflowBranchAndAlternateStepsHaveTriggerOrRationale",
            QuintInvariantName::WorkflowTransitionsHaveModeledKinds => "workflowTransitionsHaveModeledKinds",
            QuintInvariantName::WorkflowExitsNameTargetsAndRationale => "workflowExitsNameTargetsAndRationale",
            QuintInvariantName::WorkflowExternallyRelevantOutcomesHandled => "workflowExternallyRelevantOutcomesHandled",
            QuintInvariantName::WorkflowOutcomesSourceResolve => "workflowOutcomesSourceResolve",
            QuintInvariantName::WorkflowCommandErrorsSourceResolve => "workflowCommandErrorsSourceResolve",
            QuintInvariantName::WorkflowTransitionsDoNotUseCommandErrorsAsOutcomes => "workflowTransitionsDoNotUseCommandErrorsAsOutcomes",
            QuintInvariantName::WorkflowNonEventDefinitionsAreUniquelyOwned => "workflowNonEventDefinitionsAreUniquelyOwned",
            QuintInvariantName::WorkflowSharedEventDefinitionsHaveIdenticalIdentity => "workflowSharedEventDefinitionsHaveIdenticalIdentity",
            QuintInvariantName::WorkflowOnlyEventsMayBeSharedAcrossSlices => "workflowOnlyEventsMayBeSharedAcrossSlices",
            QuintInvariantName::WorkflowCommandTransitionsTargetOwnedCommands => "workflowCommandTransitionsTargetOwnedCommands",
            QuintInvariantName::WorkflowCommandTransitionsSourceOwnedControls => "workflowCommandTransitionsSourceOwnedControls",
            QuintInvariantName::WorkflowCommandTransitionsResolveControlsAndCommands => "workflowCommandTransitionsResolveControlsAndCommands",
            QuintInvariantName::WorkflowStateViewCommandTransitionsTargetStateChanges => "workflowStateViewCommandTransitionsTargetStateChanges",
            QuintInvariantName::WorkflowEventTransitionsAreSharedByEndpointSlices => "workflowEventTransitionsAreSharedByEndpointSlices",
            QuintInvariantName::WorkflowEventTransitionsHaveParticipatingEndpointEvents => "workflowEventTransitionsHaveParticipatingEndpointEvents",
            QuintInvariantName::WorkflowNavigationTransitionsResolveControlsAndViews => "workflowNavigationTransitionsResolveControlsAndViews",
            QuintInvariantName::WorkflowNavigationTransitionsResolveToEntryViews => "workflowNavigationTransitionsResolveToEntryViews",
            QuintInvariantName::WorkflowExternalTriggersDeclarePayloadContracts => "workflowExternalTriggersDeclarePayloadContracts",
            QuintInvariantName::WorkflowExternalTriggerPayloadContractsHaveProvenance => "workflowExternalTriggerPayloadContractsHaveProvenance",
            QuintInvariantName::WorkflowTransitionsHaveRequiredEvidence => "workflowTransitionsHaveRequiredEvidence",
            QuintInvariantName::WorkflowEntryLifecycleStatesCoverRequiredStates => "workflowEntryLifecycleStatesCoverRequiredStates",
            QuintInvariantName::SliceIdentityStable => "sliceIdentityStable",
            QuintInvariantName::SliceRepresentsOneCoherentModelUnit => "sliceRepresentsOneCoherentModelUnit",
            QuintInvariantName::SliceRepresentsSmallestUsefulBehaviorBoundary => "sliceRepresentsSmallestUsefulBehaviorBoundary",
            QuintInvariantName::SliceStateChangeRequiresEvent => "sliceStateChangeRequiresEvent",
            QuintInvariantName::SliceBitLevelDataFlowsStructured => "sliceBitLevelDataFlowsStructured",
            QuintInvariantName::ModeledDataFlowsAreBitComplete => "modeledDataFlowsAreBitComplete",
            QuintInvariantName::SliceScenariosHaveGwt => "sliceScenariosHaveGwt",
            QuintInvariantName::SliceScenarioNamesAreUnique => "sliceScenarioNamesAreUnique",
            QuintInvariantName::SliceNamedDefinitionsAreUniquelyOwned => "sliceNamedDefinitionsAreUniquelyOwned",
            QuintInvariantName::SliceScenarioStreamsResolve => "sliceScenarioStreamsResolve",
            QuintInvariantName::StateChangeScenariosNameStreams => "stateChangeScenariosNameStreams",
            QuintInvariantName::AcceptanceScenariosAreUserFacing => "acceptanceScenariosAreUserFacing",
            QuintInvariantName::StateViewReadModelsHaveProjectorContracts => "stateViewReadModelsHaveProjectorContracts",
            QuintInvariantName::ContractScenariosTargetKnownDefinitions => "contractScenariosTargetKnownDefinitions",
            QuintInvariantName::ContractScenariosCoverModeledContracts => "contractScenariosCoverModeledContracts",
            QuintInvariantName::CommandInputsHaveAllowedSources => "commandInputsHaveAllowedSources",
            QuintInvariantName::CommandInputsHaveProvenance => "commandInputsHaveProvenance",
            QuintInvariantName::CommandInputsWithoutIssuingControlsHaveProvenance => "commandInputsWithoutIssuingControlsHaveProvenance",
            QuintInvariantName::CommandSessionInputsHaveDescriptions => "commandSessionInputsHaveDescriptions",
            QuintInvariantName::CommandInputsTraceToInvocationSources => "commandInputsTraceToInvocationSources",
            QuintInvariantName::CommandInputsSourcedFromEventStreamsResolve => "commandInputsSourcedFromEventStreamsResolve",
            QuintInvariantName::CommandInputsSourcedFromExternalPayloadsResolve => "commandInputsSourcedFromExternalPayloadsResolve",
            QuintInvariantName::CommandInputsSourcedFromGeneratedValuesHaveCoordinates => "commandInputsSourcedFromGeneratedValuesHaveCoordinates",
            QuintInvariantName::CommandInputsSourcedFromSessionValuesHaveCoordinates => "commandInputsSourcedFromSessionValuesHaveCoordinates",
            QuintInvariantName::CommandErrorsAreDeclared => "commandErrorsAreDeclared",
            QuintInvariantName::CommandErrorsHaveAllowedRecovery => "commandErrorsHaveAllowedRecovery",
            QuintInvariantName::CommandErrorsHaveScenarioCoverage => "commandErrorsHaveScenarioCoverage",
            QuintInvariantName::ScenarioErrorReferencesAreDeclared => "scenarioErrorReferencesAreDeclared",
            QuintInvariantName::SingletonCommandsDeclareRepeatBehavior => "singletonCommandsDeclareRepeatBehavior",
            QuintInvariantName::AutomationSlicesDeclareTriggers => "automationSlicesDeclareTriggers",
            QuintInvariantName::AutomationSlicesRepresentOneReaction => "automationSlicesRepresentOneReaction",
            QuintInvariantName::AutomationsIssueKnownCommands => "automationsIssueKnownCommands",
            QuintInvariantName::AutomationsHandleCommandErrors => "automationsHandleCommandErrors",
            QuintInvariantName::TranslationSlicesDeclareExternalContracts => "translationSlicesDeclareExternalContracts",
            QuintInvariantName::ExternalBoundariesHavePayloadContractsAndFieldProvenance => "externalBoundariesHavePayloadContractsAndFieldProvenance",
            QuintInvariantName::TranslationsTargetKnownCommands => "translationsTargetKnownCommands",
            QuintInvariantName::TranslationsReferenceObservedExternalEvents => "translationsReferenceObservedExternalEvents",
            QuintInvariantName::BoardLanesAreCanonical => "boardLanesAreCanonical",
            QuintInvariantName::BoardElementsUseCanonicalLanes => "boardElementsUseCanonicalLanes",
            QuintInvariantName::BoardElementsReferenceDeclarations => "boardElementsReferenceDeclarations",
            QuintInvariantName::AutomationBoardElementsAreDeclaredAutomations => "automationBoardElementsAreDeclaredAutomations",
            QuintInvariantName::ExternalBoardElementsAreObservedEvents => "externalBoardElementsAreObservedEvents",
            QuintInvariantName::CommandEventBoardEdgesMatchEmissions => "commandEventBoardEdgesMatchEmissions",
            QuintInvariantName::EventReadModelBoardEdgesMatchProjectionSources => "eventReadModelBoardEdgesMatchProjectionSources",
            QuintInvariantName::ViewCommandBoardEdgesMatchControls => "viewCommandBoardEdgesMatchControls",
            QuintInvariantName::BoardConnectionsHaveCausalSemantics => "boardConnectionsHaveCausalSemantics",
            QuintInvariantName::ExternalEventTriggersMatchTranslations => "externalEventTriggersMatchTranslations",
            QuintInvariantName::ExternalEventsDoNotUpdateReadModels => "externalEventsDoNotUpdateReadModels",
            QuintInvariantName::ReadModelsFeedingViewsHaveIncomingEventUpdates => "readModelsFeedingViewsHaveIncomingEventUpdates",
            QuintInvariantName::CommandsHaveIncomingTriggers => "commandsHaveIncomingTriggers",
            QuintInvariantName::MainPathBoardHasNoDisconnectedIslands => "mainPathBoardHasNoDisconnectedIslands",
            QuintInvariantName::OutcomeLabelsAreUnique => "outcomeLabelsAreUnique",
            QuintInvariantName::OutcomeEventSetsAreNonEmpty => "outcomeEventSetsAreNonEmpty",
            QuintInvariantName::OutcomeEventSetsAreDistinct => "outcomeEventSetsAreDistinct",
            QuintInvariantName::OutcomeEventsAreKnownToSlice => "outcomeEventsAreKnownToSlice",
            QuintInvariantName::EventsReferenceKnownStreams => "eventsReferenceKnownStreams",
            QuintInvariantName::CommandEmittedEventsAreKnown => "commandEmittedEventsAreKnown",
            QuintInvariantName::LocallyEmittedEventsAreProducedByCommands => "locallyEmittedEventsAreProducedByCommands",
            QuintInvariantName::ExternalPayloadFieldsHaveProvenance => "externalPayloadFieldsHaveProvenance",
            QuintInvariantName::EventAttributesHaveAllowedSources => "eventAttributesHaveAllowedSources",
            QuintInvariantName::EventAttributesHaveProvenance => "eventAttributesHaveProvenance",
            QuintInvariantName::EventAttributeSourcesAreComplete => "eventAttributeSourcesAreComplete",
            QuintInvariantName::StoredEventFactsTraceToOriginalSources => "storedEventFactsTraceToOriginalSources",
            QuintInvariantName::ReadModelFieldsHaveAllowedSources => "readModelFieldsHaveAllowedSources",
            QuintInvariantName::ReadModelFieldsHaveProvenance => "readModelFieldsHaveProvenance",
            QuintInvariantName::ReadModelFieldSourcesAreComplete => "readModelFieldSourcesAreComplete",
            QuintInvariantName::ReadModelFieldEventAttributeSourcesResolve => "readModelFieldEventAttributeSourcesResolve",
            QuintInvariantName::DerivedReadModelFieldsHaveScenarioCoverage => "derivedReadModelFieldsHaveScenarioCoverage",
            QuintInvariantName::AbsenceReadModelFieldsHaveScenarioCoverage => "absenceReadModelFieldsHaveScenarioCoverage",
            QuintInvariantName::TransitiveReadModelsHaveSemantics => "transitiveReadModelsHaveSemantics",
            QuintInvariantName::ViewFieldsHaveAllowedSources => "viewFieldsHaveAllowedSources",
            QuintInvariantName::ViewFieldsHaveProvenance => "viewFieldsHaveProvenance",
            QuintInvariantName::ViewFieldSourcesAreComplete => "viewFieldSourcesAreComplete",
            QuintInvariantName::ViewFieldsSourceFromUsedReadModels => "viewFieldsSourceFromUsedReadModels",
            QuintInvariantName::ViewsHaveInformationSketches => "viewsHaveInformationSketches",
            QuintInvariantName::ViewFieldsAppearInSketch => "viewFieldsAppearInSketch",
            QuintInvariantName::ViewSketchTokensMapToModeledElements => "viewSketchTokensMapToModeledElements",
            QuintInvariantName::ViewFieldReadModelFieldSourcesResolve => "viewFieldReadModelFieldSourcesResolve",
            QuintInvariantName::DisplayedDataTraceToOriginalProvenance => "displayedDataTraceToOriginalProvenance",
            QuintInvariantName::ViewControlsHaveSketchTokens => "viewControlsHaveSketchTokens",
            QuintInvariantName::ViewControlsAppearInSketch => "viewControlsAppearInSketch",
            QuintInvariantName::ViewControlsReferenceKnownCommands => "viewControlsReferenceKnownCommands",
            QuintInvariantName::ViewControlsProvideCommandInputs => "viewControlsProvideCommandInputs",
            QuintInvariantName::ViewControlInputsHaveAllowedSources => "viewControlInputsHaveAllowedSources",
            QuintInvariantName::ViewControlInputsHaveProvenance => "viewControlInputsHaveProvenance",
            QuintInvariantName::ViewControlInputsHaveDescriptions => "viewControlInputsHaveDescriptions",
            QuintInvariantName::ViewControlSessionInputsHaveDescriptions => "viewControlSessionInputsHaveDescriptions",
            QuintInvariantName::ViewControlInputVisibilityIsModeled => "viewControlInputVisibilityIsModeled",
            QuintInvariantName::ViewControlDecisionFieldsAreVisible => "viewControlDecisionFieldsAreVisible",
            QuintInvariantName::ViewControlActorInputsAreVisible => "viewControlActorInputsAreVisible",
            QuintInvariantName::ViewControlsHandleCommandErrors => "viewControlsHandleCommandErrors",
            QuintInvariantName::ViewControlRecoveryBehaviorIsModeled => "viewControlRecoveryBehaviorIsModeled",
            QuintInvariantName::StateViewSlicesDoNotOwnCommands => "stateViewSlicesDoNotOwnCommands",
            QuintInvariantName::StateViewSlicesOwnViews => "stateViewSlicesOwnViews",
            QuintInvariantName::StateViewSlicesOwnReadModels => "stateViewSlicesOwnReadModels",
            QuintInvariantName::StateViewSlicesOwnProjectionPaths => "stateViewSlicesOwnProjectionPaths",
            QuintInvariantName::StateViewSlicesRepresentSingleViewProjectionBoundary => "stateViewSlicesRepresentSingleViewProjectionBoundary",
            QuintInvariantName::StateChangeSlicesOwnCommands => "stateChangeSlicesOwnCommands",
            QuintInvariantName::StateChangeSlicesOwnEvents => "stateChangeSlicesOwnEvents",
            QuintInvariantName::StateChangeSlicesOwnOutcomes => "stateChangeSlicesOwnOutcomes",
            QuintInvariantName::StateChangeSlicesOwnErrors => "stateChangeSlicesOwnErrors",
            QuintInvariantName::StateChangeSlicesDoNotOwnReadModelsOrViews => "stateChangeSlicesDoNotOwnReadModelsOrViews",
            QuintInvariantName::StateChangeSlicesDoNotOwnAutomationsOrTranslations => "stateChangeSlicesDoNotOwnAutomationsOrTranslations",
            QuintInvariantName::StateChangeSlicesDoNotOwnControlsOrSketches => "stateChangeSlicesDoNotOwnControlsOrSketches",
            QuintInvariantName::TranslationSlicesDoNotOwnViews => "translationSlicesDoNotOwnViews",
            QuintInvariantName::ViewControlNavigationTypesAreModeled => "viewControlNavigationTypesAreModeled",
            QuintInvariantName::ViewControlNavigationTypesAreDeclared => "viewControlNavigationTypesAreDeclared",
            QuintInvariantName::ViewControlModeledViewNavigationTargetsResolve => "viewControlModeledViewNavigationTargetsResolve",
            QuintInvariantName::ViewControlExternalWorkflowNavigationTargetsNamed => "viewControlExternalWorkflowNavigationTargetsNamed",
            QuintInvariantName::ViewControlExternalSystemNavigationTargetsHaveContracts => "viewControlExternalSystemNavigationTargetsHaveContracts",
            QuintInvariantName::ViewControlNavigationTargetsAreComplete => "viewControlNavigationTargetsAreComplete",
        }
    }
}

/// The name of an invariant as Quint knows it.
pub open spec fn invariant_text(n: QuintInvariantName) -> Seq<char> {
    match n {
        QuintInvariantName::ModelIdentityStable => "modelIdentityStable"@,
        QuintInvariantName::ModelVersionStable => "modelVersionStable"@,
        QuintInvariantName::ModelDigestStable => "modelDigestStable"@,
        QuintInvariantName::ModelWorkflowsAreDeclared => "modelWorkflowsAreDeclared"@,
        QuintInvariantName::ModelSlicesAreDeclared => "modelSlicesAreDeclared"@,
        QuintInvariantName::ModelSliceModulesAreDeclared => "modelSliceModulesAreDeclared"@,
        QuintInvariantName::ModelScenariosAreDeclared => "modelScenariosAreDeclared"@,
        QuintInvariantName::ModelScenarioDefinitionsAreDeclared => "modelScenarioDefinitionsAreDeclared"@,
        QuintInvariantName::ModelWorkflowCompositionStructureComplete => "modelWorkflowCompositionStructureComplete"@,
        QuintInvariantName::ModelWorkflowBehaviorSurfaceIsComplete => "modelWorkflowBehaviorSurfaceIsComplete"@,
        QuintInvariantName::ModelScenarioDefinitionsHaveGwt => "modelScenarioDefinitionsHaveGwt"@,
        QuintInvariantName::ModelScenarioKindsAreFirstClass => "modelScenarioKindsAreFirstClass"@,
        QuintInvariantName::ModelDataFlowsAreDeclared => "modelDataFlowsAreDeclared"@,
        QuintInvariantName::ModelDataFlowsAreBitComplete => "modelDataFlowsAreBitComplete"@,
        QuintInvariantName::ModelDataFlowSourceKindsAreModeled => "modelDataFlowSourceKindsAreModeled"@,
        QuintInvariantName::ModelDataFlowModeledSourcesResolve => "modelDataFlowModeledSourcesResolve"@,
        QuintInvariantName::ModelDataFlowSourceChainsReachOriginals => "modelDataFlowSourceChainsReachOriginals"@,
        QuintInvariantName::ModelDataFlowSourceChainsPreserveBitEncodingSemantics => "modelDataFlowSourceChainsPreserveBitEncodingSemantics"@,
        QuintInvariantName::ModelDataFlowTransformationsAreModeled => "modelDataFlowTransformationsAreModeled"@,
        QuintInvariantName::ModelMeaningfulDataFlowsAreCovered => "modelMeaningfulDataFlowsAreCovered"@,
        QuintInvariantName::ModelDataFlowSourceBitEncodingsMatchModeledSources => "modelDataFlowSourceBitEncodingsMatchModeledSources"@,
        QuintInvariantName::ModelViewFieldBitEncodingsMatchDataFlows => "modelViewFieldBitEncodingsMatchDataFlows"@,
        QuintInvariantName::ModelExternalPayloadFieldBitEncodingsMatchDataFlows => "modelExternalPayloadFieldBitEncodingsMatchDataFlows"@,
        QuintInvariantName::ModelOutcomesAreDeclared => "modelOutcomesAreDeclared"@,
        QuintInvariantName::ModelCommandErrorsAreDeclared => "modelCommandErrorsAreDeclared"@,
        QuintInvariantName::ModelCommandsAreDeclared => "modelCommandsAreDeclared"@,
        QuintInvariantName::ModelCommandInputsAreDeclared => "modelCommandInputsAreDeclared"@,
        QuintInvariantName::ModelCommandInputsHaveProvenance => "modelCommandInputsHaveProvenance"@,
        QuintInvariantName::ModelCommandInputsTraceToInvocationSources => "modelCommandInputsTraceToInvocationSources"@,
        QuintInvariantName::ModelReadModelsAreDeclared => "modelReadModelsAreDeclared"@,
        QuintInvariantName::ModelReadModelDefinitionsAreDeclared => "modelReadModelDefinitionsAreDeclared"@,
        QuintInvariantName::ModelReadModelFieldsAreDeclared => "modelReadModelFieldsAreDeclared"@,
        QuintInvariantName::ModelReadModelFieldSourcesAreComplete => "modelReadModelFieldSourcesAreComplete"@,
        QuintInvariantName::ModelViewFieldSourcesAreComplete => "modelViewFieldSourcesAreComplete"@,
        QuintInvariantName::ModelViewFieldReadModelFieldSourcesResolve => "modelViewFieldReadModelFieldSourcesResolve"@,
        QuintInvariantName::ModelDisplayedDataTraceToOriginalProvenance => "modelDisplayedDataTraceToOriginalProvenance"@,
        QuintInvariantName::ModelExternalPayloadFieldsHaveProvenance => "modelExternalPayloadFieldsHaveProvenance"@,
        QuintInvariantName::ModelViewsAreDeclared => "modelViewsAreDeclared"@,
        QuintInvariantName::ModelViewDefinitionsAreDeclared => "modelViewDefinitionsAreDeclared"@,
        QuintInvariantName::ModelViewControlsAreDeclared => "modelViewControlsAreDeclared"@,
        QuintInvariantName::ModelBoardElementsAreDeclared => "modelBoardElementsAreDeclared"@,
        QuintInvariantName::ModelBoardConnectionsAreDeclared => "modelBoardConnectionsAreDeclared"@,
        QuintInvariantName::ModelViewFieldsAreDeclared => "modelViewFieldsAreDeclared"@,
        QuintInvariantName::ModelAutomationsAreDeclared => "modelAutomationsAreDeclared"@,
        QuintInvariantName::ModelAutomationDefinitionsAreDeclared => "modelAutomationDefinitionsAreDeclared"@,
        QuintInvariantName::ModelTranslationsAreDeclared => "modelTranslationsAreDeclared"@,
        QuintInvariantName::ModelTranslationDefinitionsAreDeclared => "modelTranslationDefinitionsAreDeclared"@,
        QuintInvariantName::ModelExternalPayloadsAreDeclared => "modelExternalPayloadsAreDeclared"@,
        QuintInvariantName::ModelExternalPayloadFieldsAreDeclared => "modelExternalPayloadFieldsAreDeclared"@,
        QuintInvariantName::ModelStreamsAreDeclared => "modelStreamsAreDeclared"@,
        QuintInvariantName::ModelEventsAreDeclared => "modelEventsAreDeclared"@,
        QuintInvariantName::ModelEventAttributesAreDeclared => "modelEventAttributesAreDeclared"@,
        QuintInvariantName::ModelViewControlsProvideCommandInputs => "modelViewControlsProvideCommandInputs"@,
        QuintInvariantName::WorkflowIdentityStable => "workflowIdentityStable"@,
        QuintInvariantName::WorkflowSliceDetailsComplete => "workflowSliceDetailsComplete"@,
        QuintInvariantName::WorkflowSliceModulesComplete => "workflowSliceModulesComplete"@,
        QuintInvariantName::WorkflowTransitionsStructured => "workflowTransitionsStructured"@,
        QuintInvariantName::WorkflowTransitionSourcesResolve => "workflowTransitionSourcesResolve"@,
        QuintInvariantName::WorkflowTransitionTargetsResolve => "workflowTransitionTargetsResolve"@,
        QuintInvariantName::WorkflowStepRelationshipsAreAllowed => "workflowStepRelationshipsAreAllowed"@,
        QuintInvariantName::WorkflowStepSlugsAreUnique => "workflowStepSlugsAreUnique"@,
        QuintInvariantName::WorkflowHasExactlyOneEntryStep => "workflowHasExactlyOneEntryStep"@,
        QuintInvariantName::WorkflowMainStepsHaveIncomingReachability => "workflowMainStepsHaveIncomingReachability"@,
        QuintInvariantName::WorkflowNonSupportingStepsReachableFromEntry => "workflowNonSupportingStepsReachableFromEntry"@,
        QuintInvariantName::WorkflowBranchAndAlternateStepsHaveTriggerOrRationale => "workflowBranchAndAlternateStepsHaveTriggerOrRationale"@,
        QuintInvariantName::WorkflowTransitionsHaveModeledKinds => "workflowTransitionsHaveModeledKinds"@,
        QuintInvariantName::WorkflowExitsNameTargetsAndRationale => "workflowExitsNameTargetsAndRationale"@,
        QuintInvariantName::WorkflowExternallyRelevantOutcomesHandled => "workflowExternallyRelevantOutcomesHandled"@,
        QuintInvariantName::WorkflowOutcomesSourceResolve => "workflowOutcomesSourceResolve"@,
        QuintInvariantName::WorkflowCommandErrorsSourceResolve => "workflowCommandErrorsSourceResolve"@,
        QuintInvariantName::WorkflowTransitionsDoNotUseCommandErrorsAsOutcomes => "workflowTransitionsDoNotUseCommandErrorsAsOutcomes"@,
        QuintInvariantName::WorkflowNonEventDefinitionsAreUniquelyOwned => "workflowNonEventDefinitionsAreUniquelyOwned"@,
        QuintInvariantName::WorkflowSharedEventDefinitionsHaveIdenticalIdentity => "workflowSharedEventDefinitionsHaveIdenticalIdentity"@,
        QuintInvariantName::WorkflowOnlyEventsMayBeSharedAcrossSlices => "workflowOnlyEventsMayBeSharedAcrossSlices"@,
        QuintInvariantName::WorkflowCommandTransitionsTargetOwnedCommands => "workflowCommandTransitionsTargetOwnedCommands"@,
        QuintInvariantName::WorkflowCommandTransitionsSourceOwnedControls => "workflowCommandTransitionsSourceOwnedControls"@,
        QuintInvariantName::WorkflowCommandTransitionsResolveControlsAndCommands => "workflowCommandTransitionsResolveControlsAndCommands"@,
        QuintInvariantName::WorkflowStateViewCommandTransitionsTargetStateChanges => "workflowStateViewCommandTransitionsTargetStateChanges"@,
        QuintInvariantName::WorkflowEventTransitionsAreSharedByEndpointSlices => "workflowEventTransitionsAreSharedByEndpointSlices"@,
        QuintInvariantName::WorkflowEventTransitionsHaveParticipatingEndpointEvents => "workflowEventTransitionsHaveParticipatingEndpointEvents"@,
        QuintInvariantName::WorkflowNavigationTransitionsResolveControlsAndViews => "workflowNavigationTransitionsResolveControlsAndViews"@,
        QuintInvariantName::WorkflowNavigationTransitionsResolveToEntryViews => "workflowNavigationTransitionsResolveToEntryViews"@,
        QuintInvariantName::WorkflowExternalTriggersDeclarePayloadContracts => "workflowExternalTriggersDeclarePayloadContracts"@,
        QuintInvariantName::WorkflowExternalTriggerPayloadContractsHaveProvenance => "workflowExternalTriggerPayloadContractsHaveProvenance"@,
        QuintInvariantName::WorkflowTransitionsHaveRequiredEvidence => "workflowTransitionsHaveRequiredEvidence"@,
        QuintInvariantName::WorkflowEntryLifecycleStatesCoverRequiredStates => "workflowEntryLifecycleStatesCoverRequiredStates"@,
        QuintInvariantName::SliceIdentityStable => "sliceIdentityStable"@,
        QuintInvariantName::SliceRepresentsOneCoherentModelUnit => "sliceRepresentsOneCoherentModelUnit"@,
        QuintInvariantName::SliceRepresentsSmallestUsefulBehaviorBoundary => "sliceRepresentsSmallestUsefulBehaviorBoundary"@,
        QuintInvariantName::SliceStateChangeRequiresEvent => "sliceStateChangeRequiresEvent"@,
        QuintInvariantName::SliceBitLevelDataFlowsStructured => "sliceBitLevelDataFlowsStructured"@,
        QuintInvariantName::ModeledDataFlowsAreBitComplete => "modeledDataFlowsAreBitComplete"@,
        QuintInvariantName::SliceScenariosHaveGwt => "sliceScenariosHaveGwt"@,
        QuintInvariantName::SliceScenarioNamesAreUnique => "sliceScenarioNamesAreUnique"@,
        QuintInvariantName::SliceNamedDefinitionsAreUniquelyOwned => "sliceNamedDefinitionsAreUniquelyOwned"@,
        QuintInvariantName::SliceScenarioStreamsResolve => "sliceScenarioStreamsResolve"@,
        QuintInvariantName::StateChangeScenariosNameStreams => "stateChangeScenariosNameStreams"@,
        QuintInvariantName::AcceptanceScenariosAreUserFacing => "acceptanceScenariosAreUserFacing"@,
        QuintInvariantName::StateViewReadModelsHaveProjectorContracts => "stateViewReadModelsHaveProjectorContracts"@,
        QuintInvariantName::ContractScenariosTargetKnownDefinitions => "contractScenariosTargetKnownDefinitions"@,
        QuintInvariantName::ContractScenariosCoverModeledContracts => "contractScenariosCoverModeledContracts"@,
        QuintInvariantName::CommandInputsHaveAllowedSources => "commandInputsHaveAllowedSources"@,
        QuintInvariantName::CommandInputsHaveProvenance => "commandInputsHaveProvenance"@,
        QuintInvariantName::CommandInputsWithoutIssuingControlsHaveProvenance => "commandInputsWithoutIssuingControlsHaveProvenance"@,
        QuintInvariantName::CommandSessionInputsHaveDescriptions => "commandSessionInputsHaveDescriptions"@,
        QuintInvariantName::CommandInputsTraceToInvocationSources => "commandInputsTraceToInvocationSources"@,
        QuintInvariantName::CommandInputsSourcedFromEventStreamsResolve => "commandInputsSourcedFromEventStreamsResolve"@,
        QuintInvariantName::CommandInputsSourcedFromExternalPayloadsResolve => "commandInputsSourcedFromExternalPayloadsResolve"@,
        QuintInvariantName::CommandInputsSourcedFromGeneratedValuesHaveCoordinates => "commandInputsSourcedFromGeneratedValuesHaveCoordinates"@,
        QuintInvariantName::CommandInputsSourcedFromSessionValuesHaveCoordinates => "commandInputsSourcedFromSessionValuesHaveCoordinates"@,
        QuintInvariantName::CommandErrorsAreDeclared => "commandErrorsAreDeclared"@,
        QuintInvariantName::CommandErrorsHaveAllowedRecovery => "commandErrorsHaveAllowedRecovery"@,
        QuintInvariantName::CommandErrorsHaveScenarioCoverage => "commandErrorsHaveScenarioCoverage"@,
        QuintInvariantName::ScenarioErrorReferencesAreDeclared => "scenarioErrorReferencesAreDeclared"@,
        QuintInvariantName::SingletonCommandsDeclareRepeatBehavior => "singletonCommandsDeclareRepeatBehavior"@,
        QuintInvariantName::AutomationSlicesDeclareTriggers => "automationSlicesDeclareTriggers"@,
        QuintInvariantName::AutomationSlicesRepresentOneReaction => "automationSlicesRepresentOneReaction"@,
        QuintInvariantName::AutomationsIssueKnownCommands => "automationsIssueKnownCommands"@,
        QuintInvariantName::AutomationsHandleCommandErrors => "automationsHandleCommandErrors"@,
        QuintInvariantName::TranslationSlicesDeclareExternalContracts => "translationSlicesDeclareExternalContracts"@,
        QuintInvariantName::ExternalBoundariesHavePayloadContractsAndFieldProvenance => "externalBoundariesHavePayloadContractsAndFieldProvenance"@,
        QuintInvariantName::TranslationsTargetKnownCommands => "translationsTargetKnownCommands"@,
        QuintInvariantName::TranslationsReferenceObservedExternalEvents => "translationsReferenceObservedExternalEvents"@,
        QuintInvariantName::BoardLanesAreCanonical => "boardLanesAreCanonical"@,
        QuintInvariantName::BoardElementsUseCanonicalLanes => "boardElementsUseCanonicalLanes"@,
        QuintInvariantName::BoardElementsReferenceDeclarations => "boardElementsReferenceDeclarations"@,
        QuintInvariantName::AutomationBoardElementsAreDeclaredAutomations => "automationBoardElementsAreDeclaredAutomations"@,
        QuintInvariantName::ExternalBoardElementsAreObservedEvents => "externalBoardElementsAreObservedEvents"@,
        QuintInvariantName::CommandEventBoardEdgesMatchEmissions => "commandEventBoardEdgesMatchEmissions"@,
        QuintInvariantName::EventReadModelBoardEdgesMatchProjectionSources => "eventReadModelBoardEdgesMatchProjectionSources"@,
        QuintInvariantName::ViewCommandBoardEdgesMatchControls => "viewCommandBoardEdgesMatchControls"@,
        QuintInvariantName::BoardConnectionsHaveCausalSemantics => "boardConnectionsHaveCausalSemantics"@,
        QuintInvariantName::ExternalEventTriggersMatchTranslations => "externalEventTriggersMatchTranslations"@,
        QuintInvariantName::ExternalEventsDoNotUpdateReadModels => "externalEventsDoNotUpdateReadModels"@,
        QuintInvariantName::ReadModelsFeedingViewsHaveIncomingEventUpdates => "readModelsFeedingViewsHaveIncomingEventUpdates"@,
        QuintInvariantName::CommandsHaveIncomingTriggers => "commandsHaveIncomingTriggers"@,
        QuintInvariantName::MainPathBoardHasNoDisconnectedIslands => "mainPathBoardHasNoDisconnectedIslands"@,
        QuintInvariantName::OutcomeLabelsAreUnique => "outcomeLabelsAreUnique"@,
        QuintInvariantName::OutcomeEventSetsAreNonEmpty => "outcomeEventSetsAreNonEmpty"@,
        QuintInvariantName::OutcomeEventSetsAreDistinct => "outcomeEventSetsAreDistinct"@,
        QuintInvariantName::OutcomeEventsAreKnownToSlice => "outcomeEventsAreKnownToSlice"@,
        QuintInvariantName::EventsReferenceKnownStreams => "eventsReferenceKnownStreams"@,
        QuintInvariantName::CommandEmittedEventsAreKnown => "commandEmittedEventsAreKnown"@,
        QuintInvariantName::LocallyEmittedEventsAreProducedByCommands => "locallyEmittedEventsAreProducedByCommands"@,
        QuintInvariantName::ExternalPayloadFieldsHaveProvenance => "externalPayloadFieldsHaveProvenance"@,
        QuintInvariantName::EventAttributesHaveAllowedSources => "eventAttributesHaveAllowedSources"@,
        QuintInvariantName::EventAttributesHaveProvenance => "eventAttributesHaveProvenance"@,
        QuintInvariantName::EventAttributeSourcesAreComplete => "eventAttributeSourcesAreComplete"@,
        QuintInvariantName::StoredEventFactsTraceToOriginalSources => "storedEventFactsTraceToOriginalSources"@,
        QuintInvariantName::ReadModelFieldsHaveAllowedSources => "readModelFieldsHaveAllowedSources"@,
        QuintInvariantName::ReadModelFieldsHaveProvenance => "readModelFieldsHaveProvenance"@,
        QuintInvariantName::ReadModelFieldSourcesAreComplete => "readModelFieldSourcesAreComplete"@,
        QuintInvariantName::ReadModelFieldEventAttributeSourcesResolve => "readModelFieldEventAttributeSourcesResolve"@,
        QuintInvariantName::DerivedReadModelFieldsHaveScenarioCoverage => "derivedReadModelFieldsHaveScenarioCoverage"@,
        QuintInvariantName::AbsenceReadModelFieldsHaveScenarioCoverage => "absenceReadModelFieldsHaveScenarioCoverage"@,
        QuintInvariantName::TransitiveReadModelsHaveSemantics => "transitiveReadModelsHaveSemantics"@,
        QuintInvariantName::ViewFieldsHaveAllowedSources => "viewFieldsHaveAllowedSources"@,
        QuintInvariantName::ViewFieldsHaveProvenance => "viewFieldsHaveProvenance"@,
        QuintInvariantName::ViewFieldSourcesAreComplete => "viewFieldSourcesAreComplete"@,
        QuintInvariantName::ViewFieldsSourceFromUsedReadModels => "viewFieldsSourceFromUsedReadModels"@,
        QuintInvariantName::ViewsHaveInformationSketches => "viewsHaveInformationSketches"@,
        QuintInvariantName::ViewFieldsAppearInSketch => "viewFieldsAppearInSketch"@,
        QuintInvariantName::ViewSketchTokensMapToModeledElements => "viewSketchTokensMapToModeledElements"@,
        QuintInvariantName::ViewFieldReadModelFieldSourcesResolve => "viewFieldReadModelFieldSourcesResolve"@,
        QuintInvariantName::DisplayedDataTraceToOriginalProvenance => "displayedDataTraceToOriginalProvenance"@,
        QuintInvariantName::ViewControlsHaveSketchTokens => "viewControlsHaveSketchTokens"@,
        QuintInvariantName::ViewControlsAppearInSketch => "viewControlsAppearInSketch"@,
        QuintInvariantName::ViewControlsReferenceKnownCommands => "viewControlsReferenceKnownCommands"@,
        QuintInvariantName::ViewControlsProvideCommandInputs => "viewControlsProvideCommandInputs"@,
        QuintInvariantName::ViewControlInputsHaveAllowedSources => "viewControlInputsHaveAllowedSources"@,
        QuintInvariantName::ViewControlInputsHaveProvenance => "viewControlInputsHaveProvenance"@,
        QuintInvariantName::ViewControlInputsHaveDescriptions => "viewControlInputsHaveDescriptions"@,
        QuintInvariantName::ViewControlSessionInputsHaveDescriptions => "viewControlSessionInputsHaveDescriptions"@,
        QuintInvariantName::ViewControlInputVisibilityIsModeled => "viewControlInputVisibilityIsModeled"@,
        QuintInvariantName::ViewControlDecisionFieldsAreVisible => "viewControlDecisionFieldsAreVisible"@,
        QuintInvariantName::ViewControlActorInputsAreVisible => "viewControlActorInputsAreVisible"@,
        QuintInvariantName::ViewControlsHandleCommandErrors => "viewControlsHandleCommandErrors"@,
        QuintInvariantName::ViewControlRecoveryBehaviorIsModeled => "viewControlRecoveryBehaviorIsModeled"@,
        QuintInvariantName::StateViewSlicesDoNotOwnCommands => "stateViewSlicesDoNotOwnCommands"@,
        QuintInvariantName::StateViewSlicesOwnViews => "stateViewSlicesOwnViews"@,
        QuintInvariantName::StateViewSlicesOwnReadModels => "stateViewSlicesOwnReadModels"@,
        QuintInvariantName::StateViewSlicesOwnProjectionPaths => "stateViewSlicesOwnProjectionPaths"@,
        QuintInvariantName::StateViewSlicesRepresentSingleViewProjectionBoundary => "stateViewSlicesRepresentSingleViewProjectionBoundary"@,
        QuintInvariantName::StateChangeSlicesOwnCommands => "stateChangeSlicesOwnCommands"@,
        QuintInvariantName::StateChangeSlicesOwnEvents => "stateChangeSlicesOwnEvents"@,
        QuintInvariantName::StateChangeSlicesOwnOutcomes => "stateChangeSlicesOwnOutcomes"@,
        QuintInvariantName::StateChangeSlicesOwnErrors => "stateChangeSlicesOwnErrors"@,
        QuintInvariantName::StateChangeSlicesDoNotOwnReadModelsOrViews => "stateChangeSlicesDoNotOwnReadModelsOrViews"@,
        QuintInvariantName::StateChangeSlicesDoNotOwnAutomationsOrTranslations => "stateChangeSlicesDoNotOwnAutomationsOrTranslations"@,
        QuintInvariantName::StateChangeSlicesDoNotOwnControlsOrSketches => "stateChangeSlicesDoNotOwnControlsOrSketches"@,
        QuintInvariantName::TranslationSlicesDoNotOwnViews => "translationSlicesDoNotOwnViews"@,
        QuintInvariantName::ViewControlNavigationTypesAreModeled => "viewControlNavigationTypesAreModeled"@,
        QuintInvariantName::ViewControlNavigationTypesAreDeclared => "viewControlNavigationTypesAreDeclared"@,
        QuintInvariantName::ViewControlModeledViewNavigationTargetsResolve => "viewControlModeledViewNavigationTargetsResolve"@,
        QuintInvariantName::ViewControlExternalWorkflowNavigationTargetsNamed => "viewControlExternalWorkflowNavigationTargetsNamed"@,
        QuintInvariantName::ViewControlExternalSystemNavigationTargetsHaveContracts => "viewControlExternalSystemNavigationTargetsHaveContracts"@,
        QuintInvariantName::ViewControlNavigationTargetsAreComplete => "viewControlNavigationTargetsAreComplete"@,
    }
}

/// The invariants checked on a project root model.
pub open spec fn project_root_invariants() -> Seq<QuintInvariantName> {
    seq![
        QuintInvariantName::ModelIdentityStable,
        QuintInvariantName::ModelVersionStable,
        QuintInvariantName::ModelDigestStable,
        QuintInvariantName::ModelWorkflowsAreDeclared,
        QuintInvariantName::ModelSlicesAreDeclared,
        QuintInvariantName::ModelSliceModulesAreDeclared,
        QuintInvariantName::ModelScenariosAreDeclared,
        QuintInvariantName::ModelScenarioDefinitionsAreDeclared,
        QuintInvariantName::ModelWorkflowCompositionStructureComplete,
        QuintInvariantName::ModelWorkflowBehaviorSurfaceIsComplete,
        QuintInvariantName::ModelScenarioDefinitionsHaveGwt,
        QuintInvariantName::ModelScenarioKindsAreFirstClass,
        QuintInvariantName::ModelDataFlowsAreDeclared,
        QuintInvariantName::ModelDataFlowsAreBitComplete,
        QuintInvariantName::ModelDataFlowSourceKindsAreModeled,
        QuintInvariantName::ModelDataFlowModeledSourcesResolve,
        QuintInvariantName::ModelDataFlowSourceChainsReachOriginals,
        QuintInvariantName::ModelDataFlowSourceChainsPreserveBitEncodingSemantics,
        QuintInvariantName::ModelDataFlowTransformationsAreModeled,
        QuintInvariantName::ModelMeaningfulDataFlowsAreCovered,
        QuintInvariantName::ModelDataFlowSourceBitEncodingsMatchModeledSources,
        QuintInvariantName::ModelViewFieldBitEncodingsMatchDataFlows,
        QuintInvariantName::ModelExternalPayloadFieldBitEncodingsMatchDataFlows,
        QuintInvariantName::ModelOutcomesAreDeclared,
        QuintInvariantName::ModelCommandErrorsAreDeclared,
        QuintInvariantName::ModelCommandsAreDeclared,
        QuintInvariantName::ModelCommandInputsAreDeclared,
        QuintInvariantName::ModelCommandInputsHaveProvenance,
        QuintInvariantName::ModelCommandInputsTraceToInvocationSources,
        QuintInvariantName::ModelReadModelsAreDeclared,
        QuintInvariantName::ModelReadModelDefinitionsAreDeclared,
        QuintInvariantName::ModelReadModelFieldsAreDeclared,
        QuintInvariantName::ModelReadModelFieldSourcesAreComplete,
        QuintInvariantName::ModelViewFieldSourcesAreComplete,
        QuintInvariantName::ModelViewFieldReadModelFieldSourcesResolve,
        QuintInvariantName::ModelDisplayedDataTraceToOriginalProvenance,
        QuintInvariantName::ModelExternalPayloadFieldsHaveProvenance,
        QuintInvariantName::ModelViewsAreDeclared,
        QuintInvariantName::ModelViewDefinitionsAreDeclared,
        QuintInvariantName::ModelViewControlsAreDeclared,
        QuintInvariantName::ModelBoardElementsAreDeclared,
        QuintInvariantName::ModelBoardConnectionsAreDeclared,
        QuintInvariantName::ModelViewFieldsAreDeclared,
        QuintInvariantName::ModelAutomationsAreDeclared,
        QuintInvariantName::ModelAutomationDefinitionsAreDeclared,
        QuintInvariantName::ModelTranslationsAreDeclared,
        QuintInvariantName::ModelTranslationDefinitionsAreDeclared,
        QuintInvariantName::ModelExternalPayloadsAreDeclared,
        QuintInvariantName::ModelExternalPayloadFieldsAreDeclared,
        QuintInvariantName::ModelStreamsAreDeclared,
        QuintInvariantName::ModelEventsAreDeclared,
        QuintInvariantName::ModelEventAttributesAreDeclared,
        QuintInvariantName::ModelViewControlsProvideCommandInputs,
    ]
}

fn project_root_invariant_list() -> (r: Vec<QuintInvariantName>)
    ensures
        r@ == project_root_invariants(),
{
    let r = vec![
        QuintInvariantName::ModelIdentityStable,
        QuintInvariantName::ModelVersionStable,
        QuintInvariantName::ModelDigestStable,
        QuintInvariantName::ModelWorkflowsAreDeclared,
        QuintInvariantName::ModelSlicesAreDeclared,
        QuintInvariantName::ModelSliceModulesAreDeclared,
        QuintInvariantName::ModelScenariosAreDeclared,
        QuintInvariantName::ModelScenarioDefinitionsAreDeclared,
        QuintInvariantName::ModelWorkflowCompositionStructureComplete,
        QuintInvariantName::ModelWorkflowBehaviorSurfaceIsComplete,
        QuintInvariantName::ModelScenarioDefinitionsHaveGwt,
        QuintInvariantName::ModelScenarioKindsAreFirstClass,
        QuintInvariantName::ModelDataFlowsAreDeclared,
        QuintInvariantName::ModelDataFlowsAreBitComplete,
        QuintInvariantName::ModelDataFlowSourceKindsAreModeled,
        QuintInvariantName::ModelDataFlowModeledSourcesResolve,
        QuintInvariantName::ModelDataFlowSourceChainsReachOriginals,
        QuintInvariantName::ModelDataFlowSourceChainsPreserveBitEncodingSemantics,
        QuintInvariantName::ModelDataFlowTransformationsAreModeled,
        QuintInvariantName::ModelMeaningfulDataFlowsAreCovered,
        QuintInvariantName::ModelDataFlowSourceBitEncodingsMatchModeledSources,
        QuintInvariantName::ModelViewFieldBitEncodingsMatchDataFlows,
        QuintInvariantName::ModelExternalPayloadFieldBitEncodingsMatchDataFlows,
        QuintInvariantName::ModelOutcomesAreDeclared,
        QuintInvariantName::ModelCommandErrorsAreDeclared,
        QuintInvariantName::ModelCommandsAreDeclared,
        QuintInvariantName::ModelCommandInputsAreDeclared,
        QuintInvariantName::ModelCommandInputsHaveProvenance,
        QuintInvariantName::ModelCommandInputsTraceToInvocationSources,
        QuintInvariantName::ModelReadModelsAreDeclared,
        QuintInvariantName::ModelReadModelDefinitionsAreDeclared,
        QuintInvariantName::ModelReadModelFieldsAreDeclared,
        QuintInvariantName::ModelReadModelFieldSourcesAreComplete,
        QuintInvariantName::ModelViewFieldSourcesAreComplete,
        QuintInvariantName::ModelViewFieldReadModelFieldSourcesResolve,
        QuintInvariantName::ModelDisplayedDataTraceToOriginalProvenance,
        QuintInvariantName::ModelExternalPayloadFieldsHaveProvenance,
        QuintInvariantName::ModelViewsAreDeclared,
        QuintInvariantName::ModelViewDefinitionsAreDeclared,
        QuintInvariantName::ModelViewControlsAreDeclared,
        QuintInvariantName::ModelBoardElementsAreDeclared,
        QuintInvariantName::ModelBoardConnectionsAreDeclared,
        QuintInvariantName::ModelViewFieldsAreDeclared,
        QuintInvariantName::ModelAutomationsAreDeclared,
        QuintInvariantName::ModelAutomationDefinitionsAreDeclared,
        QuintInvariantName::ModelTranslationsAreDeclared,
        QuintInvariantName::ModelTranslationDefinitionsAreDeclared,
        QuintInvariantName::ModelExternalPayloadsAreDeclared,
        QuintInvariantName::ModelExternalPayloadFieldsAreDeclared,
        QuintInvariantName::ModelStreamsAreDeclared,
        QuintInvariantName::ModelEventsAreDeclared,
        QuintInvariantName::ModelEventAttributesAreDeclared,
        QuintInvariantName::ModelViewControlsProvideCommandInputs,
    ];
    assert(r@ =~= project_root_invariants());
    r
}

/// The invariants checked on a workflow model.
pub open spec fn workflow_invariants() -> Seq<QuintInvariantName> {
    seq![
        QuintInvariantName::WorkflowIdentityStable,
        QuintInvariantName::WorkflowSliceDetailsComplete,
        QuintInvariantName::WorkflowSliceModulesComplete,
        QuintInvariantName::WorkflowTransitionsStructured,
        QuintInvariantName::WorkflowTransitionSourcesResolve,
        QuintInvariantName::WorkflowTransitionTargetsResolve,
        QuintInvariantName::WorkflowStepRelationshipsAreAllowed,
        QuintInvariantName::WorkflowStepSlugsAreUnique,
        QuintInvariantName::WorkflowHasExactlyOneEntryStep,
        QuintInvariantName::WorkflowMainStepsHaveIncomingReachability,
        QuintInvariantName::WorkflowNonSupportingStepsReachableFromEntry,
        QuintInvariantName::WorkflowBranchAndAlternateStepsHaveTriggerOrRationale,
        QuintInvariantName::WorkflowTransitionsHaveModeledKinds,
        QuintInvariantName::WorkflowExitsNameTargetsAndRationale,
        QuintInvariantName::WorkflowExternallyRelevantOutcomesHandled,
        QuintInvariantName::WorkflowOutcomesSourceResolve,
        QuintInvariantName::WorkflowCommandErrorsSourceResolve,
        QuintInvariantName::WorkflowTransitionsDoNotUseCommandErrorsAsOutcomes,
        QuintInvariantName::WorkflowNonEventDefinitionsAreUniquelyOwned,
        QuintInvariantName::WorkflowSharedEventDefinitionsHaveIdenticalIdentity,
        QuintInvariantName::WorkflowOnlyEventsMayBeSharedAcrossSlices,
        QuintInvariantName::WorkflowCommandTransitionsTargetOwnedCommands,
        QuintInvariantName::WorkflowCommandTransitionsSourceOwnedControls,
        QuintInvariantName::WorkflowCommandTransitionsResolveControlsAndCommands,
        QuintInvariantName::WorkflowStateViewCommandTransitionsTargetStateChanges,
        QuintInvariantName::WorkflowEventTransitionsAreSharedByEndpointSlices,
        QuintInvariantName::WorkflowEventTransitionsHaveParticipatingEndpointEvents,
        QuintInvariantName::WorkflowNavigationTransitionsResolveControlsAndViews,
        QuintInvariantName::WorkflowNavigationTransitionsResolveToEntryViews,
        QuintInvariantName::WorkflowExternalTriggersDeclarePayloadContracts,
        QuintInvariantName::WorkflowExternalTriggerPayloadContractsHaveProvenance,
        QuintInvariantName::WorkflowTransitionsHaveRequiredEvidence,
        QuintInvariantName::WorkflowEntryLifecycleStatesCoverRequiredStates,
    ]
}

fn workflow_invariant_list() -> (r: Vec<QuintInvariantName>)
    ensures
        r@ == workflow_invariants(),
{
    let r = vec![
        QuintInvariantName::WorkflowIdentityStable,
        QuintInvariantName::WorkflowSliceDetailsComplete,
        QuintInvariantName::WorkflowSliceModulesComplete,
        QuintInvariantName::WorkflowTransitionsStructured,
        QuintInvariantName::WorkflowTransitionSourcesResolve,
        QuintInvariantName::WorkflowTransitionTargetsResolve,
        QuintInvariantName::WorkflowStepRelationshipsAreAllowed,
        QuintInvariantName::WorkflowStepSlugsAreUnique,
        QuintInvariantName::WorkflowHasExactlyOneEntryStep,
        QuintInvariantName::WorkflowMainStepsHaveIncomingReachability,
        QuintInvariantName::WorkflowNonSupportingStepsReachableFromEntry,
        QuintInvariantName::WorkflowBranchAndAlternateStepsHaveTriggerOrRationale,
        QuintInvariantName::WorkflowTransitionsHaveModeledKinds,
        QuintInvariantName::WorkflowExitsNameTargetsAndRationale,
        QuintInvariantName::WorkflowExternallyRelevantOutcomesHandled,
        QuintInvariantName::WorkflowOutcomesSourceResolve,
        QuintInvariantName::WorkflowCommandErrorsSourceResolve,
        QuintInvariantName::WorkflowTransitionsDoNotUseCommandErrorsAsOutcomes,
        QuintInvariantName::WorkflowNonEventDefinitionsAreUniquelyOwned,
        QuintInvariantName::WorkflowSharedEventDefinitionsHaveIdenticalIdentity,
        QuintInvariantName::WorkflowOnlyEventsMayBeSharedAcrossSlices,
        QuintInvariantName::WorkflowCommandTransitionsTargetOwnedCommands,
        QuintInvariantName::WorkflowCommandTransitionsSourceOwnedControls,
        QuintInvariantName::WorkflowCommandTransitionsResolveControlsAndCommands,
        QuintInvariantName::WorkflowStateViewCommandTransitionsTargetStateChanges,
        QuintInvariantName::WorkflowEventTransitionsAreSharedByEndpointSlices,
        QuintInvariantName::WorkflowEventTransitionsHaveParticipatingEndpointEvents,
        QuintInvariantName::WorkflowNavigationTransitionsResolveControlsAndViews,
        QuintInvariantName::WorkflowNavigationTransitionsResolveToEntryViews,
        QuintInvariantName::WorkflowExternalTriggersDeclarePayloadContracts,
        QuintInvariantName::WorkflowExternalTriggerPayloadContractsHaveProvenance,
        QuintInvariantName::WorkflowTransitionsHaveRequiredEvidence,
        QuintInvariantName::WorkflowEntryLifecycleStatesCoverRequiredStates,
    ];
    assert(r@ =~= workflow_invariants());
    r
}

/// The invariants checked on a slice model.
pub open spec fn slice_invariants() -> Seq<QuintInvariantName> {
    seq![
        QuintInvariantName::SliceIdentityStable,
        QuintInvariantName::SliceRepresentsOneCoherentModelUnit,
        QuintInvariantName::SliceRepresentsSmallestUsefulBehaviorBoundary,
        QuintInvariantName::SliceStateChangeRequiresEvent,
        QuintInvariantName::SliceBitLevelDataFlowsStructured,
        QuintInvariantName::ModeledDataFlowsAreBitComplete,
        QuintInvariantName::SliceScenariosHaveGwt,
        QuintInvariantName::SliceScenarioNamesAreUnique,
        QuintInvariantName::SliceNamedDefinitionsAreUniquelyOwned,
        QuintInvariantName::SliceScenarioStreamsResolve,
        QuintInvariantName::StateChangeScenariosNameStreams,
        QuintInvariantName::AcceptanceScenariosAreUserFacing,
        QuintInvariantName::StateViewReadModelsHaveProjectorContracts,
        QuintInvariantName::ContractScenariosTargetKnownDefinitions,
        QuintInvariantName::ContractScenariosCoverModeledContracts,
        QuintInvariantName::CommandInputsHaveAllowedSources,
        QuintInvariantName::CommandInputsHaveProvenance,
        QuintInvariantName::CommandInputsWithoutIssuingControlsHaveProvenance,
        QuintInvariantName::CommandSessionInputsHaveDescriptions,
        QuintInvariantName::CommandInputsTraceToInvocationSources,
        QuintInvariantName::CommandInputsSourcedFromEventStreamsResolve,
        QuintInvariantName::CommandInputsSourcedFromExternalPayloadsResolve,
        QuintInvariantName::CommandInputsSourcedFromGeneratedValuesHaveCoordinates,
        QuintInvariantName::CommandInputsSourcedFromSessionValuesHaveCoordinates,
        QuintInvariantName::CommandErrorsAreDeclared,
        QuintInvariantName::CommandErrorsHaveAllowedRecovery,
        QuintInvariantName::CommandErrorsHaveScenarioCoverage,
        QuintInvariantName::ScenarioErrorReferencesAreDeclared,
        QuintInvariantName::SingletonCommandsDeclareRepeatBehavior,
        QuintInvariantName::AutomationSlicesDeclareTriggers,
        QuintInvariantName::AutomationSlicesRepresentOneReaction,
        QuintInvariantName::AutomationsIssueKnownCommands,
        QuintInvariantName::AutomationsHandleCommandErrors,
        QuintInvariantName::TranslationSlicesDeclareExternalContracts,
        QuintInvariantName::ExternalBoundariesHavePayloadContractsAndFieldProvenance,
        QuintInvariantName::TranslationsTargetKnownCommands,
        QuintInvariantName::TranslationsReferenceObservedExternalEvents,
        QuintInvariantName::BoardLanesAreCanonical,
        QuintInvariantName::BoardElementsUseCanonicalLanes,
        QuintInvariantName::BoardElementsReferenceDeclarations,
        QuintInvariantName::AutomationBoardElementsAreDeclaredAutomations,
        QuintInvariantName::ExternalBoardElementsAreObservedEvents,
        QuintInvariantName::CommandEventBoardEdgesMatchEmissions,
        QuintInvariantName::EventReadModelBoardEdgesMatchProjectionSources,
        QuintInvariantName::ViewCommandBoardEdgesMatchControls,
        QuintInvariantName::BoardConnectionsHaveCausalSemantics,
        QuintInvariantName::ExternalEventTriggersMatchTranslations,
        QuintInvariantName::ExternalEventsDoNotUpdateReadModels,
        QuintInvariantName::ReadModelsFeedingViewsHaveIncomingEventUpdates,
        QuintInvariantName::CommandsHaveIncomingTriggers,
        QuintInvariantName::MainPathBoardHasNoDisconnectedIslands,
        QuintInvariantName::OutcomeLabelsAreUnique,
        QuintInvariantName::OutcomeEventSetsAreNonEmpty,
        QuintInvariantName::OutcomeEventSetsAreDistinct,
        QuintInvariantName::OutcomeEventsAreKnownToSlice,
        QuintInvariantName::EventsReferenceKnownStreams,
        QuintInvariantName::CommandEmittedEventsAreKnown,
        QuintInvariantName::LocallyEmittedEventsAreProducedByCommands,
        QuintInvariantName::ExternalPayloadFieldsHaveProvenance,
        QuintInvariantName::EventAttributesHaveAllowedSources,
        QuintInvariantName::EventAttributesHaveProvenance,
        QuintInvariantName::EventAttributeSourcesAreComplete,
        QuintInvariantName::StoredEventFactsTraceToOriginalSources,
        QuintInvariantName::ReadModelFieldsHaveAllowedSources,
        QuintInvariantName::ReadModelFieldsHaveProvenance,
        QuintInvariantName::ReadModelFieldSourcesAreComplete,
        QuintInvariantName::ReadModelFieldEventAttributeSourcesResolve,
        QuintInvariantName::DerivedReadModelFieldsHaveScenarioCoverage,
        QuintInvariantName::AbsenceReadModelFieldsHaveScenarioCoverage,
        QuintInvariantName::TransitiveReadModelsHaveSemantics,
        QuintInvariantName::ViewFieldsHaveAllowedSources,
        QuintInvariantName::ViewFieldsHaveProvenance,
        QuintInvariantName::ViewFieldSourcesAreComplete,
        QuintInvariantName::ViewFieldsSourceFromUsedReadModels,
        QuintInvariantName::ViewsHaveInformationSketches,
        QuintInvariantName::ViewFieldsAppearInSketch,
        QuintInvariantName::ViewSketchTokensMapToModeledElements,
        QuintInvariantName::ViewFieldReadModelFieldSourcesResolve,
        QuintInvariantName::DisplayedDataTraceToOriginalProvenance,
        QuintInvariantName::ViewControlsHaveSketchTokens,
        QuintInvariantName::ViewControlsAppearInSketch,
        QuintInvariantName::ViewControlsReferenceKnownCommands,
        QuintInvariantName::ViewControlsProvideCommandInputs,
        QuintInvariantName::ViewControlInputsHaveAllowedSources,
        QuintInvariantName::ViewControlInputsHaveProvenance,
        QuintInvariantName::ViewControlInputsHaveDescriptions,
        QuintInvariantName::ViewControlSessionInputsHaveDescriptions,
        QuintInvariantName::ViewControlInputVisibilityIsModeled,
        QuintInvariantName::ViewControlDecisionFieldsAreVisible,
        QuintInvariantName::ViewControlActorInputsAreVisible,
        QuintInvariantName::ViewControlsHandleCommandErrors,
        QuintInvariantName::ViewControlRecoveryBehaviorIsModeled,
        QuintInvariantName::StateViewSlicesDoNotOwnCommands,
        QuintInvariantName::StateViewSlicesOwnViews,
        QuintInvariantName::StateViewSlicesOwnReadModels,
        QuintInvariantName::StateViewSlicesOwnProjectionPaths,
        QuintInvariantName::StateViewSlicesRepresentSingleViewProjectionBoundary,
        QuintInvariantName::StateChangeSlicesOwnCommands,
        QuintInvariantName::StateChangeSlicesOwnEvents,
        QuintInvariantName::StateChangeSlicesOwnOutcomes,
        QuintInvariantName::StateChangeSlicesOwnErrors,
        QuintInvariantName::StateChangeSlicesDoNotOwnReadModelsOrViews,
        QuintInvariantName::StateChangeSlicesDoNotOwnAutomationsOrTranslations,
        QuintInvariantName::StateChangeSlicesDoNotOwnControlsOrSketches,
        QuintInvariantName::TranslationSlicesDoNotOwnViews,
        QuintInvariantName::ViewControlNavigationTypesAreModeled,
        QuintInvariantName::ViewControlNavigationTypesAreDeclared,
        QuintInvariantName::ViewControlModeledViewNavigationTargetsResolve,
        QuintInvariantName::ViewControlExternalWorkflowNavigationTargetsNamed,
        QuintInvariantName::ViewControlExternalSystemNavigationTargetsHaveContracts,
        QuintInvariantName::ViewControlNavigationTargetsAreComplete,
    ]
}

fn slice_invariant_list() -> (r: Vec<QuintInvariantName>)
    ensures
        r@ == slice_invariants(),
{
    let r = vec![
        QuintInvariantName::SliceIdentityStable,
        QuintInvariantName::SliceRepresentsOneCoherentModelUnit,
        QuintInvariantName::SliceRepresentsSmallestUsefulBehaviorBoundary,
        QuintInvariantName::SliceStateChangeRequiresEvent,
        QuintInvariantName::SliceBitLevelDataFlowsStructured,
        QuintInvariantName::ModeledDataFlowsAreBitComplete,
        QuintInvariantName::SliceScenariosHaveGwt,
        QuintInvariantName::SliceScenarioNamesAreUnique,
        QuintInvariantName::SliceNamedDefinitionsAreUniquelyOwned,
        QuintInvariantName::SliceScenarioStreamsResolve,
        QuintInvariantName::StateChangeScenariosNameStreams,
        QuintInvariantName::AcceptanceScenariosAreUserFacing,
        QuintInvariantName::StateViewReadModelsHaveProjectorContracts,
        QuintInvariantName::ContractScenariosTargetKnownDefinitions,
        QuintInvariantName::ContractScenariosCoverModeledContracts,
        QuintInvariantName::CommandInputsHaveAllowedSources,
        QuintInvariantName::CommandInputsHaveProvenance,
        QuintInvariantName::CommandInputsWithoutIssuingControlsHaveProvenance,
        QuintInvariantName::CommandSessionInputsHaveDescriptions,
        QuintInvariantName::CommandInputsTraceToInvocationSources,
        QuintInvariantName::CommandInputsSourcedFromEventStreamsResolve,
        QuintInvariantName::CommandInputsSourcedFromExternalPayloadsResolve,
        QuintInvariantName::CommandInputsSourcedFromGeneratedValuesHaveCoordinates,
        QuintInvariantName::CommandInputsSourcedFromSessionValuesHaveCoordinates,
        QuintInvariantName::CommandErrorsAreDeclared,
        QuintInvariantName::CommandErrorsHaveAllowedRecovery,
        QuintInvariantName::CommandErrorsHaveScenarioCoverage,
        QuintInvariantName::ScenarioErrorReferencesAreDeclared,
        QuintInvariantName::SingletonCommandsDeclareRepeatBehavior,
        QuintInvariantName::AutomationSlicesDeclareTriggers,
        QuintInvariantName::AutomationSlicesRepresentOneReaction,
        QuintInvariantName::AutomationsIssueKnownCommands,
        QuintInvariantName::AutomationsHandleCommandErrors,
        QuintInvariantName::TranslationSlicesDeclareExternalContracts,
        QuintInvariantName::ExternalBoundariesHavePayloadContractsAndFieldProvenance,
        QuintInvariantName::TranslationsTargetKnownCommands,
        QuintInvariantName::TranslationsReferenceObservedExternalEvents,
        QuintInvariantName::BoardLanesAreCanonical,
        QuintInvariantName::BoardElementsUseCanonicalLanes,
        QuintInvariantName::BoardElementsReferenceDeclarations,
        QuintInvariantName::AutomationBoardElementsAreDeclaredAutomations,
        QuintInvariantName::ExternalBoardElementsAreObservedEvents,
        QuintInvariantName::CommandEventBoardEdgesMatchEmissions,
        QuintInvariantName::EventReadModelBoardEdgesMatchProjectionSources,
        QuintInvariantName::ViewCommandBoardEdgesMatchControls,
        QuintInvariantName::BoardConnectionsHaveCausalSemantics,
        QuintInvariantName::ExternalEventTriggersMatchTranslations,
        QuintInvariantName::ExternalEventsDoNotUpdateReadModels,
        QuintInvariantName::ReadModelsFeedingViewsHaveIncomingEventUpdates,
        QuintInvariantName::CommandsHaveIncomingTriggers,
        QuintInvariantName::MainPathBoardHasNoDisconnectedIslands,
        QuintInvariantName::OutcomeLabelsAreUnique,
        QuintInvariantName::OutcomeEventSetsAreNonEmpty,
        QuintInvariantName::OutcomeEventSetsAreDistinct,
        QuintInvariantName::OutcomeEventsAreKnownToSlice,
        QuintInvariantName::EventsReferenceKnownStreams,
        QuintInvariantName::CommandEmittedEventsAreKnown,
        QuintInvariantName::LocallyEmittedEventsAreProducedByCommands,
        QuintInvariantName::ExternalPayloadFieldsHaveProvenance,
        QuintInvariantName::EventAttributesHaveAllowedSources,
        QuintInvariantName::EventAttributesHaveProvenance,
        QuintInvariantName::EventAttributeSourcesAreComplete,
        QuintInvariantName::StoredEventFactsTraceToOriginalSources,
        QuintInvariantName::ReadModelFieldsHaveAllowedSources,
        QuintInvariantName::ReadModelFieldsHaveProvenance,
        QuintInvariantName::ReadModelFieldSourcesAreComplete,
        QuintInvariantName::ReadModelFieldEventAttributeSourcesResolve,
        QuintInvariantName::DerivedReadModelFieldsHaveScenarioCoverage,
        QuintInvariantName::AbsenceReadModelFieldsHaveScenarioCoverage,
        QuintInvariantName::TransitiveReadModelsHaveSemantics,
        QuintInvariantName::ViewFieldsHaveAllowedSources,
        QuintInvariantName::ViewFieldsHaveProvenance,
        QuintInvariantName::ViewFieldSourcesAreComplete,
        QuintInvariantName::ViewFieldsSourceFromUsedReadModels,
        QuintInvariantName::ViewsHaveInformationSketches,
        QuintInvariantName::ViewFieldsAppearInSketch,
        QuintInvariantName::ViewSketchTokensMapToModeledElements,
        QuintInvariantName::ViewFieldReadModelFieldSourcesResolve,
        QuintInvariantName::DisplayedDataTraceToOriginalProvenance,
        QuintInvariantName::ViewControlsHaveSketchTokens,
        QuintInvariantName::ViewControlsAppearInSketch,
        QuintInvariantName::ViewControlsReferenceKnownCommands,
        QuintInvariantName::ViewControlsProvideCommandInputs,
        QuintInvariantName::ViewControlInputsHaveAllowedSources,
        QuintInvariantName::ViewControlInputsHaveProvenance,
        QuintInvariantName::ViewControlInputsHaveDescriptions,
        QuintInvariantName::ViewControlSessionInputsHaveDescriptions,
        QuintInvariantName::ViewControlInputVisibilityIsModeled,
        QuintInvariantName::ViewControlDecisionFieldsAreVisible,
        QuintInvariantName::ViewControlActorInputsAreVisible,
        QuintInvariantName::ViewControlsHandleCommandErrors,
        QuintInvariantName::ViewControlRecoveryBehaviorIsModeled,
        QuintInvariantName::StateViewSlicesDoNotOwnCommands,
        QuintInvariantName::StateViewSlicesOwnViews,
        QuintInvariantName::StateViewSlicesOwnReadModels,
        QuintInvariantName::StateViewSlicesOwnProjectionPaths,
        QuintInvariantName::StateViewSlicesRepresentSingleViewProjectionBoundary,
        QuintInvariantName::StateChangeSlicesOwnCommands,
        QuintInvariantName::StateChangeSlicesOwnEvents,
        QuintInvariantName::StateChangeSlicesOwnOutcomes,
        QuintInvariantName::StateChangeSlicesOwnErrors,
        QuintInvariantName::StateChangeSlicesDoNotOwnReadModelsOrViews,
        QuintInvariantName::StateChangeSlicesDoNotOwnAutomationsOrTranslations,
        QuintInvariantName::StateChangeSlicesDoNotOwnControlsOrSketches,
        QuintInvariantName::TranslationSlicesDoNotOwnViews,
        QuintInvariantName::ViewControlNavigationTypesAreModeled,
        QuintInvariantName::ViewControlNavigationTypesAreDeclared,
        QuintInvariantName::ViewControlModeledViewNavigationTargetsResolve,
        QuintInvariantName::ViewControlExternalWorkflowNavigationTargetsNamed,
        QuintInvariantName::ViewControlExternalSystemNavigationTargetsHaveContracts,
        QuintInvariantName::ViewControlNavigationTargetsAreComplete,
    ];
    assert(r@ =~= slice_invariants());
    r
}

/// A set of invariants that one Quint run checks.
#[derive(Debug)]
pub struct QuintInvariantSet {
    invariants: Vec<QuintInvariantName>,
}

impl View for QuintInvariantSet {
    type V = Seq<QuintInvariantName>;

    closed spec fn view(&self) -> Seq<QuintInvariantName> {
        self.invariants@
    }
}

/// The names of the invariants, separated by commas.
pub open spec fn joined(s: Seq<QuintInvariantName>) -> Seq<char>
    decreases s.len(),
{
    if s.len() == 0 {
        Seq::empty()
    } else if s.len() == 1 {
        invariant_text(s[0])
    } else {
        joined(s.drop_last()) + ","@ + invariant_text(s.last())
    }
}

impl QuintInvariantSet {
    /// The invariants of a project root model.
    pub fn project_root() -> (r: Self)
        ensures
            r@ == project_root_invariants(),
    {
        QuintInvariantSet { invariants: project_root_invariant_list() }
    }

    /// The invariants of a workflow model.
    pub fn workflow() -> (r: Self)
        ensures
            r@ == workflow_invariants(),
    {
        QuintInvariantSet { invariants: workflow_invariant_list() }
    }

    /// The invariants of a slice model.
    pub fn slice() -> (r: Self)
        ensures
            r@ == slice_invariants(),
    {
        QuintInvariantSet { invariants: slice_invariant_list() }
    }

    /// Whether the set checks `name`.
    pub fn contains(&self, name: QuintInvariantName) -> (r: bool)
        ensures
            r == self@.contains(name),
    {
        let v = &self.invariants;
        let mut i: usize = 0;
        while i < v.len()
            invariant
                i <= v@.len(),
                v@ == self@,
                forall|j: int| 0 <= j < i ==> v@[j] != name,
            decreases v.len() - i,
        {
            if v[i] == name {
                return true;
            }
            i = i + 1;
        }
        false
    }

    /// The set as the argument of Quint's `--invariant` option.
    pub fn as_process_argument(&self) -> (r: String)
        ensures
            r@ == joined(self@),
    {
        let v = &self.invariants;
        let mut out = String::new();
        let mut i: usize = 0;
        assert(v@.take(0) =~= Seq::<QuintInvariantName>::empty());
        while i < v.len()
            invariant
                i <= v@.len(),
                v@ == self@,
                out@ == joined(v@.take(i as int)),
            decreases v.len() - i,
        {
            proof {
                assert(v@.take(i + 1).drop_last() =~= v@.take(i as int));
            }
            if i > 0 {
                out.append(",");
            }
            out.append(v[i].as_str());
            proof {
                if i == 0 {
                    assert(out@ =~= invariant_text(v@[0]));
                }
            }
            i = i + 1;
        }
        assert(v@.take(v@.len() as int) =~= v@);
        out
    }
}

// ---- module names ----

/// The module name of `raw` after reading it left to right: each run of
/// ASCII letters and digits with its first character upper-cased and the
/// rest lower-cased, and whether the next such character starts a run.
pub open spec fn module_fold(raw: Seq<char>) -> (Seq<char>, bool)
    decreases raw.len(),
{
    if raw.len() == 0 {
        (Seq::empty(), true)
    } else {
        let prior = module_fold(raw.drop_last());
        let c = raw.last();
        if is_ascii_alnum(c) {
            (
                prior.0.push(
                    if prior.1 {
                        ascii_upper(c)
                    } else {
                        ascii_lower(c)
                    },
                ),
                false,
            )
        } else {
            (prior.0, true)
        }
    }
}

/// The module name generated for `raw`: its runs of ASCII letters and
/// digits, each capitalized, joined together.
pub open spec fn module_name_of(raw: Seq<char>) -> Seq<char> {
    module_fold(raw).0
}

pub fn module_name_from_raw(raw: &str) -> (r: String)
    ensures
        r@ == module_name_of(raw@),
{
    let v = chars_of(raw);
    let mut out: Vec<char> = Vec::new();
    let mut start = true;
    let mut i: usize = 0;
    assert(v@.take(0) =~= Seq::<char>::empty());
    while i < v.len()
        invariant
            i <= v@.len(),
            v@ == raw@,
            (out@, start) == module_fold(v@.take(i as int)),
        decreases v.len() - i,
    {
        proof {
            assert(v@.take(i + 1).drop_last() =~= v@.take(i as int));
        }
        let c = v[i];
        if ascii_alnum(c) {
            if start {
                out.push(to_ascii_upper(c));
            } else {
                out.push(to_ascii_lower(c));
            }
            start = false;
        } else {
            start = true;
        }
        i = i + 1;
    }
    assert(v@.take(v@.len() as int) =~= v@);
    string_from_chars(&out)
}

// ---- sorted sets of module names ----

/// `s` with `x` added in order, when `s` is sorted.
pub open spec fn sorted_insert(s: Seq<Seq<char>>, x: Seq<char>) -> Seq<Seq<char>>
    decreases s.len(),
{
    if s.len() == 0 {
        seq![x]
    } else if s[0] == x {
        s
    } else if seq_lt(x, s[0]) {
        seq![x] + s
    } else {
        seq![s[0]] + sorted_insert(s.drop_first(), x)
    }
}

/// The distinct names of `s` in order.
pub open spec fn sorted_names(s: Seq<Seq<char>>) -> Seq<Seq<char>>
    decreases s.len(),
{
    if s.len() == 0 {
        Seq::empty()
    } else {
        sorted_insert(sorted_names(s.drop_last()), s.last())
    }
}

proof fn lemma_sorted_insert_at(s: Seq<Seq<char>>, x: Seq<char>, j: int)
    requires
        strictly_sorted(s),
        0 <= j <= s.len(),
        forall|k: int| 0 <= k < j ==> seq_lt(#[trigger] s[k], x),
        j < s.len() ==> !seq_lt(s[j], x),
    ensures
        j < s.len() && s[j] == x ==> sorted_insert(s, x) == s,
        !(j < s.len() && s[j] == x) ==> sorted_insert(s, x) == s.insert(j, x),
        strictly_sorted(sorted_insert(s, x)),
    decreases j,
{
    if j == 0 {
        if s.len() == 0 {
            assert(s.insert(0, x) =~= seq![x]);
        } else if s[0] == x {
        } else {
            lemma_seq_lt_trichotomy(x, s[0]);
            assert(s.insert(0, x) =~= seq![x] + s);
            let r = seq![x] + s;
            assert forall|a: int, b: int| 0 <= a < b < r.len() implies seq_lt(#[trigger] r[a], #[trigger] r[b]) by {
                if a == 0 && b > 1 {
                    lemma_seq_lt_transitive(x, s[0], s[b - 1]);
                }
            }
        }
    } else {
        let t = s.drop_first();
        assert(seq_lt(s[0], x));
        if s[0] == x {
            lemma_seq_lt_irreflexive(x);
        }
        lemma_seq_lt_trichotomy(s[0], x);
        assert forall|a: int, b: int| 0 <= a < b < t.len() implies seq_lt(#[trigger] t[a], #[trigger] t[b]) by {
            assert(seq_lt(s[a + 1], s[b + 1]));
        }
        assert forall|k: int| 0 <= k < j - 1 implies seq_lt(#[trigger] t[k], x) by {
            assert(seq_lt(s[k + 1], x));
        }
        lemma_sorted_insert_at(t, x, j - 1);
        let rt = sorted_insert(t, x);
        if j < s.len() && s[j] == x {
            assert(seq![s[0]] + t =~= s);
        } else {
            assert(seq![s[0]] + t.insert(j - 1, x) =~= s.insert(j, x));
        }
        let r = seq![s[0]] + rt;
        assert forall|a: int, b: int| 0 <= a < b < r.len() implies seq_lt(#[trigger] r[a], #[trigger] r[b]) by {
            if a == 0 {
                if j < s.len() && s[j] == x {
                    assert(r[b] == s[b]);
                } else {
                    let si = s.insert(j, x);
                    assert(r[b] == si[b]);
                    if b == j {
                    } else if b < j {
                        assert(si[b] == s[b]);
                    } else {
                        assert(si[b] == s[b - 1]);
                        if b - 1 > 0 {
                        }
                    }
                }
            }
        }
    }
}

/// Adds `x` to the sorted vector `v` of distinct names.
pub(crate) fn insert_sorted(v: &mut Vec<String>, x: String)
    requires
        strictly_sorted(text_views(old(v)@)),
    ensures
        text_views(final(v)@) == sorted_insert(text_views(old(v)@), x@),
        strictly_sorted(text_views(final(v)@)),
{
    let ghost s = text_views(v@);
    let xc = chars_of(x.as_str());
    let mut j: usize = 0;
    while j < v.len()
        invariant
            j <= v@.len(),
            s == text_views(v@),
            xc@ == x@,
            forall|k: int| 0 <= k < j ==> seq_lt(#[trigger] s[k], x@),
        ensures
            j <= v@.len(),
            forall|k: int| 0 <= k < j ==> seq_lt(#[trigger] s[k], x@),
            j < v@.len() ==> !seq_lt(s[j as int], x@),
        decreases v.len() - j,
    {
        let yc = chars_of(v[j].as_str());
        if !chars_lt(&yc, &xc) {
            break;
        }
        j = j + 1;
    }
    proof {
        lemma_sorted_insert_at(s, x@, j as int);
    }
    if j < v.len() && chars_eq_text(&v[j], &xc) {
        return;
    }
    let ghost xv = x@;
    v.insert(j, x);
    assert(text_views(v@) =~= s.insert(j as int, xv));
}

fn chars_eq_text(a: &String, b: &Vec<char>) -> (r: bool)
    ensures
        r == (a@ == b@),
{
    let ac = chars_of(a.as_str());
    crate::text::chars_eq(&ac, b)
}

/// Compares two character sequences in the order of `String`.
fn chars_lt(x: &Vec<char>, y: &Vec<char>) -> (r: bool)
    ensures
        r == seq_lt(x@, y@),
{
    let mut k: usize = 0;
    assert(x@.skip(0) =~= x@);
    assert(y@.skip(0) =~= y@);
    while k < x.len() && k < y.len() && x[k] == y[k]
        invariant
            k <= x@.len(),
            k <= y@.len(),
            seq_lt(x@, y@) == seq_lt(x@.skip(k as int), y@.skip(k as int)),
        decreases x.len() - k,
    {
        assert(x@.skip(k as int).drop_first() =~= x@.skip(k + 1));
        assert(y@.skip(k as int).drop_first() =~= y@.skip(k + 1));
        k = k + 1;
    }
    if k == x.len() {
        k < y.len()
    } else if k == y.len() {
        false
    } else {
        x[k] < y[k]
    }
}

/// The module names of `names`, distinct and in order.
pub fn sorted_module_names(names: &[String]) -> (r: Vec<String>)
    ensures
        text_views(r@) == sorted_names(text_views(names@).map_values(|n: Seq<char>| module_name_of(n))),
{
    let ghost mods = text_views(names@).map_values(|n: Seq<char>| module_name_of(n));
    let mut out: Vec<String> = Vec::new();
    let mut i: usize = 0;
    assert(text_views(out@) =~= Seq::<Seq<char>>::empty());
    assert(mods.take(0) =~= Seq::<Seq<char>>::empty());
    while i < names.len()
        invariant
            i <= names@.len(),
            mods == text_views(names@).map_values(|n: Seq<char>| module_name_of(n)),
            text_views(out@) == sorted_names(mods.take(i as int)),
            strictly_sorted(text_views(out@)),
        decreases names.len() - i,
    {
        proof {
            assert(mods.take(i + 1).drop_last() =~= mods.take(i as int));
        }
        let m = module_name_from_raw(names[i].as_str());
        insert_sorted(&mut out, m);
        i = i + 1;
    }
    assert(mods.take(mods.len() as int) =~= mods);
    out
}

// ---- the verification plan ----

/// A modeled workflow: its slug, name, description and generated artifacts.
#[derive(Debug)]
pub struct ModeledWorkflowLayout {
    pub slug: WorkflowSlug,
    pub name: ModelName,
    pub description: ModelDescription,
    pub lean_artifact_path: ProjectPath,
    pub quint_artifact_path: ProjectPath,
}

pub open spec fn lean_check(path: Seq<char>) -> InvocationView {
    ("lake"@, seq!["env"@, "lean"@, path], "Lean4 artifacts verified"@)
}

pub open spec fn quint_typecheck(path: Seq<char>) -> InvocationView {
    ("quint"@, seq!["typecheck"@, path], "Quint artifacts verified"@)
}

pub open spec fn quint_verify(set: Seq<QuintInvariantName>, path: Seq<char>) -> InvocationView {
    ("quint"@, seq!["verify"@, "--invariant"@, joined(set), path], "Quint artifacts verified"@)
}

pub open spec fn root_lean(module: Seq<char>) -> Seq<char> {
    "model/lean/"@ + module + ".lean"@
}

pub open spec fn root_quint(module: Seq<char>) -> Seq<char> {
    "model/quint/"@ + module + ".qnt"@
}

pub open spec fn slice_lean(module: Seq<char>) -> Seq<char> {
    "model/lean/slices/"@ + module + ".lean"@
}

pub open spec fn slice_quint(module: Seq<char>) -> Seq<char> {
    "model/quint/slices/"@ + module + ".qnt"@
}

/// The batch of Quint runs: the project root, each workflow, each slice.
pub open spec fn quint_batch(module: Seq<char>, workflows: Seq<ModeledWorkflowLayout>, slices: Seq<Seq<char>>) -> Seq<
    InvocationView,
> {
    seq![quint_verify(project_root_invariants(), root_quint(module))] + workflows.map_values(
        |w: ModeledWorkflowLayout| quint_verify(workflow_invariants(), w.quint_artifact_path@),
    ) + slices.map_values(|m: Seq<char>| quint_verify(slice_invariants(), slice_quint(m)))
}

/// The verification plan: check the root Lean4 module, type-check the root
/// Quint module, check the Lean4 module of each workflow and each slice, then
/// run Quint on all of them in one batch.
pub open spec fn verify_plan(module: Seq<char>, workflows: Seq<ModeledWorkflowLayout>, slices: Seq<Seq<char>>) -> Seq<
    EffectView,
> {
    seq![
        EffectView::Run(lean_check(root_lean(module))),
        EffectView::Run(quint_typecheck(root_quint(module))),
    ] + workflows.map_values(
        |w: ModeledWorkflowLayout| EffectView::Run(lean_check(w.lean_artifact_path@)),
    ) + slices.map_values(|m: Seq<char>| EffectView::Run(lean_check(slice_lean(m)))) + seq![
        EffectView::Batch(quint_batch(module, workflows, slices)),
    ]
}

fn invocation(program: &str, arguments: Vec<String>, report: &str) -> (r: ProcessInvocation)
    ensures
        invocation_view(r) == (program@, text_views(arguments@), report@),
{
    ProcessInvocation { program: program.to_owned(), arguments, report: report.to_owned() }
}

fn lean_invocation(path: String) -> (r: ProcessInvocation)
    ensures
        invocation_view(r) == lean_check(path@),
{
    let args = vec!["env".to_owned(), "lean".to_owned(), path];
    let r = invocation("lake", args, "Lean4 artifacts verified");
    assert(text_views(args@) =~= seq!["env"@, "lean"@, path@]);
    r
}

fn quint_verify_invocation(set: &QuintInvariantSet, path: String) -> (r: ProcessInvocation)
    ensures
        invocation_view(r) == quint_verify(set@, path@),
{
    let args = vec!["verify".to_owned(), "--invariant".to_owned(), set.as_process_argument(), path];
    let r = invocation("quint", args, "Quint artifacts verified");
    assert(text_views(args@) =~= seq!["verify"@, "--invariant"@, joined(set@), path@]);
    r
}

/// The names of the slices of `details`, in order.
fn slice_names_of(details: &[WorkflowSliceDetail]) -> (r: Vec<String>)
    ensures
        text_views(r@) == slice_views(details@).map_values(|d: SliceView| d.name),
{
    let mut out: Vec<String> = Vec::new();
    let mut i: usize = 0;
    while i < details.len()
        invariant
            i <= details@.len(),
            text_views(out@) == slice_views(details@).map_values(|d: SliceView| d.name).take(i as int),
        decreases details.len() - i,
    {
        let ghost before = out@;
        out.push(details[i].name.as_str().to_owned());
        assert(text_views(out@) =~= text_views(before).push(details@[i as int].name@));
        assert(slice_views(details@).map_values(|d: SliceView| d.name).take(i + 1)
            =~= slice_views(details@).map_values(|d: SliceView| d.name).take(i as int).push(
            details@[i as int].name@,
        ));
        i = i + 1;
    }
    assert(slice_views(details@).map_values(|d: SliceView| d.name).take(details@.len() as int)
        =~= slice_views(details@).map_values(|d: SliceView| d.name));
    out
}

/// Plans the verification of a project: its root module, its modeled
/// workflows and the slices of its workflows, each slice module once.
pub fn verify_project(
    project_name: &ProjectName,
    modeled_workflows: &[ModeledWorkflowLayout],
    workflow_slice_details: &[WorkflowSliceDetail],
) -> (r: EffectPlan)
    ensures
        r@ == verify_plan(
            module_name_of(project_name@),
            modeled_workflows@,
            sorted_names(
                slice_views(workflow_slice_details@).map_values(|d: SliceView| module_name_of(d.name)),
            ),
        ),
{
    let slice_names = slice_names_of(workflow_slice_details);
    assert(text_views(slice_names@).map_values(|n: Seq<char>| module_name_of(n)) =~= slice_views(
        workflow_slice_details@,
    ).map_values(|d: SliceView| module_name_of(d.name)));
    let module = module_name_from_raw(project_name.as_str());
    let slices = sorted_module_names(&slice_names);
    let ghost m = module@;
    let ghost sv = text_views(slices@);
    let mut effects: Vec<Effect> = Vec::new();
    let ghost e0 = effect_views(effects@);
    push_effect(&mut effects, Effect::RunProcess(lean_invocation(concat3("model/lean/", module.as_str(), ".lean"))));
    let tc = vec!["typecheck".to_owned(), concat3("model/quint/", module.as_str(), ".qnt")];
    assert(text_views(tc@) =~= seq!["typecheck"@, root_quint(m)]);
    push_effect(&mut effects, Effect::RunProcess(invocation("quint", tc, "Quint artifacts verified")));
    let ghost head = effect_views(effects@);
    assert(head =~= seq![
        EffectView::Run(lean_check(root_lean(m))),
        EffectView::Run(quint_typecheck(root_quint(m))),
    ]);
    let ghost wf = modeled_workflows@.map_values(
        |w: ModeledWorkflowLayout| EffectView::Run(lean_check(w.lean_artifact_path@)),
    );
    let mut i: usize = 0;
    while i < modeled_workflows.len()
        invariant
            i <= modeled_workflows@.len(),
            effect_views(effects@) == head + wf.take(i as int),
            wf == modeled_workflows@.map_values(
                |w: ModeledWorkflowLayout| EffectView::Run(lean_check(w.lean_artifact_path@)),
            ),
        decreases modeled_workflows.len() - i,
    {
        let path = modeled_workflows[i].lean_artifact_path.as_str().to_owned();
        push_effect(&mut effects, Effect::RunProcess(lean_invocation(path)));
        assert(head + wf.take(i + 1) =~= (head + wf.take(i as int)).push(wf[i as int]));
        i = i + 1;
    }
    assert(wf.take(wf.len() as int) =~= wf);
    let ghost head2 = effect_views(effects@);
    let ghost sl = sv.map_values(|n: Seq<char>| EffectView::Run(lean_check(slice_lean(n))));
    let mut k: usize = 0;
    while k < slices.len()
        invariant
            k <= slices@.len(),
            sv == text_views(slices@),
            effect_views(effects@) == head2 + sl.take(k as int),
            sl == sv.map_values(|n: Seq<char>| EffectView::Run(lean_check(slice_lean(n)))),
        decreases slices.len() - k,
    {
        let path = concat3("model/lean/slices/", slices[k].as_str(), ".lean");
        push_effect(&mut effects, Effect::RunProcess(lean_invocation(path)));
        assert(head2 + sl.take(k + 1) =~= (head2 + sl.take(k as int)).push(sl[k as int]));
        k = k + 1;
    }
    assert(sl.take(sl.len() as int) =~= sl);
    let mut batch: Vec<ProcessInvocation> = Vec::new();
    let root_set = QuintInvariantSet::project_root();
    push_invocation(&mut batch, quint_verify_invocation(&root_set, concat3("model/quint/", module.as_str(), ".qnt")));
    let ghost b0 = invocation_views(batch@);
    assert(b0 =~= seq![quint_verify(project_root_invariants(), root_quint(m))]);
    let wf_set = QuintInvariantSet::workflow();
    let ghost wq = modeled_workflows@.map_values(
        |w: ModeledWorkflowLayout| quint_verify(workflow_invariants(), w.quint_artifact_path@),
    );
    let mut i: usize = 0;
    while i < modeled_workflows.len()
        invariant
            i <= modeled_workflows@.len(),
            wf_set@ == workflow_invariants(),
            invocation_views(batch@) == b0 + wq.take(i as int),
            wq == modeled_workflows@.map_values(
                |w: ModeledWorkflowLayout| quint_verify(workflow_invariants(), w.quint_artifact_path@),
            ),
        decreases modeled_workflows.len() - i,
    {
        let path = modeled_workflows[i].quint_artifact_path.as_str().to_owned();
        push_invocation(&mut batch, quint_verify_invocation(&wf_set, path));
        assert(b0 + wq.take(i + 1) =~= (b0 + wq.take(i as int)).push(wq[i as int]));
        i = i + 1;
    }
    assert(wq.take(wq.len() as int) =~= wq);
    let ghost b1 = invocation_views(batch@);
    let slice_set = QuintInvariantSet::slice();
    let ghost sq = sv.map_values(|n: Seq<char>| quint_verify(slice_invariants(), slice_quint(n)));
    let mut k: usize = 0;
    while k < slices.len()
        invariant
            k <= slices@.len(),
            sv == text_views(slices@),
            slice_set@ == slice_invariants(),
            invocation_views(batch@) == b1 + sq.take(k as int),
            sq == sv.map_values(|n: Seq<char>| quint_verify(slice_invariants(), slice_quint(n))),
        decreases slices.len() - k,
    {
        let path = concat3("model/quint/slices/", slices[k].as_str(), ".qnt");
        push_invocation(&mut batch, quint_verify_invocation(&slice_set, path));
        assert(b1 + sq.take(k + 1) =~= (b1 + sq.take(k as int)).push(sq[k as int]));
        k = k + 1;
    }
    assert(sq.take(sq.len() as int) =~= sq);
    let ghost bv = invocation_views(batch@);
    push_effect(&mut effects, Effect::RunProcessBatch(batch));
    assert(bv == quint_batch(m, modeled_workflows@, sv));
    assert(effect_views(effects@) =~= verify_plan(m, modeled_workflows@, sv));
    EffectPlan { effects }
}

/// In a verification plan, the Quint run for each modeled workflow checks
/// that workflow's artifact against the workflow invariant set, the set that
/// begins with `workflowIdentityStable`, and not against the slice set.
pub proof fn law_workflow_modules_are_verified_against_workflow_invariants(
    module: Seq<char>,
    workflows: Seq<ModeledWorkflowLayout>,
    slices: Seq<Seq<char>>,
    i: int,
)
    requires
        0 <= i < workflows.len(),
    ensures
        verify_plan(module, workflows, slices).last() matches EffectView::Batch(batch) && batch[1 + i] == (
            "quint"@,
            seq!["verify"@, "--invariant"@, joined(workflow_invariants()), workflows[i].quint_artifact_path@],
            "Quint artifacts verified"@,
        ),
        workflow_invariants()[0] == QuintInvariantName::WorkflowIdentityStable,
        slice_invariants()[0] == QuintInvariantName::SliceIdentityStable,
{
    let plan = verify_plan(module, workflows, slices);
    let batch = quint_batch(module, workflows, slices);
    assert(plan.last() == EffectView::Batch(batch));
    let head = seq![quint_verify(project_root_invariants(), root_quint(module))];
    let wq = workflows.map_values(
        |w: ModeledWorkflowLayout| quint_verify(workflow_invariants(), w.quint_artifact_path@),
    );
    assert((head + wq)[1 + i] == wq[i]);
}

} // verus!
