//! The data of an event-model document as the validator sees it, and the
//! builders that assemble it.

use vstd::prelude::*;

use crate::validation::names::{DefinitionName, NameSet, TopLevelKeys};

verus! {

#[derive(Debug)]
pub struct EventModelDocument {
    pub name: Option<DefinitionName>,
    pub file_kind: EventModelFileKind,
    pub top_level_keys: TopLevelKeys,
    pub event_names: NameSet,
    pub stream_names: NameSet,
    pub event_definitions: Vec<EventDefinition>,
    pub command_definitions: Vec<CommandDefinition>,
    pub command_produced_events: NameSet,
    pub state_view_observed_events: NameSet,
    pub named_definitions: Vec<NamedDefinition>,
    pub read_model_definitions: Vec<ReadModelDefinition>,
    pub board_read_model_command_dependencies: Vec<BoardReadModelCommandDependency>,
    pub board_lanes: BoardLanes,
    pub board_slices: Vec<BoardSliceGraph>,
    pub slice_count: SliceDefinitionCount,
    pub slice_definitions: Vec<SliceDefinition>,
    pub view_definitions: Vec<ViewDefinition>,
    pub workflow_slice_references: NameSet,
    pub workflow_step_slices: NameSet,
    pub workflow_steps: Vec<WorkflowStep>,
    pub workflow_event_transitions: Vec<WorkflowEventTransition>,
    pub workflow_command_transitions: Vec<WorkflowCommandTransition>,
    pub workflow_navigation_transitions: Vec<WorkflowNavigationTransition>,
    pub workflow_external_trigger_transitions: Vec<WorkflowExternalTriggerTransition>,
    pub workflow_exit_transitions: Vec<WorkflowExitTransition>,
    pub duplicate_workflow_step_slice: Option<DefinitionName>,
    pub workflow_composition: WorkflowComposition,
    pub workflow_entry_step_count: WorkflowEntryStepCount,
    pub workflow_internal_definitions: WorkflowInternalDefinitions,
    pub workflow_transition_errors: NameSet,
    pub workflow_transition_outcomes: NameSet,
}

impl EventModelDocument {
    pub fn new(parts: EventModelDocumentParts) -> (r: Self)
        ensures
            r.name == parts.name,
            r.file_kind == parts.file_kind,
            r.top_level_keys == parts.top_level_keys,
            r.event_names == parts.event_names,
            r.stream_names == parts.stream_names,
            r.event_definitions == parts.event_definitions,
            r.command_definitions == parts.command_definitions,
            r.command_produced_events == parts.command_produced_events,
            r.state_view_observed_events == parts.state_view_observed_events,
            r.named_definitions == parts.named_definitions,
            r.read_model_definitions == parts.read_model_definitions,
            r.board_read_model_command_dependencies == parts.board_read_model_command_dependencies,
            r.board_lanes == parts.board_lanes,
            r.board_slices == parts.board_slices,
            r.slice_count == parts.slice_count,
            r.slice_definitions == parts.slice_definitions,
            r.view_definitions == parts.view_definitions,
            r.workflow_slice_references == parts.workflow_slice_references,
            r.workflow_step_slices == parts.workflow_step_slices,
            r.workflow_steps == parts.workflow_steps,
            r.workflow_event_transitions == parts.workflow_event_transitions,
            r.workflow_command_transitions == parts.workflow_command_transitions,
            r.workflow_navigation_transitions == parts.workflow_navigation_transitions,
            r.workflow_external_trigger_transitions == parts.workflow_external_trigger_transitions,
            r.workflow_exit_transitions == parts.workflow_exit_transitions,
            r.duplicate_workflow_step_slice == parts.duplicate_workflow_step_slice,
            r.workflow_composition == parts.workflow_composition,
            r.workflow_entry_step_count == parts.workflow_entry_step_count,
            r.workflow_internal_definitions == parts.workflow_internal_definitions,
            r.workflow_transition_errors == parts.workflow_transition_errors,
            r.workflow_transition_outcomes == parts.workflow_transition_outcomes,
    {
        Self {
            name: parts.name,
            file_kind: parts.file_kind,
            top_level_keys: parts.top_level_keys,
            event_names: parts.event_names,
            stream_names: parts.stream_names,
            event_definitions: parts.event_definitions,
            command_definitions: parts.command_definitions,
            command_produced_events: parts.command_produced_events,
            state_view_observed_events: parts.state_view_observed_events,
            named_definitions: parts.named_definitions,
            read_model_definitions: parts.read_model_definitions,
            board_read_model_command_dependencies: parts.board_read_model_command_dependencies,
            board_lanes: parts.board_lanes,
            board_slices: parts.board_slices,
            slice_count: parts.slice_count,
            slice_definitions: parts.slice_definitions,
            view_definitions: parts.view_definitions,
            workflow_slice_references: parts.workflow_slice_references,
            workflow_step_slices: parts.workflow_step_slices,
            workflow_steps: parts.workflow_steps,
            workflow_event_transitions: parts.workflow_event_transitions,
            workflow_command_transitions: parts.workflow_command_transitions,
            workflow_navigation_transitions: parts.workflow_navigation_transitions,
            workflow_external_trigger_transitions: parts.workflow_external_trigger_transitions,
            workflow_exit_transitions: parts.workflow_exit_transitions,
            duplicate_workflow_step_slice: parts.duplicate_workflow_step_slice,
            workflow_composition: parts.workflow_composition,
            workflow_entry_step_count: parts.workflow_entry_step_count,
            workflow_internal_definitions: parts.workflow_internal_definitions,
            workflow_transition_errors: parts.workflow_transition_errors,
            workflow_transition_outcomes: parts.workflow_transition_outcomes,
        }
    }
}

#[derive(Debug)]
pub struct EventModelDocumentParts {
    pub name: Option<DefinitionName>,
    pub file_kind: EventModelFileKind,
    pub top_level_keys: TopLevelKeys,
    pub event_names: NameSet,
    pub stream_names: NameSet,
    pub event_definitions: Vec<EventDefinition>,
    pub command_definitions: Vec<CommandDefinition>,
    pub command_produced_events: NameSet,
    pub state_view_observed_events: NameSet,
    pub named_definitions: Vec<NamedDefinition>,
    pub read_model_definitions: Vec<ReadModelDefinition>,
    pub board_read_model_command_dependencies: Vec<BoardReadModelCommandDependency>,
    pub board_lanes: BoardLanes,
    pub board_slices: Vec<BoardSliceGraph>,
    pub slice_count: SliceDefinitionCount,
    pub slice_definitions: Vec<SliceDefinition>,
    pub view_definitions: Vec<ViewDefinition>,
    pub workflow_slice_references: NameSet,
    pub workflow_step_slices: NameSet,
    pub workflow_steps: Vec<WorkflowStep>,
    pub workflow_event_transitions: Vec<WorkflowEventTransition>,
    pub workflow_command_transitions: Vec<WorkflowCommandTransition>,
    pub workflow_navigation_transitions: Vec<WorkflowNavigationTransition>,
    pub workflow_external_trigger_transitions: Vec<WorkflowExternalTriggerTransition>,
    pub workflow_exit_transitions: Vec<WorkflowExitTransition>,
    pub duplicate_workflow_step_slice: Option<DefinitionName>,
    pub workflow_composition: WorkflowComposition,
    pub workflow_entry_step_count: WorkflowEntryStepCount,
    pub workflow_internal_definitions: WorkflowInternalDefinitions,
    pub workflow_transition_errors: NameSet,
    pub workflow_transition_outcomes: NameSet,
}

impl EventModelDocumentParts {
    pub fn new(file_kind: EventModelFileKind) -> (r: Self)
        ensures
            r.name is None,
            r.file_kind == file_kind,
            r.top_level_keys@ == Set::<Seq<char>>::empty(),
            r.event_names@.len() == 0,
            r.stream_names@.len() == 0,
            r.event_definitions@.len() == 0,
            r.command_definitions@.len() == 0,
            r.command_produced_events@.len() == 0,
            r.state_view_observed_events@.len() == 0,
            r.named_definitions@.len() == 0,
            r.read_model_definitions@.len() == 0,
            r.board_read_model_command_dependencies@.len() == 0,
            r.board_lanes == BoardLanes::Absent,
            r.board_slices@.len() == 0,
            r.slice_count == SliceDefinitionCount::Zero,
            r.slice_definitions@.len() == 0,
            r.view_definitions@.len() == 0,
            r.workflow_slice_references@.len() == 0,
            r.workflow_step_slices@.len() == 0,
            r.workflow_steps@.len() == 0,
            r.workflow_event_transitions@.len() == 0,
            r.workflow_command_transitions@.len() == 0,
            r.workflow_navigation_transitions@.len() == 0,
            r.workflow_external_trigger_transitions@.len() == 0,
            r.workflow_exit_transitions@.len() == 0,
            r.duplicate_workflow_step_slice is None,
            r.workflow_composition == WorkflowComposition::NotComposition,
            r.workflow_entry_step_count == WorkflowEntryStepCount::NotComposition,
            r.workflow_internal_definitions == WorkflowInternalDefinitions::Absent,
            r.workflow_transition_errors@.len() == 0,
            r.workflow_transition_outcomes@.len() == 0,
    {
        Self {
            name: None,
            file_kind,
            top_level_keys: TopLevelKeys::new(),
            event_names: NameSet::new(),
            stream_names: NameSet::new(),
            event_definitions: Vec::new(),
            command_definitions: Vec::new(),
            command_produced_events: NameSet::new(),
            state_view_observed_events: NameSet::new(),
            named_definitions: Vec::new(),
            read_model_definitions: Vec::new(),
            board_read_model_command_dependencies: Vec::new(),
            board_lanes: BoardLanes::Absent,
            board_slices: Vec::new(),
            slice_count: SliceDefinitionCount::Zero,
            slice_definitions: Vec::new(),
            view_definitions: Vec::new(),
            workflow_slice_references: NameSet::new(),
            workflow_step_slices: NameSet::new(),
            workflow_steps: Vec::new(),
            workflow_event_transitions: Vec::new(),
            workflow_command_transitions: Vec::new(),
            workflow_navigation_transitions: Vec::new(),
            workflow_external_trigger_transitions: Vec::new(),
            workflow_exit_transitions: Vec::new(),
            duplicate_workflow_step_slice: None,
            workflow_composition: WorkflowComposition::NotComposition,
            workflow_entry_step_count: WorkflowEntryStepCount::NotComposition,
            workflow_internal_definitions: WorkflowInternalDefinitions::Absent,
            workflow_transition_errors: NameSet::new(),
            workflow_transition_outcomes: NameSet::new(),
        }
    }

    pub fn with_name(self, name: Option<DefinitionName>) -> (r: Self)
        ensures
            r == (Self { name: name, ..self }),
    {
        Self { name, ..self }
    }

    pub fn with_top_level_keys(self, top_level_keys: TopLevelKeys) -> (r: Self)
        ensures
            r == (Self { top_level_keys: top_level_keys, ..self }),
    {
        Self { top_level_keys, ..self }
    }

    pub fn with_event_names(self, event_names: NameSet) -> (r: Self)
        ensures
            r == (Self { event_names: event_names, ..self }),
    {
        Self { event_names, ..self }
    }

    pub fn with_stream_names(self, stream_names: NameSet) -> (r: Self)
        ensures
            r == (Self { stream_names: stream_names, ..self }),
    {
        Self { stream_names, ..self }
    }

    pub fn with_event_definitions(self, event_definitions: Vec<EventDefinition>) -> (r: Self)
        ensures
            r == (Self { event_definitions: event_definitions, ..self }),
    {
        Self { event_definitions, ..self }
    }

    pub fn with_command_definitions(self, command_definitions: Vec<CommandDefinition>) -> (r: Self)
        ensures
            r == (Self { command_definitions: command_definitions, ..self }),
    {
        Self { command_definitions, ..self }
    }

    pub fn with_command_produced_events(self, command_produced_events: NameSet) -> (r: Self)
        ensures
            r == (Self { command_produced_events: command_produced_events, ..self }),
    {
        Self { command_produced_events, ..self }
    }

    pub fn with_state_view_observed_events(self, state_view_observed_events: NameSet) -> (r: Self)
        ensures
            r == (Self { state_view_observed_events: state_view_observed_events, ..self }),
    {
        Self { state_view_observed_events, ..self }
    }

    pub fn with_named_definitions(self, named_definitions: Vec<NamedDefinition>) -> (r: Self)
        ensures
            r == (Self { named_definitions: named_definitions, ..self }),
    {
        Self { named_definitions, ..self }
    }

    pub fn with_read_model_definitions(self, read_model_definitions: Vec<ReadModelDefinition>) -> (r: Self)
        ensures
            r == (Self { read_model_definitions: read_model_definitions, ..self }),
    {
        Self { read_model_definitions, ..self }
    }

    pub fn with_board_read_model_command_dependencies(self, board_read_model_command_dependencies: Vec<BoardReadModelCommandDependency>) -> (r: Self)
        ensures
            r == (Self { board_read_model_command_dependencies: board_read_model_command_dependencies, ..self }),
    {
        Self { board_read_model_command_dependencies, ..self }
    }

    pub fn with_board_lanes(self, board_lanes: BoardLanes) -> (r: Self)
        ensures
            r == (Self { board_lanes: board_lanes, ..self }),
    {
        Self { board_lanes, ..self }
    }

    pub fn with_board_slices(self, board_slices: Vec<BoardSliceGraph>) -> (r: Self)
        ensures
            r == (Self { board_slices: board_slices, ..self }),
    {
        Self { board_slices, ..self }
    }

    pub fn with_slice_count(self, slice_count: SliceDefinitionCount) -> (r: Self)
        ensures
            r == (Self { slice_count: slice_count, ..self }),
    {
        Self { slice_count, ..self }
    }

    pub fn with_slice_definitions(self, slice_definitions: Vec<SliceDefinition>) -> (r: Self)
        ensures
            r == (Self { slice_definitions: slice_definitions, ..self }),
    {
        Self { slice_definitions, ..self }
    }

    pub fn with_view_definitions(self, view_definitions: Vec<ViewDefinition>) -> (r: Self)
        ensures
            r == (Self { view_definitions: view_definitions, ..self }),
    {
        Self { view_definitions, ..self }
    }

    pub fn with_workflow_slice_references(self, workflow_slice_references: NameSet) -> (r: Self)
        ensures
            r == (Self { workflow_slice_references: workflow_slice_references, ..self }),
    {
        Self { workflow_slice_references, ..self }
    }

    pub fn with_workflow_step_slices(self, workflow_step_slices: NameSet) -> (r: Self)
        ensures
            r == (Self { workflow_step_slices: workflow_step_slices, ..self }),
    {
        Self { workflow_step_slices, ..self }
    }

    pub fn with_workflow_steps(self, workflow_steps: Vec<WorkflowStep>) -> (r: Self)
        ensures
            r == (Self { workflow_steps: workflow_steps, ..self }),
    {
        Self { workflow_steps, ..self }
    }

    pub fn with_workflow_event_transitions(self, workflow_event_transitions: Vec<WorkflowEventTransition>) -> (r: Self)
        ensures
            r == (Self { workflow_event_transitions: workflow_event_transitions, ..self }),
    {
        Self { workflow_event_transitions, ..self }
    }

    pub fn with_workflow_command_transitions(self, workflow_command_transitions: Vec<WorkflowCommandTransition>) -> (r: Self)
        ensures
            r == (Self { workflow_command_transitions: workflow_command_transitions, ..self }),
    {
        Self { workflow_command_transitions, ..self }
    }

    pub fn with_workflow_navigation_transitions(self, workflow_navigation_transitions: Vec<WorkflowNavigationTransition>) -> (r: Self)
        ensures
            r == (Self { workflow_navigation_transitions: workflow_navigation_transitions, ..self }),
    {
        Self { workflow_navigation_transitions, ..self }
    }

    pub fn with_workflow_external_trigger_transitions(self, workflow_external_trigger_transitions: Vec<WorkflowExternalTriggerTransition>) -> (r: Self)
        ensures
            r == (Self { workflow_external_trigger_transitions: workflow_external_trigger_transitions, ..self }),
    {
        Self { workflow_external_trigger_transitions, ..self }
    }

    pub fn with_workflow_exit_transitions(self, workflow_exit_transitions: Vec<WorkflowExitTransition>) -> (r: Self)
        ensures
            r == (Self { workflow_exit_transitions: workflow_exit_transitions, ..self }),
    {
        Self { workflow_exit_transitions, ..self }
    }

    pub fn with_duplicate_workflow_step_slice(self, duplicate_workflow_step_slice: Option<DefinitionName>) -> (r: Self)
        ensures
            r == (Self { duplicate_workflow_step_slice: duplicate_workflow_step_slice, ..self }),
    {
        Self { duplicate_workflow_step_slice, ..self }
    }

    pub fn with_workflow_composition(self, workflow_composition: WorkflowComposition) -> (r: Self)
        ensures
            r == (Self { workflow_composition: workflow_composition, ..self }),
    {
        Self { workflow_composition, ..self }
    }

    pub fn with_workflow_entry_step_count(self, workflow_entry_step_count: WorkflowEntryStepCount) -> (r: Self)
        ensures
            r == (Self { workflow_entry_step_count: workflow_entry_step_count, ..self }),
    {
        Self { workflow_entry_step_count, ..self }
    }

    pub fn with_workflow_internal_definitions(self, workflow_internal_definitions: WorkflowInternalDefinitions) -> (r: Self)
        ensures
            r == (Self { workflow_internal_definitions: workflow_internal_definitions, ..self }),
    {
        Self { workflow_internal_definitions, ..self }
    }

    pub fn with_workflow_transition_errors(self, workflow_transition_errors: NameSet) -> (r: Self)
        ensures
            r == (Self { workflow_transition_errors: workflow_transition_errors, ..self }),
    {
        Self { workflow_transition_errors, ..self }
    }

    pub fn with_workflow_transition_outcomes(self, workflow_transition_outcomes: NameSet) -> (r: Self)
        ensures
            r == (Self { workflow_transition_outcomes: workflow_transition_outcomes, ..self }),
    {
        Self { workflow_transition_outcomes, ..self }
    }
}

#[derive(Debug, Clone, Copy, PartialEq, Eq, Structural)]
pub enum EventModelFileKind {
    Slice,
    Workflow,
}

#[derive(Debug, Clone, Copy, PartialEq, Eq, Structural)]
pub enum WorkflowComposition {
    NotComposition,
    MissingSteps,
    DeclaresSteps,
}

#[derive(Debug, Clone, Copy, PartialEq, Eq, Structural)]
pub enum WorkflowEntryStepCount {
    NotComposition,
    NotOne,
    One,
}

#[derive(Debug, Clone, Copy, PartialEq, Eq, Structural)]
pub enum WorkflowInternalDefinitions {
    Absent,
    Present,
}

#[derive(Debug, Clone, Copy, PartialEq, Eq, Structural)]
pub enum WorkflowStepRelationship {
    Alternate,
    AsyncLifecycle,
    Branch,
    Entry,
    Main,
    Other,
    Supporting,
}

#[derive(Debug, Clone, Copy, PartialEq, Eq, Structural)]
pub enum WorkflowStepTrigger {
    Absent,
    Present,
}

#[derive(Debug, Clone, Copy, PartialEq, Eq, Structural)]
pub enum WorkflowStepExit {
    Absent,
    Present,
}

#[derive(Debug, Clone, Copy, PartialEq, Eq, Structural)]
pub enum WorkflowStepLifecycleRole {
    ApplicationEntryStateView,
    BootstrapRootEntryStateChange,
    Other,
}

#[derive(Debug)]
pub struct WorkflowStep {
    pub slice: DefinitionName,
    pub relationship: WorkflowStepRelationship,
    pub trigger: WorkflowStepTrigger,
    pub workflow_exit: WorkflowStepExit,
    pub transition_targets: NameSet,
    pub selected_scenario: Option<DefinitionName>,
    pub lifecycle_role: WorkflowStepLifecycleRole,
}

impl WorkflowStep {
    pub fn new(
        slice: DefinitionName,
        relationship: WorkflowStepRelationship,
        trigger: WorkflowStepTrigger,
        workflow_exit: WorkflowStepExit,
        transition_targets: NameSet,
        selected_scenario: Option<DefinitionName>,
        lifecycle_role: WorkflowStepLifecycleRole,
    ) -> (r: Self)
        ensures
            r.slice == slice,
            r.relationship == relationship,
            r.trigger == trigger,
            r.workflow_exit == workflow_exit,
            r.transition_targets == transition_targets,
            r.selected_scenario == selected_scenario,
            r.lifecycle_role == lifecycle_role,
    {
        Self {
            slice,
            relationship,
            trigger,
            workflow_exit,
            transition_targets,
            selected_scenario,
            lifecycle_role,
        }
    }
}

#[derive(Debug, Clone)]
pub struct WorkflowEventTransition {
    pub source_slice: DefinitionName,
    pub target_slice: DefinitionName,
    pub event: DefinitionName,
}

impl WorkflowEventTransition {
    pub fn new(
        source_slice: DefinitionName,
        target_slice: DefinitionName,
        event: DefinitionName,
    ) -> (r: Self)
        ensures
            r.source_slice == source_slice,
            r.target_slice == target_slice,
            r.event == event,
    {
        Self {
            source_slice,
            target_slice,
            event,
        }
    }
}

#[derive(Debug, Clone)]
pub struct WorkflowCommandTransition {
    pub source_slice: DefinitionName,
    pub target_slice: DefinitionName,
    pub command: DefinitionName,
}

impl WorkflowCommandTransition {
    pub fn new(
        source_slice: DefinitionName,
        target_slice: DefinitionName,
        command: DefinitionName,
    ) -> (r: Self)
        ensures
            r.source_slice == source_slice,
            r.target_slice == target_slice,
            r.command == command,
    {
        Self {
            source_slice,
            target_slice,
            command,
        }
    }
}

#[derive(Debug, Clone)]
pub struct WorkflowNavigationTransition {
    pub source_slice: DefinitionName,
    pub target_slice: DefinitionName,
    pub navigation_target: DefinitionName,
}

impl WorkflowNavigationTransition {
    pub fn new(
        source_slice: DefinitionName,
        target_slice: DefinitionName,
        navigation_target: DefinitionName,
    ) -> (r: Self)
        ensures
            r.source_slice == source_slice,
            r.target_slice == target_slice,
            r.navigation_target == navigation_target,
    {
        Self {
            source_slice,
            target_slice,
            navigation_target,
        }
    }
}

#[derive(Debug, Clone)]
pub struct WorkflowExternalTriggerTransition {
    pub source_slice: DefinitionName,
    pub target_slice: DefinitionName,
    pub external_trigger: DefinitionName,
}

impl WorkflowExternalTriggerTransition {
    pub fn new(
        source_slice: DefinitionName,
        target_slice: DefinitionName,
        external_trigger: DefinitionName,
    ) -> (r: Self)
        ensures
            r.source_slice == source_slice,
            r.target_slice == target_slice,
            r.external_trigger == external_trigger,
    {
        Self {
            source_slice,
            target_slice,
            external_trigger,
        }
    }
}

#[derive(Debug, Clone)]
pub struct WorkflowExitTransition {
    pub workflow: DefinitionName,
    pub rationale: WorkflowExitRationale,
}

impl WorkflowExitTransition {
    pub fn new(workflow: DefinitionName, rationale: WorkflowExitRationale) -> (r: Self)
        ensures
            r.workflow == workflow,
            r.rationale == rationale,
    {
        Self {
            workflow,
            rationale,
        }
    }
}

#[derive(Debug, Clone, Copy, PartialEq, Eq, Structural)]
pub enum WorkflowExitRationale {
    Missing,
    Present,
}

#[derive(Debug, Clone, Copy, PartialEq, Eq, Structural)]
pub enum SliceDefinitionCount {
    Multiple,
    One,
    Zero,
}

#[derive(Debug, Clone, Copy, PartialEq, Eq, Structural)]
pub enum LegacyScenariosField {
    Absent,
    Present,
}

#[derive(Debug, Clone, Copy, PartialEq, Eq, Structural)]
pub enum ScenarioStepField {
    Absent,
    Present,
}

#[derive(Debug, Clone, Copy, PartialEq, Eq, Structural)]
pub enum ScenarioSetKind {
    Acceptance,
    Contract,
}

#[derive(Debug, Clone, Copy, PartialEq, Eq, Structural)]
pub enum SliceType {
    Automation,
    Other,
    StateChange,
    StateView,
    Translation,
}

#[derive(Debug, Clone, Copy, PartialEq, Eq, Structural)]
pub enum DefinitionKind {
    Command,
    Event,
    ReadModel,
    Stream,
    View,
}


#[derive(Debug, Clone)]
pub struct NamedDefinition {
    pub kind: DefinitionKind,
    pub name: DefinitionName,
}

impl NamedDefinition {
    pub fn new(kind: DefinitionKind, name: DefinitionName) -> (r: Self)
        ensures
            r.kind == kind,
            r.name == name,
    {
        Self { kind, name }
    }

    pub fn into_name(self) -> (r: DefinitionName)
        ensures
            r == self.name,
    {
        self.name
    }
}

#[derive(Debug, Clone)]
pub struct BoardReadModelCommandDependency {
    pub read_model: DefinitionName,
    pub command: DefinitionName,
    pub intermediate_automation: DefinitionName,
}

impl BoardReadModelCommandDependency {
    pub fn new(
        read_model: DefinitionName,
        command: DefinitionName,
        intermediate_automation: DefinitionName,
    ) -> (r: Self)
        ensures
            r.read_model == read_model,
            r.command == command,
            r.intermediate_automation == intermediate_automation,
    {
        Self {
            read_model,
            command,
            intermediate_automation,
        }
    }
}

#[derive(Debug, Clone)]
pub struct BoardLane {
    pub id: DefinitionName,
    pub name: Option<DefinitionName>,
}

impl BoardLane {
    pub fn new(id: DefinitionName, name: Option<DefinitionName>) -> (r: Self)
        ensures
            r.id == id,
            r.name == name,
    {
        Self { id, name }
    }
}

#[derive(Debug, Clone)]
pub enum BoardLanes {
    Absent,
    Present(Vec<BoardLane>),
}

#[derive(Debug, Clone, Copy, PartialEq, Eq, Structural)]
pub enum BoardElementKind {
    Automation,
    Command,
    Event,
    ExternalEvent,
    Other,
    ReadModel,
    View,
}

#[derive(Debug, Clone)]
pub struct BoardElement {
    pub id: DefinitionName,
    pub kind: BoardElementKind,
    pub lane: Option<DefinitionName>,
    pub name: Option<DefinitionName>,
}

impl BoardElement {
    pub fn new(
        id: DefinitionName,
        kind: BoardElementKind,
        lane: Option<DefinitionName>,
        name: Option<DefinitionName>,
    ) -> (r: Self)
        ensures
            r.id == id,
            r.kind == kind,
            r.lane == lane,
            r.name == name,
    {
        Self {
            id,
            kind,
            lane,
            name,
        }
    }
}

#[derive(Debug, Clone)]
pub struct BoardSliceGraph {
    pub name: DefinitionName,
    pub elements: Vec<BoardElement>,
    pub connections: Vec<BoardGraphConnection>,
}

impl BoardSliceGraph {
    pub fn new(
        name: DefinitionName,
        elements: Vec<BoardElement>,
        connections: Vec<BoardGraphConnection>,
    ) -> (r: Self)
        ensures
            r.name == name,
            r.elements == elements,
            r.connections == connections,
    {
        Self {
            name,
            elements,
            connections,
        }
    }

}

#[derive(Debug, Clone)]
pub struct BoardGraphConnection {
    pub from: DefinitionName,
    pub to: DefinitionName,
}

impl BoardGraphConnection {
    pub fn new(from: DefinitionName, to: DefinitionName) -> (r: Self)
        ensures
            r.from == from,
            r.to == to,
    {
        Self { from, to }
    }
}

#[derive(Debug, Clone)]
pub struct SliceDefinition {
    pub name: DefinitionName,
    pub slice_type: SliceType,
    pub issued_commands: Vec<DefinitionName>,
    pub handled_command_errors: Vec<DefinitionName>,
    pub owned_automations: Vec<DefinitionName>,
    pub owned_read_models: Vec<DefinitionName>,
    pub owned_translations: Vec<DefinitionName>,
    pub owned_views: Vec<DefinitionName>,
    pub owned_events: Vec<DefinitionName>,
    pub external_triggers: Vec<DefinitionName>,
    pub external_payload_variants: Vec<ExternalPayloadVariant>,
    pub outcome_labels: Vec<DefinitionName>,
    pub outcomes: Vec<OutcomeDefinition>,
    pub legacy_scenarios: LegacyScenariosField,
    pub singleton_behavior: SingletonBehavior,
    pub automation_trigger: AutomationTrigger,
    pub automation_command_policy: AutomationCommandPolicy,
    pub translation_contract: TranslationContract,
    pub scenarios: Vec<SliceScenario>,
}

impl SliceDefinition {
    pub fn new(parts: SliceDefinitionParts) -> (r: Self)
        ensures
            r.name == parts.name,
            r.slice_type == parts.slice_type,
            r.issued_commands == parts.issued_commands,
            r.handled_command_errors == parts.handled_command_errors,
            r.owned_automations == parts.owned_automations,
            r.owned_read_models == parts.owned_read_models,
            r.owned_translations == parts.owned_translations,
            r.owned_views == parts.owned_views,
            r.owned_events == parts.owned_events,
            r.external_triggers == parts.external_triggers,
            r.external_payload_variants == parts.external_payload_variants,
            r.outcome_labels == parts.outcome_labels,
            r.outcomes == parts.outcomes,
            r.legacy_scenarios == parts.legacy_scenarios,
            r.singleton_behavior == parts.singleton_behavior,
            r.automation_trigger == parts.automation_trigger,
            r.automation_command_policy == parts.automation_command_policy,
            r.translation_contract == parts.translation_contract,
            r.scenarios == parts.scenarios,
    {
        Self {
            name: parts.name,
            slice_type: parts.slice_type,
            issued_commands: parts.issued_commands,
            handled_command_errors: parts.handled_command_errors,
            owned_automations: parts.owned_automations,
            owned_read_models: parts.owned_read_models,
            owned_translations: parts.owned_translations,
            owned_views: parts.owned_views,
            owned_events: parts.owned_events,
            external_triggers: parts.external_triggers,
            external_payload_variants: parts.external_payload_variants,
            outcome_labels: parts.outcome_labels,
            outcomes: parts.outcomes,
            legacy_scenarios: parts.legacy_scenarios,
            singleton_behavior: parts.singleton_behavior,
            automation_trigger: parts.automation_trigger,
            automation_command_policy: parts.automation_command_policy,
            translation_contract: parts.translation_contract,
            scenarios: parts.scenarios,
        }
    }

    pub fn is_state_view(&self) -> (r: bool)
        ensures
            r == (self.slice_type == SliceType::StateView),
    {
        self.slice_type == SliceType::StateView
    }

    pub fn owned_events(&self) -> (r: &[DefinitionName])
        ensures
            r@ == self.owned_events@,
    {
        self.owned_events.as_slice()
    }


}

#[derive(Debug, Clone)]
pub struct SliceDefinitionParts {
    pub name: DefinitionName,
    pub slice_type: SliceType,
    pub issued_commands: Vec<DefinitionName>,
    pub handled_command_errors: Vec<DefinitionName>,
    pub owned_automations: Vec<DefinitionName>,
    pub owned_read_models: Vec<DefinitionName>,
    pub owned_translations: Vec<DefinitionName>,
    pub owned_views: Vec<DefinitionName>,
    pub owned_events: Vec<DefinitionName>,
    pub external_triggers: Vec<DefinitionName>,
    pub external_payload_variants: Vec<ExternalPayloadVariant>,
    pub outcome_labels: Vec<DefinitionName>,
    pub outcomes: Vec<OutcomeDefinition>,
    pub legacy_scenarios: LegacyScenariosField,
    pub singleton_behavior: SingletonBehavior,
    pub automation_trigger: AutomationTrigger,
    pub automation_command_policy: AutomationCommandPolicy,
    pub translation_contract: TranslationContract,
    pub scenarios: Vec<SliceScenario>,
}

impl SliceDefinitionParts {
    pub fn new(name: DefinitionName, slice_type: SliceType) -> (r: Self)
        ensures
            r.name == name,
            r.slice_type == slice_type,
            r.issued_commands@.len() == 0,
            r.handled_command_errors@.len() == 0,
            r.owned_automations@.len() == 0,
            r.owned_read_models@.len() == 0,
            r.owned_translations@.len() == 0,
            r.owned_views@.len() == 0,
            r.owned_events@.len() == 0,
            r.external_triggers@.len() == 0,
            r.external_payload_variants@.len() == 0,
            r.outcome_labels@.len() == 0,
            r.outcomes@.len() == 0,
            r.legacy_scenarios == LegacyScenariosField::Absent,
            r.singleton_behavior == SingletonBehavior::NotSingleton,
            r.automation_trigger == AutomationTrigger::NotAutomation,
            r.automation_command_policy == AutomationCommandPolicy::NotAutomation,
            r.translation_contract == TranslationContract::NotTranslation,
            r.scenarios@.len() == 0,
    {
        Self {
            name,
            slice_type,
            issued_commands: Vec::new(),
            handled_command_errors: Vec::new(),
            owned_automations: Vec::new(),
            owned_read_models: Vec::new(),
            owned_translations: Vec::new(),
            owned_views: Vec::new(),
            owned_events: Vec::new(),
            external_triggers: Vec::new(),
            external_payload_variants: Vec::new(),
            outcome_labels: Vec::new(),
            outcomes: Vec::new(),
            legacy_scenarios: LegacyScenariosField::Absent,
            singleton_behavior: SingletonBehavior::NotSingleton,
            automation_trigger: AutomationTrigger::NotAutomation,
            automation_command_policy: AutomationCommandPolicy::NotAutomation,
            translation_contract: TranslationContract::NotTranslation,
            scenarios: Vec::new(),
        }
    }

    pub fn with_issued_commands(self, issued_commands: Vec<DefinitionName>) -> (r: Self)
        ensures
            r == (Self { issued_commands: issued_commands, ..self }),
    {
        Self { issued_commands, ..self }
    }

    pub fn with_handled_command_errors(self, handled_command_errors: Vec<DefinitionName>) -> (r: Self)
        ensures
            r == (Self { handled_command_errors: handled_command_errors, ..self }),
    {
        Self { handled_command_errors, ..self }
    }

    pub fn with_owned_automations(self, owned_automations: Vec<DefinitionName>) -> (r: Self)
        ensures
            r == (Self { owned_automations: owned_automations, ..self }),
    {
        Self { owned_automations, ..self }
    }

    pub fn with_owned_read_models(self, owned_read_models: Vec<DefinitionName>) -> (r: Self)
        ensures
            r == (Self { owned_read_models: owned_read_models, ..self }),
    {
        Self { owned_read_models, ..self }
    }

    pub fn with_owned_translations(self, owned_translations: Vec<DefinitionName>) -> (r: Self)
        ensures
            r == (Self { owned_translations: owned_translations, ..self }),
    {
        Self { owned_translations, ..self }
    }

    pub fn with_owned_views(self, owned_views: Vec<DefinitionName>) -> (r: Self)
        ensures
            r == (Self { owned_views: owned_views, ..self }),
    {
        Self { owned_views, ..self }
    }

    pub fn with_owned_events(self, owned_events: Vec<DefinitionName>) -> (r: Self)
        ensures
            r == (Self { owned_events: owned_events, ..self }),
    {
        Self { owned_events, ..self }
    }

    pub fn with_external_triggers(self, external_triggers: Vec<DefinitionName>) -> (r: Self)
        ensures
            r == (Self { external_triggers: external_triggers, ..self }),
    {
        Self { external_triggers, ..self }
    }

    pub fn with_external_payload_variants(self, external_payload_variants: Vec<ExternalPayloadVariant>) -> (r: Self)
        ensures
            r == (Self { external_payload_variants: external_payload_variants, ..self }),
    {
        Self { external_payload_variants, ..self }
    }

    pub fn with_outcome_labels(self, outcome_labels: Vec<DefinitionName>) -> (r: Self)
        ensures
            r == (Self { outcome_labels: outcome_labels, ..self }),
    {
        Self { outcome_labels, ..self }
    }

    pub fn with_outcomes(self, outcomes: Vec<OutcomeDefinition>) -> (r: Self)
        ensures
            r == (Self { outcomes: outcomes, ..self }),
    {
        Self { outcomes, ..self }
    }

    pub fn with_legacy_scenarios(self, legacy_scenarios: LegacyScenariosField) -> (r: Self)
        ensures
            r == (Self { legacy_scenarios: legacy_scenarios, ..self }),
    {
        Self { legacy_scenarios, ..self }
    }

    pub fn with_singleton_behavior(self, singleton_behavior: SingletonBehavior) -> (r: Self)
        ensures
            r == (Self { singleton_behavior: singleton_behavior, ..self }),
    {
        Self { singleton_behavior, ..self }
    }

    pub fn with_automation_trigger(self, automation_trigger: AutomationTrigger) -> (r: Self)
        ensures
            r == (Self { automation_trigger: automation_trigger, ..self }),
    {
        Self { automation_trigger, ..self }
    }

    pub fn with_automation_command_policy(self, automation_command_policy: AutomationCommandPolicy) -> (r: Self)
        ensures
            r == (Self { automation_command_policy: automation_command_policy, ..self }),
    {
        Self { automation_command_policy, ..self }
    }

    pub fn with_translation_contract(self, translation_contract: TranslationContract) -> (r: Self)
        ensures
            r == (Self { translation_contract: translation_contract, ..self }),
    {
        Self { translation_contract, ..self }
    }

    pub fn with_scenarios(self, scenarios: Vec<SliceScenario>) -> (r: Self)
        ensures
            r == (Self { scenarios: scenarios, ..self }),
    {
        Self { scenarios, ..self }
    }
}

#[derive(Debug, Clone, Copy, PartialEq, Eq, Structural)]
pub enum SingletonBehavior {
    NotSingleton,
    MissingRepeatBehavior,
    DeclaresRepeatBehavior,
}

#[derive(Debug, Clone)]
pub enum AutomationTrigger {
    NotAutomation,
    MissingTrigger,
    DeclaresTriggers(Vec<DefinitionName>),
}

#[derive(Debug, Clone, Copy, PartialEq, Eq, Structural)]
pub enum AutomationCommandPolicy {
    NotAutomation,
    SingleCommand,
    MultipleCommands,
}

#[derive(Debug, Clone, Copy, PartialEq, Eq, Structural)]
pub enum TranslationContract {
    NotTranslation,
    MissingExternalContract,
    DeclaresExternalContract,
}

#[derive(Debug, Clone)]
pub struct ExternalPayloadVariant {
    pub payload: DefinitionName,
    pub variant: DefinitionName,
}

impl ExternalPayloadVariant {
    pub fn new(payload: DefinitionName, variant: DefinitionName) -> (r: Self)
        ensures
            r.payload == payload,
            r.variant == variant,
    {
        Self { payload, variant }
    }
}

#[derive(Debug, Clone)]
pub struct OutcomeDefinition {
    pub label: DefinitionName,
    pub events: Vec<DefinitionName>,
}

impl OutcomeDefinition {
    pub fn new(label: DefinitionName, events: Vec<DefinitionName>) -> (r: Self)
        ensures
            r.label == label,
            r.events == events,
    {
        Self { label, events }
    }
}

#[derive(Debug, Clone)]
pub struct SliceScenario {
    pub name: DefinitionName,
    pub when_field: ScenarioStepField,
    pub scenario_set: ScenarioSetKind,
    pub referenced_events: Vec<DefinitionName>,
    pub scenario_step_references: Vec<DefinitionName>,
    pub then_events: Vec<DefinitionName>,
    pub command_errors: Vec<DefinitionName>,
    pub given_streams: Vec<DefinitionName>,
    pub read_model_states: Vec<DefinitionName>,
    pub read_model_state_values: Vec<ReadModelState>,
}

impl SliceScenario {
    pub fn new(parts: SliceScenarioParts) -> (r: Self)
        ensures
            r.name == parts.name,
            r.when_field == parts.when_field,
            r.scenario_set == parts.scenario_set,
            r.referenced_events == parts.referenced_events,
            r.scenario_step_references == parts.scenario_step_references,
            r.then_events == parts.then_events,
            r.command_errors == parts.command_errors,
            r.given_streams == parts.given_streams,
            r.read_model_states == parts.read_model_states,
            r.read_model_state_values == parts.read_model_state_values,
    {
        Self {
            name: parts.name,
            when_field: parts.when_field,
            scenario_set: parts.scenario_set,
            referenced_events: parts.referenced_events,
            scenario_step_references: parts.scenario_step_references,
            then_events: parts.then_events,
            command_errors: parts.command_errors,
            given_streams: parts.given_streams,
            read_model_states: parts.read_model_states,
            read_model_state_values: parts.read_model_state_values,
        }
    }

}

#[derive(Debug, Clone)]
pub struct SliceScenarioParts {
    pub name: DefinitionName,
    pub when_field: ScenarioStepField,
    pub scenario_set: ScenarioSetKind,
    pub referenced_events: Vec<DefinitionName>,
    pub scenario_step_references: Vec<DefinitionName>,
    pub then_events: Vec<DefinitionName>,
    pub command_errors: Vec<DefinitionName>,
    pub given_streams: Vec<DefinitionName>,
    pub read_model_states: Vec<DefinitionName>,
    pub read_model_state_values: Vec<ReadModelState>,
}

impl SliceScenarioParts {
    pub fn new(
        name: DefinitionName,
        when_field: ScenarioStepField,
        scenario_set: ScenarioSetKind,
    ) -> (r: Self)
        ensures
            r.name == name,
            r.when_field == when_field,
            r.scenario_set == scenario_set,
            r.referenced_events@.len() == 0,
            r.scenario_step_references@.len() == 0,
            r.then_events@.len() == 0,
            r.command_errors@.len() == 0,
            r.given_streams@.len() == 0,
            r.read_model_states@.len() == 0,
            r.read_model_state_values@.len() == 0,
    {
        Self {
            name,
            when_field,
            scenario_set,
            referenced_events: Vec::new(),
            scenario_step_references: Vec::new(),
            then_events: Vec::new(),
            command_errors: Vec::new(),
            given_streams: Vec::new(),
            read_model_states: Vec::new(),
            read_model_state_values: Vec::new(),
        }
    }

    pub fn with_referenced_events(self, referenced_events: Vec<DefinitionName>) -> (r: Self)
        ensures
            r == (Self { referenced_events: referenced_events, ..self }),
    {
        Self { referenced_events, ..self }
    }

    pub fn with_scenario_step_references(self, scenario_step_references: Vec<DefinitionName>) -> (r: Self)
        ensures
            r == (Self { scenario_step_references: scenario_step_references, ..self }),
    {
        Self { scenario_step_references, ..self }
    }

    pub fn with_then_events(self, then_events: Vec<DefinitionName>) -> (r: Self)
        ensures
            r == (Self { then_events: then_events, ..self }),
    {
        Self { then_events, ..self }
    }

    pub fn with_command_errors(self, command_errors: Vec<DefinitionName>) -> (r: Self)
        ensures
            r == (Self { command_errors: command_errors, ..self }),
    {
        Self { command_errors, ..self }
    }

    pub fn with_given_streams(self, given_streams: Vec<DefinitionName>) -> (r: Self)
        ensures
            r == (Self { given_streams: given_streams, ..self }),
    {
        Self { given_streams, ..self }
    }

    pub fn with_read_model_states(self, read_model_states: Vec<DefinitionName>) -> (r: Self)
        ensures
            r == (Self { read_model_states: read_model_states, ..self }),
    {
        Self { read_model_states, ..self }
    }

    pub fn with_read_model_state_values(self, read_model_state_values: Vec<ReadModelState>) -> (r: Self)
        ensures
            r == (Self { read_model_state_values: read_model_state_values, ..self }),
    {
        Self { read_model_state_values, ..self }
    }
}

#[derive(Debug, Clone)]
pub struct ReadModelState {
    pub read_model: DefinitionName,
    pub state: DefinitionName,
}

impl ReadModelState {
    pub fn new(read_model: DefinitionName, state: DefinitionName) -> (r: Self)
        ensures
            r.read_model == read_model,
            r.state == state,
    {
        Self { read_model, state }
    }
}

#[derive(Debug, Clone)]
pub struct ViewDefinition {
    pub name: DefinitionName,
    pub read_models: Vec<DefinitionName>,
    pub controls: Vec<ViewControlDefinition>,
    pub local_states: Vec<DefinitionName>,
    pub wireframe: ViewWireframe,
}

#[derive(Debug, Clone)]
pub struct ViewControlDefinition {
    pub label: DefinitionName,
    pub command: Option<DefinitionName>,
    pub command_error_handling: Vec<ControlCommandErrorHandling>,
    pub navigation_target: Option<DefinitionName>,
    pub navigation_type: NavigationType,
    pub workflow_target: Option<DefinitionName>,
    pub external_system: Option<DefinitionName>,
    pub payload_contract: Option<DefinitionName>,
}

impl ViewControlDefinition {
    pub fn new(parts: ViewControlDefinitionParts) -> (r: Self)
        ensures
            r.label == parts.label,
            r.command == parts.command,
            r.command_error_handling == parts.command_error_handling,
            r.navigation_target == parts.navigation_target,
            r.navigation_type == parts.navigation_type,
            r.workflow_target == parts.workflow_target,
            r.external_system == parts.external_system,
            r.payload_contract == parts.payload_contract,
    {
        Self {
            label: parts.label,
            command: parts.command,
            command_error_handling: parts.command_error_handling,
            navigation_target: parts.navigation_target,
            navigation_type: parts.navigation_type,
            workflow_target: parts.workflow_target,
            external_system: parts.external_system,
            payload_contract: parts.payload_contract,
        }
    }
}

#[derive(Debug, Clone)]
pub struct ViewControlDefinitionParts {
    pub label: DefinitionName,
    pub command: Option<DefinitionName>,
    pub command_error_handling: Vec<ControlCommandErrorHandling>,
    pub navigation_target: Option<DefinitionName>,
    pub navigation_type: NavigationType,
    pub workflow_target: Option<DefinitionName>,
    pub external_system: Option<DefinitionName>,
    pub payload_contract: Option<DefinitionName>,
}

impl ViewControlDefinitionParts {
    pub fn new(label: DefinitionName) -> (r: Self)
        ensures
            r.label == label,
            r.command is None,
            r.command_error_handling@.len() == 0,
            r.navigation_target is None,
            r.navigation_type == NavigationType::Absent,
            r.workflow_target is None,
            r.external_system is None,
            r.payload_contract is None,
    {
        Self {
            label,
            command: None,
            command_error_handling: Vec::new(),
            navigation_target: None,
            navigation_type: NavigationType::Absent,
            workflow_target: None,
            external_system: None,
            payload_contract: None,
        }
    }

    pub fn with_command(self, command: Option<DefinitionName>) -> (r: Self)
        ensures
            r == (Self { command: command, ..self }),
    {
        Self { command, ..self }
    }

    pub fn with_command_error_handling(self, command_error_handling: Vec<ControlCommandErrorHandling>) -> (r: Self)
        ensures
            r == (Self { command_error_handling: command_error_handling, ..self }),
    {
        Self { command_error_handling, ..self }
    }

    pub fn with_navigation_target(self, navigation_target: Option<DefinitionName>) -> (r: Self)
        ensures
            r == (Self { navigation_target: navigation_target, ..self }),
    {
        Self { navigation_target, ..self }
    }

    pub fn with_navigation_type(self, navigation_type: NavigationType) -> (r: Self)
        ensures
            r == (Self { navigation_type: navigation_type, ..self }),
    {
        Self { navigation_type, ..self }
    }

    pub fn with_workflow_target(self, workflow_target: Option<DefinitionName>) -> (r: Self)
        ensures
            r == (Self { workflow_target: workflow_target, ..self }),
    {
        Self { workflow_target, ..self }
    }

    pub fn with_external_system(self, external_system: Option<DefinitionName>) -> (r: Self)
        ensures
            r == (Self { external_system: external_system, ..self }),
    {
        Self { external_system, ..self }
    }

    pub fn with_payload_contract(self, payload_contract: Option<DefinitionName>) -> (r: Self)
        ensures
            r == (Self { payload_contract: payload_contract, ..self }),
    {
        Self { payload_contract, ..self }
    }
}

#[derive(Debug, Clone, Copy, PartialEq, Eq, Structural)]
pub enum NavigationType {
    Absent,
    ModeledView,
    LocalViewState,
    ExternalSystem,
    ExternalWorkflow,
}

#[derive(Debug, Clone)]
pub struct ControlCommandErrorHandling {
    pub error_name: DefinitionName,
    pub recovery_behavior: ControlErrorRecoveryBehavior,
}

impl ControlCommandErrorHandling {
    pub fn new(
        error_name: DefinitionName,
        recovery_behavior: ControlErrorRecoveryBehavior,
    ) -> (r: Self)
        ensures
            r.error_name == error_name,
            r.recovery_behavior == recovery_behavior,
    {
        Self {
            error_name,
            recovery_behavior,
        }
    }
}

#[derive(Debug, Clone, Copy, PartialEq, Eq, Structural)]
pub enum ControlErrorRecoveryBehavior {
    Missing,
    Present,
}

#[derive(Debug, Clone, Copy, PartialEq, Eq, Structural)]
pub enum ViewWireframe {
    Absent,
    Present,
}

#[derive(Debug, Clone)]
pub struct EventDefinition {
    pub name: DefinitionName,
    pub stream: Option<DefinitionName>,
    pub attributes: Vec<EventAttribute>,
}

impl EventDefinition {
    pub fn new(
        name: DefinitionName,
        stream: Option<DefinitionName>,
        attributes: Vec<EventAttribute>,
    ) -> (r: Self)
        ensures
            r.name == name,
            r.stream == stream,
            r.attributes == attributes,
    {
        Self {
            name,
            stream,
            attributes,
        }
    }
}

#[derive(Debug, Clone)]
pub struct EventAttribute {
    pub name: DefinitionName,
    pub source: EventAttributeSource,
}

impl EventAttribute {
    pub fn new(name: DefinitionName, source: EventAttributeSource) -> (r: Self)
        ensures
            r.name == name,
            r.source == source,
    {
        Self { name, source }
    }
}

#[derive(Debug, Clone)]
pub enum EventAttributeSource {
    CommandInput(DefinitionName),
    ExternalField(DefinitionName, DefinitionName),
    GeneratedEmpty,
    ReadModelField(DefinitionName, DefinitionName),
    Other,
}

#[derive(Debug, Clone)]
pub struct ReadModelDefinition {
    pub name: DefinitionName,
    pub fields: Vec<ReadModelField>,
    pub transitive_derivation: ReadModelTransitiveDerivation,
}

impl ReadModelDefinition {
    pub fn new(
        name: DefinitionName,
        fields: Vec<ReadModelField>,
        transitive_derivation: ReadModelTransitiveDerivation,
    ) -> (r: Self)
        ensures
            r.name == name,
            r.fields == fields,
            r.transitive_derivation == transitive_derivation,
    {
        Self {
            name,
            fields,
            transitive_derivation,
        }
    }
}

#[derive(Debug, Clone, Copy, PartialEq, Eq, Structural)]
pub enum ReadModelTransitiveDerivation {
    NotTransitive,
    TransitiveWithoutRule,
    TransitiveComplete,
}

#[derive(Debug, Clone)]
pub struct ReadModelField {
    pub name: DefinitionName,
    pub source: ReadModelFieldSource,
    pub derivation: ReadModelFieldDerivation,
    pub absence_default: ReadModelFieldAbsenceDefault,
}

impl ReadModelField {
    pub fn new(
        name: DefinitionName,
        source: ReadModelFieldSource,
        derivation: ReadModelFieldDerivation,
        absence_default: ReadModelFieldAbsenceDefault,
    ) -> (r: Self)
        ensures
            r.name == name,
            r.source == source,
            r.derivation == derivation,
            r.absence_default == absence_default,
    {
        Self {
            name,
            source,
            derivation,
            absence_default,
        }
    }
}

#[derive(Debug, Clone)]
pub enum ReadModelFieldSource {
    EventAttribute(DefinitionName, DefinitionName),
    Derivation(DefinitionName),
    Other,
}

#[derive(Debug, Clone, Copy, PartialEq, Eq, Structural)]
pub enum ReadModelFieldDerivation {
    NotDerived,
    DerivedWithoutProvenance,
    DerivedWithoutScenarios,
    DerivedComplete,
}

#[derive(Debug, Clone, Copy, PartialEq, Eq, Structural)]
pub enum ReadModelFieldAbsenceDefault {
    NotDefaulted,
    DefaultedWithoutAbsenceEvent,
    DefaultedWithoutScenarios,
    DefaultedComplete,
}

#[derive(Debug, Clone)]
pub struct CommandDefinition {
    pub name: Option<DefinitionName>,
    pub inputs: Vec<DefinitionName>,
    pub input_sources: Vec<CommandInputSource>,
    pub read_model_reads: CommandReadModelReads,
    pub external_inputs: Vec<DefinitionName>,
    pub external_input_schemas: Vec<ExternalInputSchema>,
    pub produces: Vec<DefinitionName>,
    pub errors: Vec<DefinitionName>,
}

impl CommandDefinition {
    pub fn new(parts: CommandDefinitionParts) -> (r: Self)
        ensures
            r.name == parts.name,
            r.inputs == parts.inputs,
            r.input_sources == parts.input_sources,
            r.read_model_reads == parts.read_model_reads,
            r.external_inputs == parts.external_inputs,
            r.external_input_schemas == parts.external_input_schemas,
            r.produces == parts.produces,
            r.errors == parts.errors,
    {
        Self {
            name: parts.name,
            inputs: parts.inputs,
            input_sources: parts.input_sources,
            read_model_reads: parts.read_model_reads,
            external_inputs: parts.external_inputs,
            external_input_schemas: parts.external_input_schemas,
            produces: parts.produces,
            errors: parts.errors,
        }
    }
}

#[derive(Debug, Clone)]
pub struct CommandDefinitionParts {
    pub name: Option<DefinitionName>,
    pub inputs: Vec<DefinitionName>,
    pub input_sources: Vec<CommandInputSource>,
    pub read_model_reads: CommandReadModelReads,
    pub external_inputs: Vec<DefinitionName>,
    pub external_input_schemas: Vec<ExternalInputSchema>,
    pub produces: Vec<DefinitionName>,
    pub errors: Vec<DefinitionName>,
}

impl CommandDefinitionParts {
    pub fn new(name: Option<DefinitionName>) -> (r: Self)
        ensures
            r.name == name,
            r.inputs@.len() == 0,
            r.input_sources@.len() == 0,
            r.read_model_reads == CommandReadModelReads::Absent,
            r.external_inputs@.len() == 0,
            r.external_input_schemas@.len() == 0,
            r.produces@.len() == 0,
            r.errors@.len() == 0,
    {
        Self {
            name,
            inputs: Vec::new(),
            input_sources: Vec::new(),
            read_model_reads: CommandReadModelReads::Absent,
            external_inputs: Vec::new(),
            external_input_schemas: Vec::new(),
            produces: Vec::new(),
            errors: Vec::new(),
        }
    }

    pub fn with_inputs(self, inputs: Vec<DefinitionName>) -> (r: Self)
        ensures
            r == (Self { inputs: inputs, ..self }),
    {
        Self { inputs, ..self }
    }

    pub fn with_input_sources(self, input_sources: Vec<CommandInputSource>) -> (r: Self)
        ensures
            r == (Self { input_sources: input_sources, ..self }),
    {
        Self { input_sources, ..self }
    }

    pub fn with_read_model_reads(self, read_model_reads: CommandReadModelReads) -> (r: Self)
        ensures
            r == (Self { read_model_reads: read_model_reads, ..self }),
    {
        Self { read_model_reads, ..self }
    }

    pub fn with_external_inputs(self, external_inputs: Vec<DefinitionName>) -> (r: Self)
        ensures
            r == (Self { external_inputs: external_inputs, ..self }),
    {
        Self { external_inputs, ..self }
    }

    pub fn with_external_input_schemas(self, external_input_schemas: Vec<ExternalInputSchema>) -> (r: Self)
        ensures
            r == (Self { external_input_schemas: external_input_schemas, ..self }),
    {
        Self { external_input_schemas, ..self }
    }

    pub fn with_produces(self, produces: Vec<DefinitionName>) -> (r: Self)
        ensures
            r == (Self { produces: produces, ..self }),
    {
        Self { produces, ..self }
    }

    pub fn with_errors(self, errors: Vec<DefinitionName>) -> (r: Self)
        ensures
            r == (Self { errors: errors, ..self }),
    {
        Self { errors, ..self }
    }
}

#[derive(Debug, Clone)]
pub struct CommandInputSource {
    pub name: DefinitionName,
    pub source: CommandInputSourceKind,
}

impl CommandInputSource {
    pub fn new(name: DefinitionName, source: CommandInputSourceKind) -> (r: Self)
        ensures
            r.name == name,
            r.source == source,
    {
        Self { name, source }
    }
}

#[derive(Debug, Clone)]
pub enum CommandInputSourceKind {
    ExternalField(DefinitionName, DefinitionName),
    Other,
}

#[derive(Debug, Clone, Copy, PartialEq, Eq, Structural)]
pub enum CommandReadModelReads {
    Absent,
    Present,
}

#[derive(Debug, Clone)]
pub struct ExternalInputSchema {
    pub name: DefinitionName,
    pub fields: Vec<DefinitionName>,
}

impl ExternalInputSchema {
    pub fn new(name: DefinitionName, fields: Vec<DefinitionName>) -> (r: Self)
        ensures
            r.name == name,
            r.fields == fields,
    {
        Self { name, fields }
    }
}

impl ViewDefinition {
    pub fn new(
        name: DefinitionName,
        read_models: Vec<DefinitionName>,
        controls: Vec<ViewControlDefinition>,
        local_states: Vec<DefinitionName>,
        wireframe: ViewWireframe,
    ) -> (r: Self)
        ensures
            r.name == name,
            r.read_models == read_models,
            r.controls == controls,
            r.local_states == local_states,
            r.wireframe == wireframe,
    {
        Self {
            name,
            read_models,
            controls,
            local_states,
            wireframe,
        }
    }
}


} // verus!
