//! The formal graph of a workflow: its name, its description, its slices and
//! its transitions.

use vstd::prelude::*;

use crate::text::{chars_eq, chars_of, has_prefix, starts_with};
use crate::workflow_records::{
    clone_command_errors, clone_lifecycle_states, clone_outcomes, clone_owned_definitions,
    clone_transition_evidences, command_error_views, lifecycle_state_views, outcome_views,
    owned_definition_views, transition_evidence_views, CommandErrorView, LifecycleStateView,
    OutcomeView, OwnedDefinitionView, TransitionEvidenceView, WorkflowCommandErrorRecord,
    WorkflowEntryLifecycleStateRecord, WorkflowOutcomeRecord, WorkflowOwnedDefinitionRecord,
    WorkflowTransitionEvidenceRecord,
};
use crate::types::{
    ModelDescription, ModelName, PayloadContractName, SliceKindName, SliceSlug,
    TransitionTriggerName, WorkflowStepRelationshipName, WorkflowTransitionEndpoint,
    WorkflowTransitionKind,
};

verus! {

/// A slice of a workflow graph: its slug, name, kind, description and its
/// relationship to the workflow's steps.
#[derive(Debug)]
pub struct WorkflowSliceDetail {
    pub slug: SliceSlug,
    pub name: ModelName,
    pub kind: SliceKindName,
    pub description: ModelDescription,
    pub relationship: WorkflowStepRelationshipName,
}

/// A slice as plain text.
pub struct SliceView {
    pub slug: Seq<char>,
    pub name: Seq<char>,
    pub kind: Seq<char>,
    pub description: Seq<char>,
    pub relationship: Seq<char>,
}

impl View for WorkflowSliceDetail {
    type V = SliceView;

    open spec fn view(&self) -> SliceView {
        SliceView {
            slug: self.slug@,
            name: self.name@,
            kind: self.kind@,
            description: self.description@,
            relationship: self.relationship@,
        }
    }
}

impl Clone for WorkflowSliceDetail {
    fn clone(&self) -> (r: Self)
        ensures
            r@ == self@,
    {
        WorkflowSliceDetail {
            slug: self.slug.clone(),
            name: self.name.clone(),
            kind: self.kind.clone(),
            description: self.description.clone(),
            relationship: self.relationship.clone(),
        }
    }
}

/// A transition of a workflow graph: where it leaves from, where it goes,
/// its modeled kind, what triggers it, and the rationale of a workflow exit
/// or the payload contract it carries.
#[derive(Debug)]
pub struct WorkflowTransitionRecord {
    pub source: WorkflowTransitionEndpoint,
    pub target: WorkflowTransitionEndpoint,
    pub kind: WorkflowTransitionKind,
    pub trigger: TransitionTriggerName,
    pub rationale: Option<ModelDescription>,
    pub payload_contract: Option<PayloadContractName>,
}

/// A transition as plain text.
pub struct TransitionView {
    pub source: Seq<char>,
    pub target: Seq<char>,
    pub kind: Seq<char>,
    pub trigger: Seq<char>,
    pub rationale: Option<Seq<char>>,
    pub payload_contract: Option<Seq<char>>,
}

impl View for WorkflowTransitionRecord {
    type V = TransitionView;

    open spec fn view(&self) -> TransitionView {
        TransitionView {
            source: self.source@,
            target: self.target@,
            kind: self.kind@,
            trigger: self.trigger@,
            rationale: match self.rationale {
                Some(r) => Some(r@),
                None => None,
            },
            payload_contract: match self.payload_contract {
                Some(p) => Some(p@),
                None => None,
            },
        }
    }
}

impl Clone for WorkflowTransitionRecord {
    fn clone(&self) -> (r: Self)
        ensures
            r@ == self@,
    {
        let rationale = match &self.rationale {
            Some(r) => Some(r.clone()),
            None => None,
        };
        let payload_contract = match &self.payload_contract {
            Some(p) => Some(p.clone()),
            None => None,
        };
        WorkflowTransitionRecord {
            source: self.source.clone(),
            target: self.target.clone(),
            kind: self.kind.clone(),
            trigger: self.trigger.clone(),
            rationale,
            payload_contract,
        }
    }
}

/// The graph of one workflow: its slices and transitions, and the outcomes,
/// handled command errors, owned definitions, transition evidence and entry
/// lifecycle coverage recorded for it.
#[derive(Debug)]
pub struct FormalWorkflowGraph {
    pub name: ModelName,
    pub description: ModelDescription,
    pub slices: Vec<WorkflowSliceDetail>,
    pub transitions: Vec<WorkflowTransitionRecord>,
    pub outcomes: Vec<WorkflowOutcomeRecord>,
    pub command_errors: Vec<WorkflowCommandErrorRecord>,
    pub owned_definitions: Vec<WorkflowOwnedDefinitionRecord>,
    pub transition_evidences: Vec<WorkflowTransitionEvidenceRecord>,
    pub entry_lifecycle_required: bool,
    pub entry_lifecycle_states: Vec<WorkflowEntryLifecycleStateRecord>,
}

/// A workflow graph as plain values.
pub struct GraphView {
    pub name: Seq<char>,
    pub description: Seq<char>,
    pub slices: Seq<SliceView>,
    pub transitions: Seq<TransitionView>,
    pub outcomes: Seq<OutcomeView>,
    pub command_errors: Seq<CommandErrorView>,
    pub owned_definitions: Seq<OwnedDefinitionView>,
    pub transition_evidences: Seq<TransitionEvidenceView>,
    pub entry_lifecycle_required: bool,
    pub entry_lifecycle_states: Seq<LifecycleStateView>,
}

pub open spec fn slice_views(v: Seq<WorkflowSliceDetail>) -> Seq<SliceView> {
    v.map_values(|d: WorkflowSliceDetail| d@)
}

pub open spec fn transition_views(v: Seq<WorkflowTransitionRecord>) -> Seq<TransitionView> {
    v.map_values(|t: WorkflowTransitionRecord| t@)
}

impl View for FormalWorkflowGraph {
    type V = GraphView;

    open spec fn view(&self) -> GraphView {
        GraphView {
            name: self.name@,
            description: self.description@,
            slices: slice_views(self.slices@),
            transitions: transition_views(self.transitions@),
            outcomes: outcome_views(self.outcomes@),
            command_errors: command_error_views(self.command_errors@),
            owned_definitions: owned_definition_views(self.owned_definitions@),
            transition_evidences: transition_evidence_views(self.transition_evidences@),
            entry_lifecycle_required: self.entry_lifecycle_required,
            entry_lifecycle_states: lifecycle_state_views(self.entry_lifecycle_states@),
        }
    }
}

/// A copy of `v`.
pub fn clone_slices(v: &Vec<WorkflowSliceDetail>) -> (r: Vec<WorkflowSliceDetail>)
    ensures
        slice_views(r@) == slice_views(v@),
{
    let mut out: Vec<WorkflowSliceDetail> = Vec::new();
    let mut i: usize = 0;
    while i < v.len()
        invariant
            i <= v@.len(),
            slice_views(out@) == slice_views(v@).take(i as int),
        decreases v.len() - i,
    {
        let n = v[i].clone();
        let ghost before = out@;
        out.push(n);
        assert(slice_views(out@) =~= slice_views(before).push(v@[i as int]@));
        assert(slice_views(v@).take(i + 1) =~= slice_views(v@).take(i as int).push(v@[i as int]@));
        i = i + 1;
    }
    assert(slice_views(v@).take(v@.len() as int) =~= slice_views(v@));
    out
}

/// A copy of `v`.
pub fn clone_transitions(v: &Vec<WorkflowTransitionRecord>) -> (r: Vec<WorkflowTransitionRecord>)
    ensures
        transition_views(r@) == transition_views(v@),
{
    let mut out: Vec<WorkflowTransitionRecord> = Vec::new();
    let mut i: usize = 0;
    while i < v.len()
        invariant
            i <= v@.len(),
            transition_views(out@) == transition_views(v@).take(i as int),
        decreases v.len() - i,
    {
        let t = v[i].clone();
        let ghost before = out@;
        out.push(t);
        assert(transition_views(out@) =~= transition_views(before).push(v@[i as int]@));
        assert(transition_views(v@).take(i + 1) =~= transition_views(v@).take(i as int).push(
            v@[i as int]@,
        ));
        i = i + 1;
    }
    assert(transition_views(v@).take(v@.len() as int) =~= transition_views(v@));
    out
}

impl Clone for FormalWorkflowGraph {
    fn clone(&self) -> (r: Self)
        ensures
            r@ == self@,
    {
        FormalWorkflowGraph {
            name: self.name.clone(),
            description: self.description.clone(),
            slices: clone_slices(&self.slices),
            transitions: clone_transitions(&self.transitions),
            outcomes: clone_outcomes(&self.outcomes),
            command_errors: clone_command_errors(&self.command_errors),
            owned_definitions: clone_owned_definitions(&self.owned_definitions),
            transition_evidences: clone_transition_evidences(&self.transition_evidences),
            entry_lifecycle_required: self.entry_lifecycle_required,
            entry_lifecycle_states: clone_lifecycle_states(&self.entry_lifecycle_states),
        }
    }
}

/// Whether `t` leaves its workflow for the workflow `slug`.
pub open spec fn exits_to(t: TransitionView, slug: Seq<char>) -> bool {
    starts_with(t.kind, "workflow_exit:"@) && t.target == slug
}

/// Whether some transition of `g` leaves for the workflow `slug`.
pub open spec fn refers_to(g: GraphView, slug: Seq<char>) -> bool {
    exists|j: int| 0 <= j < g.transitions.len() && exits_to(#[trigger] g.transitions[j], slug)
}

/// Whether some transition of `graph` leaves for the workflow `slug`.
pub fn graph_refers_to(graph: &FormalWorkflowGraph, slug: &str) -> (r: bool)
    ensures
        r == refers_to(graph@, slug@),
{
    let exit = chars_of("workflow_exit:");
    let target = chars_of(slug);
    let mut i: usize = 0;
    while i < graph.transitions.len()
        invariant
            i <= graph.transitions@.len(),
            exit@ == "workflow_exit:"@,
            target@ == slug@,
            forall|j: int| 0 <= j < i ==> !exits_to(#[trigger] graph@.transitions[j], slug@),
        decreases graph.transitions.len() - i,
    {
        let t = &graph.transitions[i];
        let kind = chars_of(t.kind.as_str());
        let to = chars_of(t.target.as_str());
        if has_prefix(&kind, &exit) && chars_eq(&to, &target) {
            assert(exits_to(graph@.transitions[i as int], slug@));
            return true;
        }
        i = i + 1;
    }
    false
}

} // verus!
