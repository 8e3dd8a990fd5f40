//! The records a workflow graph keeps beside its slices and transitions:
//! outcomes, handled command errors, owned definitions, transition evidence
//! and entry lifecycle states.

use vstd::prelude::*;

use crate::types::{
    CommandErrorName, CommandName, ModelDescription, OutcomeLabelName, StreamName,
    TransitionTriggerName, WorkflowEntryLifecycleStateName, WorkflowEventParticipation,
    WorkflowOwnedDefinitionKind, WorkflowOwnedDefinitionName, WorkflowTransitionEndpoint,
    WorkflowTransitionEvidenceText, WorkflowTransitionKind, WorkflowViewRole,
};

verus! {

/// An outcome that a slice of the workflow reaches: the slice, its label and whether it matters outside the workflow.
#[derive(Debug)]
pub struct WorkflowOutcomeRecord {
    pub source_slice: WorkflowTransitionEndpoint,
    pub label: OutcomeLabelName,
    pub externally_relevant: bool,
}

/// A [`WorkflowOutcomeRecord`] as plain values.
pub struct OutcomeView {
    pub source_slice: Seq<char>,
    pub label: Seq<char>,
    pub externally_relevant: bool,
}

impl View for WorkflowOutcomeRecord {
    type V = OutcomeView;

    open spec fn view(&self) -> OutcomeView {
        OutcomeView {
            source_slice: self.source_slice@,
            label: self.label@,
            externally_relevant: self.externally_relevant,
        }
    }
}

impl Clone for WorkflowOutcomeRecord {
    fn clone(&self) -> (r: Self)
        ensures
            r@ == self@,
    {
        WorkflowOutcomeRecord {
            source_slice: self.source_slice.clone(),
            label: self.label.clone(),
            externally_relevant: self.externally_relevant,
        }
    }
}

pub open spec fn outcome_views(v: Seq<WorkflowOutcomeRecord>) -> Seq<OutcomeView> {
    v.map_values(|x: WorkflowOutcomeRecord| x@)
}

/// A copy of `v`.
pub fn clone_outcomes(v: &Vec<WorkflowOutcomeRecord>) -> (r: Vec<WorkflowOutcomeRecord>)
    ensures
        outcome_views(r@) == outcome_views(v@),
{
    let mut out: Vec<WorkflowOutcomeRecord> = Vec::new();
    let mut i: usize = 0;
    while i < v.len()
        invariant
            i <= v@.len(),
            outcome_views(out@) == outcome_views(v@).take(i as int),
        decreases v.len() - i,
    {
        let x = v[i].clone();
        let ghost before = out@;
        out.push(x);
        assert(outcome_views(out@) =~= outcome_views(before).push(v@[i as int]@));
        assert(outcome_views(v@).take(i + 1) =~= outcome_views(v@).take(i as int).push(v@[i as int]@));
        i = i + 1;
    }
    assert(outcome_views(v@).take(v@.len() as int) =~= outcome_views(v@));
    out
}

/// A command error that a slice of the workflow handles: the slice, the command and the error.
#[derive(Debug)]
pub struct WorkflowCommandErrorRecord {
    pub source_slice: WorkflowTransitionEndpoint,
    pub command: CommandName,
    pub error: CommandErrorName,
}

/// A [`WorkflowCommandErrorRecord`] as plain values.
pub struct CommandErrorView {
    pub source_slice: Seq<char>,
    pub command: Seq<char>,
    pub error: Seq<char>,
}

impl View for WorkflowCommandErrorRecord {
    type V = CommandErrorView;

    open spec fn view(&self) -> CommandErrorView {
        CommandErrorView {
            source_slice: self.source_slice@,
            command: self.command@,
            error: self.error@,
        }
    }
}

impl Clone for WorkflowCommandErrorRecord {
    fn clone(&self) -> (r: Self)
        ensures
            r@ == self@,
    {
        WorkflowCommandErrorRecord {
            source_slice: self.source_slice.clone(),
            command: self.command.clone(),
            error: self.error.clone(),
        }
    }
}

pub open spec fn command_error_views(v: Seq<WorkflowCommandErrorRecord>) -> Seq<CommandErrorView> {
    v.map_values(|x: WorkflowCommandErrorRecord| x@)
}

/// A copy of `v`.
pub fn clone_command_errors(v: &Vec<WorkflowCommandErrorRecord>) -> (r: Vec<WorkflowCommandErrorRecord>)
    ensures
        command_error_views(r@) == command_error_views(v@),
{
    let mut out: Vec<WorkflowCommandErrorRecord> = Vec::new();
    let mut i: usize = 0;
    while i < v.len()
        invariant
            i <= v@.len(),
            command_error_views(out@) == command_error_views(v@).take(i as int),
        decreases v.len() - i,
    {
        let x = v[i].clone();
        let ghost before = out@;
        out.push(x);
        assert(command_error_views(out@) =~= command_error_views(before).push(v@[i as int]@));
        assert(command_error_views(v@).take(i + 1) =~= command_error_views(v@).take(i as int).push(v@[i as int]@));
        i = i + 1;
    }
    assert(command_error_views(v@).take(v@.len() as int) =~= command_error_views(v@));
    out
}

/// A definition that a slice of the workflow owns: its kind and name, and the stream, provenance, event participation and view role it declares.
#[derive(Debug)]
pub struct WorkflowOwnedDefinitionRecord {
    pub source_slice: WorkflowTransitionEndpoint,
    pub definition_kind: WorkflowOwnedDefinitionKind,
    pub definition_name: WorkflowOwnedDefinitionName,
    pub definition_stream: Option<StreamName>,
    pub source_provenance: Option<ModelDescription>,
    pub event_participation: Option<WorkflowEventParticipation>,
    pub view_role: Option<WorkflowViewRole>,
}

/// A [`WorkflowOwnedDefinitionRecord`] as plain values.
pub struct OwnedDefinitionView {
    pub source_slice: Seq<char>,
    pub definition_kind: Seq<char>,
    pub definition_name: Seq<char>,
    pub definition_stream: Option<Seq<char>>,
    pub source_provenance: Option<Seq<char>>,
    pub event_participation: Option<Seq<char>>,
    pub view_role: Option<Seq<char>>,
}

impl View for WorkflowOwnedDefinitionRecord {
    type V = OwnedDefinitionView;

    open spec fn view(&self) -> OwnedDefinitionView {
        OwnedDefinitionView {
            source_slice: self.source_slice@,
            definition_kind: self.definition_kind@,
            definition_name: self.definition_name@,
            definition_stream: match self.definition_stream {
                Some(x) => Some(x@),
                None => None,
            },
            source_provenance: match self.source_provenance {
                Some(x) => Some(x@),
                None => None,
            },
            event_participation: match self.event_participation {
                Some(x) => Some(x@),
                None => None,
            },
            view_role: match self.view_role {
                Some(x) => Some(x@),
                None => None,
            },
        }
    }
}

impl Clone for WorkflowOwnedDefinitionRecord {
    fn clone(&self) -> (r: Self)
        ensures
            r@ == self@,
    {
        let definition_stream = match &self.definition_stream {
            Some(x) => Some(x.clone()),
            None => None,
        };
        let source_provenance = match &self.source_provenance {
            Some(x) => Some(x.clone()),
            None => None,
        };
        let event_participation = match &self.event_participation {
            Some(x) => Some(x.clone()),
            None => None,
        };
        let view_role = match &self.view_role {
            Some(x) => Some(x.clone()),
            None => None,
        };
        WorkflowOwnedDefinitionRecord {
            source_slice: self.source_slice.clone(),
            definition_kind: self.definition_kind.clone(),
            definition_name: self.definition_name.clone(),
            definition_stream,
            source_provenance,
            event_participation,
            view_role,
        }
    }
}

pub open spec fn owned_definition_views(v: Seq<WorkflowOwnedDefinitionRecord>) -> Seq<OwnedDefinitionView> {
    v.map_values(|x: WorkflowOwnedDefinitionRecord| x@)
}

/// A copy of `v`.
pub fn clone_owned_definitions(v: &Vec<WorkflowOwnedDefinitionRecord>) -> (r: Vec<WorkflowOwnedDefinitionRecord>)
    ensures
        owned_definition_views(r@) == owned_definition_views(v@),
{
    let mut out: Vec<WorkflowOwnedDefinitionRecord> = Vec::new();
    let mut i: usize = 0;
    while i < v.len()
        invariant
            i <= v@.len(),
            owned_definition_views(out@) == owned_definition_views(v@).take(i as int),
        decreases v.len() - i,
    {
        let x = v[i].clone();
        let ghost before = out@;
        out.push(x);
        assert(owned_definition_views(out@) =~= owned_definition_views(before).push(v@[i as int]@));
        assert(owned_definition_views(v@).take(i + 1) =~= owned_definition_views(v@).take(i as int).push(v@[i as int]@));
        i = i + 1;
    }
    assert(owned_definition_views(v@).take(v@.len() as int) =~= owned_definition_views(v@));
    out
}

/// The evidence for a transition of the workflow: its source, target, kind and trigger, and what shows each end.
#[derive(Debug)]
pub struct WorkflowTransitionEvidenceRecord {
    pub source: WorkflowTransitionEndpoint,
    pub target: WorkflowTransitionEndpoint,
    pub via: WorkflowTransitionKind,
    pub name: TransitionTriggerName,
    pub source_evidence: WorkflowTransitionEvidenceText,
    pub target_evidence: WorkflowTransitionEvidenceText,
}

/// A [`WorkflowTransitionEvidenceRecord`] as plain values.
pub struct TransitionEvidenceView {
    pub source: Seq<char>,
    pub target: Seq<char>,
    pub via: Seq<char>,
    pub name: Seq<char>,
    pub source_evidence: Seq<char>,
    pub target_evidence: Seq<char>,
}

impl View for WorkflowTransitionEvidenceRecord {
    type V = TransitionEvidenceView;

    open spec fn view(&self) -> TransitionEvidenceView {
        TransitionEvidenceView {
            source: self.source@,
            target: self.target@,
            via: self.via@,
            name: self.name@,
            source_evidence: self.source_evidence@,
            target_evidence: self.target_evidence@,
        }
    }
}

impl Clone for WorkflowTransitionEvidenceRecord {
    fn clone(&self) -> (r: Self)
        ensures
            r@ == self@,
    {
        WorkflowTransitionEvidenceRecord {
            source: self.source.clone(),
            target: self.target.clone(),
            via: self.via.clone(),
            name: self.name.clone(),
            source_evidence: self.source_evidence.clone(),
            target_evidence: self.target_evidence.clone(),
        }
    }
}

pub open spec fn transition_evidence_views(v: Seq<WorkflowTransitionEvidenceRecord>) -> Seq<TransitionEvidenceView> {
    v.map_values(|x: WorkflowTransitionEvidenceRecord| x@)
}

/// A copy of `v`.
pub fn clone_transition_evidences(v: &Vec<WorkflowTransitionEvidenceRecord>) -> (r: Vec<WorkflowTransitionEvidenceRecord>)
    ensures
        transition_evidence_views(r@) == transition_evidence_views(v@),
{
    let mut out: Vec<WorkflowTransitionEvidenceRecord> = Vec::new();
    let mut i: usize = 0;
    while i < v.len()
        invariant
            i <= v@.len(),
            transition_evidence_views(out@) == transition_evidence_views(v@).take(i as int),
        decreases v.len() - i,
    {
        let x = v[i].clone();
        let ghost before = out@;
        out.push(x);
        assert(transition_evidence_views(out@) =~= transition_evidence_views(before).push(v@[i as int]@));
        assert(transition_evidence_views(v@).take(i + 1) =~= transition_evidence_views(v@).take(i as int).push(v@[i as int]@));
        i = i + 1;
    }
    assert(transition_evidence_views(v@).take(v@.len() as int) =~= transition_evidence_views(v@));
    out
}

/// An entry lifecycle state that a step of the workflow covers, with its evidence.
#[derive(Debug)]
pub struct WorkflowEntryLifecycleStateRecord {
    pub state: WorkflowEntryLifecycleStateName,
    pub step: WorkflowTransitionEndpoint,
    pub evidence: ModelDescription,
}

/// A [`WorkflowEntryLifecycleStateRecord`] as plain values.
pub struct LifecycleStateView {
    pub state: Seq<char>,
    pub step: Seq<char>,
    pub evidence: Seq<char>,
}

impl View for WorkflowEntryLifecycleStateRecord {
    type V = LifecycleStateView;

    open spec fn view(&self) -> LifecycleStateView {
        LifecycleStateView {
            state: self.state@,
            step: self.step@,
            evidence: self.evidence@,
        }
    }
}

impl Clone for WorkflowEntryLifecycleStateRecord {
    fn clone(&self) -> (r: Self)
        ensures
            r@ == self@,
    {
        WorkflowEntryLifecycleStateRecord {
            state: self.state.clone(),
            step: self.step.clone(),
            evidence: self.evidence.clone(),
        }
    }
}

pub open spec fn lifecycle_state_views(v: Seq<WorkflowEntryLifecycleStateRecord>) -> Seq<LifecycleStateView> {
    v.map_values(|x: WorkflowEntryLifecycleStateRecord| x@)
}

/// A copy of `v`.
pub fn clone_lifecycle_states(v: &Vec<WorkflowEntryLifecycleStateRecord>) -> (r: Vec<WorkflowEntryLifecycleStateRecord>)
    ensures
        lifecycle_state_views(r@) == lifecycle_state_views(v@),
{
    let mut out: Vec<WorkflowEntryLifecycleStateRecord> = Vec::new();
    let mut i: usize = 0;
    while i < v.len()
        invariant
            i <= v@.len(),
            lifecycle_state_views(out@) == lifecycle_state_views(v@).take(i as int),
        decreases v.len() - i,
    {
        let x = v[i].clone();
        let ghost before = out@;
        out.push(x);
        assert(lifecycle_state_views(out@) =~= lifecycle_state_views(before).push(v@[i as int]@));
        assert(lifecycle_state_views(v@).take(i + 1) =~= lifecycle_state_views(v@).take(i as int).push(v@[i as int]@));
        i = i + 1;
    }
    assert(lifecycle_state_views(v@).take(v@.len() as int) =~= lifecycle_state_views(v@));
    out
}

} // verus!
