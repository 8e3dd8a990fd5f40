//! The effects a planning function asks its caller to carry out: processes
//! to run, artifacts to write, files to remove and lines to report.

use vstd::prelude::*;

use crate::formal_graph::{
    slice_views, transition_views, SliceView, TransitionView, WorkflowSliceDetail,
    WorkflowTransitionRecord,
};
use crate::workflow_records::{
    command_error_views, lifecycle_state_views, outcome_views, owned_definition_views,
    transition_evidence_views, CommandErrorView, LifecycleStateView, OutcomeView,
    OwnedDefinitionView, TransitionEvidenceView, WorkflowCommandErrorRecord,
    WorkflowEntryLifecycleStateRecord, WorkflowOutcomeRecord, WorkflowOwnedDefinitionRecord,
    WorkflowTransitionEvidenceRecord,
};
use crate::types::{ModelDescription, ModelName, ProjectName, ProjectPath, WorkflowSlug};

verus! {

/// One process to run: a program, its arguments and the line to report when
/// it succeeds.
#[derive(Debug)]
pub struct ProcessInvocation {
    pub program: String,
    pub arguments: Vec<String>,
    pub report: String,
}

/// The language of a generated workflow module.
#[derive(Debug, Clone, Copy, PartialEq, Eq, Structural)]
pub enum ModuleLanguage {
    Lean,
    Quint,
}

/// A workflow module to generate: where it goes, its module name, the
/// workflow it describes and the records of that workflow's graph, from
/// which the module's text and artifact digest are generated.
#[derive(Debug)]
pub struct WorkflowModuleWrite {
    pub language: ModuleLanguage,
    pub path: ProjectPath,
    pub module_name: String,
    pub name: ModelName,
    pub description: ModelDescription,
    pub slug: WorkflowSlug,
    pub slices: Vec<WorkflowSliceDetail>,
    pub transitions: Vec<WorkflowTransitionRecord>,
    pub outcomes: Vec<WorkflowOutcomeRecord>,
    pub command_errors: Vec<WorkflowCommandErrorRecord>,
    pub owned_definitions: Vec<WorkflowOwnedDefinitionRecord>,
    pub transition_evidences: Vec<WorkflowTransitionEvidenceRecord>,
    pub entry_lifecycle_required: bool,
    pub entry_lifecycle_states: Vec<WorkflowEntryLifecycleStateRecord>,
}

/// A workflow module write as plain values.
pub struct ModuleWriteView {
    pub language: ModuleLanguage,
    pub path: Seq<char>,
    pub module_name: Seq<char>,
    pub name: Seq<char>,
    pub description: Seq<char>,
    pub slug: Seq<char>,
    pub slices: Seq<SliceView>,
    pub transitions: Seq<TransitionView>,
    pub outcomes: Seq<OutcomeView>,
    pub command_errors: Seq<CommandErrorView>,
    pub owned_definitions: Seq<OwnedDefinitionView>,
    pub transition_evidences: Seq<TransitionEvidenceView>,
    pub entry_lifecycle_required: bool,
    pub entry_lifecycle_states: Seq<LifecycleStateView>,
}

pub open spec fn module_write_view(w: WorkflowModuleWrite) -> ModuleWriteView {
    ModuleWriteView {
        language: w.language,
        path: w.path@,
        module_name: w.module_name@,
        name: w.name@,
        description: w.description@,
        slug: w.slug@,
        slices: slice_views(w.slices@),
        transitions: transition_views(w.transitions@),
        outcomes: outcome_views(w.outcomes@),
        command_errors: command_error_views(w.command_errors@),
        owned_definitions: owned_definition_views(w.owned_definitions@),
        transition_evidences: transition_evidence_views(w.transition_evidences@),
        entry_lifecycle_required: w.entry_lifecycle_required,
        entry_lifecycle_states: lifecycle_state_views(w.entry_lifecycle_states@),
    }
}

pub open spec fn slug_views(v: Seq<WorkflowSlug>) -> Seq<Seq<char>> {
    v.map_values(|s: WorkflowSlug| s@)
}

/// An effect for the caller to carry out.
#[derive(Debug)]
pub enum Effect {
    /// Regenerate the project root artifacts for a project and the slugs of
    /// its workflows, in order.
    WriteProjectRoot(ProjectName, Vec<WorkflowSlug>),
    /// Generate a workflow module.
    WriteWorkflowModule(WorkflowModuleWrite),
    /// Run one process.
    RunProcess(ProcessInvocation),
    /// Run a batch of processes.
    RunProcessBatch(Vec<ProcessInvocation>),
    /// Remove a file of the project.
    RemoveFile(ProjectPath),
    /// Report a line to the user.
    Report(String),
}

/// The effects of a plan, in order.
#[derive(Debug)]
pub struct EffectPlan {
    pub effects: Vec<Effect>,
}

/// A process invocation as plain text: program, arguments, report line.
pub type InvocationView = (Seq<char>, Seq<Seq<char>>, Seq<char>);

pub open spec fn text_views(v: Seq<String>) -> Seq<Seq<char>> {
    v.map_values(|s: String| s@)
}

pub open spec fn invocation_view(p: ProcessInvocation) -> InvocationView {
    (p.program@, text_views(p.arguments@), p.report@)
}

pub open spec fn invocation_views(v: Seq<ProcessInvocation>) -> Seq<InvocationView> {
    v.map_values(|p: ProcessInvocation| invocation_view(p))
}

/// An effect as plain values.
pub enum EffectView {
    ProjectRoot(Seq<char>, Seq<Seq<char>>),
    WriteModule(ModuleWriteView),
    Run(InvocationView),
    Batch(Seq<InvocationView>),
    Remove(Seq<char>),
    Report(Seq<char>),
}

pub open spec fn effect_view(e: Effect) -> EffectView {
    match e {
        Effect::WriteProjectRoot(project, slugs) => EffectView::ProjectRoot(project@, slug_views(slugs@)),
        Effect::WriteWorkflowModule(w) => EffectView::WriteModule(module_write_view(w)),
        Effect::RunProcess(p) => EffectView::Run(invocation_view(p)),
        Effect::RunProcessBatch(ps) => EffectView::Batch(invocation_views(ps@)),
        Effect::RemoveFile(path) => EffectView::Remove(path@),
        Effect::Report(line) => EffectView::Report(line@),
    }
}

pub open spec fn effect_views(v: Seq<Effect>) -> Seq<EffectView> {
    v.map_values(|e: Effect| effect_view(e))
}

impl View for EffectPlan {
    type V = Seq<EffectView>;

    open spec fn view(&self) -> Seq<EffectView> {
        effect_views(self.effects@)
    }
}

/// Appends `e` to `v`.
pub fn push_effect(v: &mut Vec<Effect>, e: Effect)
    ensures
        effect_views(final(v)@) == effect_views(old(v)@).push(effect_view(e)),
{
    let ghost before = v@;
    let ghost ev = effect_view(e);
    v.push(e);
    assert(effect_views(v@) =~= effect_views(before).push(ev));
}

/// Appends `p` to `v`.
pub fn push_invocation(v: &mut Vec<ProcessInvocation>, p: ProcessInvocation)
    ensures
        invocation_views(final(v)@) == invocation_views(old(v)@).push(invocation_view(p)),
{
    let ghost before = v@;
    let ghost pv = invocation_view(p);
    v.push(p);
    assert(invocation_views(v@) =~= invocation_views(before).push(pv));
}

/// Text made of `a` followed by `b`.
pub fn concat2(a: &str, b: &str) -> (r: String)
    ensures
        r@ == a@ + b@,
{
    let mut s = a.to_owned();
    s.append(b);
    s
}

/// Text made of `a`, `b` and `c`.
pub fn concat3(a: &str, b: &str, c: &str) -> (r: String)
    ensures
        r@ == a@ + b@ + c@,
{
    let mut s = a.to_owned();
    s.append(b);
    s.append(c);
    s
}

} // verus!
