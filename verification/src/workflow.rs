//! Planning changes to the workflows of a project: adding a workflow,
//! renaming it, describing it anew and removing it.

use vstd::prelude::*;

use crate::effect::{
    concat2, concat3, effect_view, effect_views, push_effect, slug_views, Effect, EffectPlan,
    EffectView, ModuleLanguage, ModuleWriteView, WorkflowModuleWrite,
};
use crate::formal_graph::{
    graph_refers_to, refers_to, slice_views, transition_views, FormalWorkflowGraph, GraphView,
    SliceView, TransitionView,
};
use crate::workflow_records::{
    command_error_views, lifecycle_state_views, outcome_views, owned_definition_views,
    transition_evidence_views, CommandErrorView, LifecycleStateView, OutcomeView,
    OwnedDefinitionView, TransitionEvidenceView,
};
use crate::search::{first_item, is_first, lemma_first_item, some_item};
use crate::text::{
    ascii_alnum, ascii_upper, chars_of, is_ascii_alnum, starts_with, str_eq, string_from_chars,
    to_ascii_upper,
};
use crate::types::{ModelDescription, ModelName, ProjectName, ProjectPath, WorkflowSlug};
use crate::verify::{root_lean, root_quint, slice_lean, slice_quint, ModeledWorkflowLayout};

verus! {

// ---- module names ----

/// The module name of `raw` after reading it left to right: each run of
/// ASCII letters and digits with its first character upper-cased and the
/// others kept, and whether the next such character starts a run.
pub open spec fn title_fold(raw: Seq<char>) -> (Seq<char>, bool)
    decreases raw.len(),
{
    if raw.len() == 0 {
        (Seq::empty(), true)
    } else {
        let prior = title_fold(raw.drop_last());
        let c = raw.last();
        if is_ascii_alnum(c) {
            (prior.0.push(if prior.1 { ascii_upper(c) } else { c }), false)
        } else {
            (prior.0, true)
        }
    }
}

/// The module name generated for a workflow or slice named `raw`: its runs
/// of ASCII letters and digits, each with its first character upper-cased,
/// joined together.
pub open spec fn workflow_module_of(raw: Seq<char>) -> Seq<char> {
    title_fold(raw).0
}

/// Whether every character of `s` is an ASCII letter or digit.
pub open spec fn all_alnum(s: Seq<char>) -> bool {
    forall|i: int| 0 <= i < s.len() ==> is_ascii_alnum(#[trigger] s[i])
}

pub proof fn lemma_title_fold_alnum(raw: Seq<char>)
    ensures
        all_alnum(title_fold(raw).0),
    decreases raw.len(),
{
    if raw.len() > 0 {
        lemma_title_fold_alnum(raw.drop_last());
        let prior = title_fold(raw.drop_last());
        let c = raw.last();
        if is_ascii_alnum(c) {
            let d = if prior.1 { ascii_upper(c) } else { c };
            assert(is_ascii_alnum(d));
            assert forall|i: int| 0 <= i < prior.0.push(d).len() implies is_ascii_alnum(
                #[trigger] prior.0.push(d)[i],
            ) by {
                if i < prior.0.len() {
                    assert(prior.0.push(d)[i] == prior.0[i]);
                }
            }
        }
    }
}

/// The module name generated for a workflow or slice named `raw`.
pub fn workflow_module_name(raw: &str) -> (r: String)
    ensures
        r@ == workflow_module_of(raw@),
        all_alnum(r@),
{
    let v = chars_of(raw);
    let mut out: Vec<char> = Vec::new();
    let mut start = true;
    let mut i: usize = 0;
    assert(v@.take(0) =~= Seq::<char>::empty());
    while i < v.len()
        invariant
            i <= v@.len(),
            v@ == raw@,
            (out@, start) == title_fold(v@.take(i as int)),
        decreases v.len() - i,
    {
        proof {
            assert(v@.take(i + 1).drop_last() =~= v@.take(i as int));
        }
        let c = v[i];
        if ascii_alnum(c) {
            if start {
                out.push(to_ascii_upper(c));
            } else {
                out.push(c);
            }
            start = false;
        } else {
            start = true;
        }
        i = i + 1;
    }
    assert(v@.take(v@.len() as int) =~= v@);
    proof {
        lemma_title_fold_alnum(raw@);
    }
    string_from_chars(&out)
}

fn artifact_path(prefix: &str, module: &String, suffix: &str) -> (r: ProjectPath)
    requires
        all_alnum(module@),
        prefix@ == "model/lean/"@ || prefix@ == "model/quint/"@ || prefix@ == "model/lean/slices/"@
            || prefix@ == "model/quint/slices/"@,
        suffix@ == ".lean"@ || suffix@ == ".qnt"@,
    ensures
        r@ == prefix@ + module@ + suffix@,
{
    proof {
        reveal_strlit("model/lean/");
        reveal_strlit("model/quint/");
        reveal_strlit("model/lean/slices/");
        reveal_strlit("model/quint/slices/");
        reveal_strlit(".lean");
        reveal_strlit(".qnt");
    }
    ProjectPath::generated(prefix, module.as_str(), suffix)
}

// ---- the values the planner works on ----

/// A workflow to add: its name, description and slug.
#[derive(Debug)]
pub struct NewWorkflow {
    name: ModelName,
    description: ModelDescription,
    slug: WorkflowSlug,
}

/// A new workflow as plain text.
pub struct NewWorkflowView {
    pub name: Seq<char>,
    pub description: Seq<char>,
    pub slug: Seq<char>,
}

impl View for NewWorkflow {
    type V = NewWorkflowView;

    closed spec fn view(&self) -> NewWorkflowView {
        NewWorkflowView { name: self.name@, description: self.description@, slug: self.slug@ }
    }
}

impl NewWorkflow {
    pub fn new(name: ModelName, description: ModelDescription, slug: WorkflowSlug) -> (r: Self)
        ensures
            r@ == (NewWorkflowView { name: name@, description: description@, slug: slug@ }),
    {
        NewWorkflow { name, description, slug }
    }
}

/// The graph of a workflow together with the slug it is indexed under.
#[derive(Debug)]
pub struct IndexedWorkflowGraph {
    slug: WorkflowSlug,
    graph: FormalWorkflowGraph,
}

/// An indexed graph as plain values.
pub struct IndexedGraphView {
    pub slug: Seq<char>,
    pub graph: GraphView,
}

impl View for IndexedWorkflowGraph {
    type V = IndexedGraphView;

    closed spec fn view(&self) -> IndexedGraphView {
        IndexedGraphView { slug: self.slug@, graph: self.graph@ }
    }
}

impl IndexedWorkflowGraph {
    pub fn new(slug: WorkflowSlug, graph: FormalWorkflowGraph) -> (r: Self)
        ensures
            r@ == (IndexedGraphView { slug: slug@, graph: graph@ }),
    {
        IndexedWorkflowGraph { slug, graph }
    }

    pub fn slug(&self) -> (r: &WorkflowSlug)
        ensures
            r@ == self@.slug,
    {
        &self.slug
    }

    pub fn graph(&self) -> (r: &FormalWorkflowGraph)
        ensures
            r@ == self@.graph,
    {
        &self.graph
    }
}

/// The graphs of all workflows of a project, in index order.
#[derive(Debug)]
pub struct IndexedWorkflowGraphs {
    graphs: Vec<IndexedWorkflowGraph>,
}

impl View for IndexedWorkflowGraphs {
    type V = Seq<IndexedGraphView>;

    closed spec fn view(&self) -> Seq<IndexedGraphView> {
        self.graphs@.map_values(|g: IndexedWorkflowGraph| g@)
    }
}

impl IndexedWorkflowGraphs {
    pub fn new(graphs: Vec<IndexedWorkflowGraph>) -> (r: Self)
        ensures
            r@ == graphs@.map_values(|g: IndexedWorkflowGraph| g@),
    {
        IndexedWorkflowGraphs { graphs }
    }
}

/// Why a workflow change was refused.
#[derive(Debug)]
pub struct WorkflowMutationError {
    message: String,
}

impl View for WorkflowMutationError {
    type V = Seq<char>;

    closed spec fn view(&self) -> Seq<char> {
        self.message@
    }
}

impl WorkflowMutationError {
    fn new(message: String) -> (r: Self)
        ensures
            r@ == message@,
    {
        WorkflowMutationError { message }
    }

    /// The message that explains the refusal.
    pub fn message(&self) -> (r: &str)
        ensures
            r@ == self@,
    {
        self.message.as_str()
    }
}

// ---- searching ----

/// The layouts indexed under `slug`.
pub open spec fn slug_is(slug: Seq<char>) -> spec_fn(ModeledWorkflowLayout) -> bool {
    |w: ModeledWorkflowLayout| w.slug@ == slug
}

/// The layouts of other workflows whose module name is `module`.
pub open spec fn module_clash(slug: Seq<char>, module: Seq<char>) -> spec_fn(ModeledWorkflowLayout) -> bool {
    |w: ModeledWorkflowLayout| w.slug@ != slug && workflow_module_of(w.name@) == module
}

/// The graphs indexed under `slug`.
pub open spec fn graph_slug_is(slug: Seq<char>) -> spec_fn(IndexedGraphView) -> bool {
    |g: IndexedGraphView| g.slug == slug
}

/// The graphs of other workflows that leave for the workflow `slug`.
pub open spec fn refers_elsewhere(slug: Seq<char>) -> spec_fn(IndexedGraphView) -> bool {
    |g: IndexedGraphView| g.slug != slug && refers_to(g.graph, slug)
}

fn find_layout(ws: &Vec<ModeledWorkflowLayout>, slug: &WorkflowSlug) -> (r: Option<usize>)
    ensures
        match r {
            Some(i) => is_first(ws@, slug_is(slug@), i as int),
            None => !some_item(ws@, slug_is(slug@)),
        },
{
    let mut i: usize = 0;
    while i < ws.len()
        invariant
            i <= ws@.len(),
            forall|j: int| 0 <= j < i ==> !slug_is(slug@)(#[trigger] ws@[j]),
        decreases ws.len() - i,
    {
        if str_eq(ws[i].slug.as_str(), slug.as_str()) {
            return Some(i);
        }
        i = i + 1;
    }
    None
}

fn module_collision(ws: &Vec<ModeledWorkflowLayout>, slug: &WorkflowSlug, module: &String) -> (r: bool)
    ensures
        r == some_item(ws@, module_clash(slug@, module@)),
{
    let mut i: usize = 0;
    while i < ws.len()
        invariant
            i <= ws@.len(),
            forall|j: int| 0 <= j < i ==> !module_clash(slug@, module@)(#[trigger] ws@[j]),
        decreases ws.len() - i,
    {
        let other = workflow_module_name(ws[i].name.as_str());
        if !str_eq(ws[i].slug.as_str(), slug.as_str()) && str_eq(other.as_str(), module.as_str()) {
            assert(module_clash(slug@, module@)(ws@[i as int]));
            return true;
        }
        i = i + 1;
    }
    false
}

fn find_graph(graphs: &IndexedWorkflowGraphs, slug: &WorkflowSlug) -> (r: Option<usize>)
    ensures
        match r {
            Some(i) => is_first(graphs@, graph_slug_is(slug@), i as int) && i < graphs.graphs@.len(),
            None => !some_item(graphs@, graph_slug_is(slug@)),
        },
{
    let mut i: usize = 0;
    while i < graphs.graphs.len()
        invariant
            i <= graphs.graphs@.len(),
            graphs@.len() == graphs.graphs@.len(),
            forall|j: int| 0 <= j < i ==> !graph_slug_is(slug@)(#[trigger] graphs@[j]),
        decreases graphs.graphs.len() - i,
    {
        if str_eq(graphs.graphs[i].slug.as_str(), slug.as_str()) {
            assert(graph_slug_is(slug@)(graphs@[i as int]));
            return Some(i);
        }
        assert(!graph_slug_is(slug@)(graphs@[i as int]));
        i = i + 1;
    }
    None
}

fn find_referencing(graphs: &IndexedWorkflowGraphs, slug: &WorkflowSlug) -> (r: Option<usize>)
    ensures
        match r {
            Some(i) => is_first(graphs@, refers_elsewhere(slug@), i as int) && i < graphs.graphs@.len(),
            None => !some_item(graphs@, refers_elsewhere(slug@)),
        },
{
    let mut i: usize = 0;
    while i < graphs.graphs.len()
        invariant
            i <= graphs.graphs@.len(),
            graphs@.len() == graphs.graphs@.len(),
            forall|j: int| 0 <= j < i ==> !refers_elsewhere(slug@)(#[trigger] graphs@[j]),
        decreases graphs.graphs.len() - i,
    {
        let g = &graphs.graphs[i];
        if !str_eq(g.slug.as_str(), slug.as_str()) && graph_refers_to(&g.graph, slug.as_str()) {
            assert(refers_elsewhere(slug@)(graphs@[i as int]));
            return Some(i);
        }
        assert(!refers_elsewhere(slug@)(graphs@[i as int]));
        i = i + 1;
    }
    None
}

// ---- the plans ----

/// Generating the module of the workflow `w` in `language` at `path`, with
/// the records of its graph `g`.
pub open spec fn module_write(
    language: ModuleLanguage,
    path: Seq<char>,
    module: Seq<char>,
    w: NewWorkflowView,
    g: GraphView,
) -> EffectView {
    EffectView::WriteModule(
        ModuleWriteView {
            language,
            path,
            module_name: module,
            name: w.name,
            description: w.description,
            slug: w.slug,
            slices: g.slices,
            transitions: g.transitions,
            outcomes: g.outcomes,
            command_errors: g.command_errors,
            owned_definitions: g.owned_definitions,
            transition_evidences: g.transition_evidences,
            entry_lifecycle_required: g.entry_lifecycle_required,
            entry_lifecycle_states: g.entry_lifecycle_states,
        },
    )
}

/// The graph of a workflow that has only just been added: its name and
/// description, and no slices, transitions or other records.
pub open spec fn blank_graph(w: NewWorkflowView) -> GraphView {
    GraphView {
        name: w.name,
        description: w.description,
        slices: Seq::empty(),
        transitions: Seq::empty(),
        outcomes: Seq::empty(),
        command_errors: Seq::empty(),
        owned_definitions: Seq::empty(),
        transition_evidences: Seq::empty(),
        entry_lifecycle_required: false,
        entry_lifecycle_states: Seq::empty(),
    }
}

/// The slugs of `ws`, in order.
pub open spec fn layout_slugs(ws: Seq<ModeledWorkflowLayout>) -> Seq<Seq<char>> {
    ws.map_values(|w: ModeledWorkflowLayout| w.slug@)
}

/// Adding `w` to a project whose workflows are `existing`: regenerate the
/// project root for the workflows with `w` last, generate the Lean4 and
/// Quint modules of `w` with a blank graph, and report it.
pub open spec fn add_plan(project: Seq<char>, existing: Seq<ModeledWorkflowLayout>, w: NewWorkflowView) -> Seq<
    EffectView,
> {
    let m = workflow_module_of(w.name);
    seq![
        EffectView::ProjectRoot(project, layout_slugs(existing).push(w.slug)),
        module_write(ModuleLanguage::Lean, root_lean(m), m, w, blank_graph(w)),
        module_write(ModuleLanguage::Quint, root_quint(m), m, w, blank_graph(w)),
        EffectView::Report("added workflow "@ + w.name),
    ]
}

/// Removing the modules of a workflow whose module name was `previous`,
/// when it is no longer `m`.
pub open spec fn cleanup(previous: Option<Seq<char>>, m: Seq<char>) -> Seq<EffectView> {
    match previous {
        Some(p) => if p != m {
            seq![EffectView::Remove(root_lean(p)), EffectView::Remove(root_quint(p))]
        } else {
            Seq::empty()
        },
        None => Seq::empty(),
    }
}

/// Regenerating the modules of the workflow `w` from its graph `g`, after
/// removing those under its previous module name when that changed.
pub open spec fn update_plan(w: NewWorkflowView, g: GraphView, previous: Option<Seq<char>>) -> Seq<EffectView> {
    let m = workflow_module_of(w.name);
    cleanup(previous, m) + seq![
        module_write(ModuleLanguage::Lean, root_lean(m), m, w, g),
        module_write(ModuleLanguage::Quint, root_quint(m), m, w, g),
        EffectView::Report("updated workflow "@ + w.name),
    ]
}

/// The slugs of the layouts of `ws` other than `slug`, in order.
pub open spec fn other_slugs(ws: Seq<ModeledWorkflowLayout>, slug: Seq<char>) -> Seq<Seq<char>>
    decreases ws.len(),
{
    if ws.len() == 0 {
        Seq::empty()
    } else {
        let rest = other_slugs(ws.drop_last(), slug);
        if ws.last().slug@ != slug {
            rest.push(ws.last().slug@)
        } else {
            rest
        }
    }
}

/// Removing the Lean4 and Quint modules of each slice named in `slices`.
pub open spec fn slice_removals(slices: Seq<SliceView>) -> Seq<EffectView>
    decreases slices.len(),
{
    if slices.len() == 0 {
        Seq::empty()
    } else {
        let m = workflow_module_of(slices.last().name);
        slice_removals(slices.drop_last()) + seq![
            EffectView::Remove(slice_lean(m)),
            EffectView::Remove(slice_quint(m)),
        ]
    }
}

/// Removing the workflow `slug`, named `name`, whose graph has the slices
/// `slices`: regenerate the project root for the other workflows, remove
/// the modules of the workflow and of its slices, and report it.
pub open spec fn remove_plan(
    project: Seq<char>,
    existing: Seq<ModeledWorkflowLayout>,
    slug: Seq<char>,
    name: Seq<char>,
    slices: Seq<SliceView>,
) -> Seq<EffectView> {
    let m = workflow_module_of(name);
    seq![
        EffectView::ProjectRoot(project, other_slugs(existing, slug)),
        EffectView::Remove(root_lean(m)),
        EffectView::Remove(root_quint(m)),
    ] + slice_removals(slices) + seq![EffectView::Report("removed workflow "@ + name)]
}

// ---- the messages ----

pub open spec fn unknown_message(slug: Seq<char>) -> Seq<char> {
    "unknown workflow "@ + slug
}

pub open spec fn slug_taken_message(slug: Seq<char>) -> Seq<char> {
    "workflow "@ + slug + " already exists"@
}

pub open spec fn module_taken_message(module: Seq<char>) -> Seq<char> {
    "workflow module "@ + module + " already exists"@
}

pub open spec fn name_mismatch_message(graph_name: Seq<char>, index_name: Seq<char>) -> Seq<char> {
    "workflow graph name '"@ + graph_name + "' does not match index name '"@ + index_name + "'"@
}

pub open spec fn description_mismatch_message(graph_description: Seq<char>, index_description: Seq<char>) -> Seq<
    char,
> {
    "workflow graph description '"@ + graph_description + "' does not match index description '"@
        + index_description + "'"@
}

pub open spec fn referenced_message(slug: Seq<char>, by: Seq<char>) -> Seq<char> {
    "workflow "@ + slug + " is referenced by workflow "@ + by
}

pub open spec fn graph_missing_message(slug: Seq<char>) -> Seq<char> {
    "workflow "@ + slug + " graph is missing"@
}

// ---- the outcomes ----

/// A plan or a refusal, as plain values.
pub open spec fn outcome_of(r: Result<EffectPlan, WorkflowMutationError>) -> Result<Seq<EffectView>, Seq<char>> {
    match r {
        Ok(plan) => Ok(plan@),
        Err(e) => Err(e@),
    }
}

/// Adding `w`: refused when its slug is taken, or when another workflow
/// has its module name; planned otherwise.
pub open spec fn add_outcome(project: Seq<char>, existing: Seq<ModeledWorkflowLayout>, w: NewWorkflowView) -> Result<
    Seq<EffectView>,
    Seq<char>,
> {
    let m = workflow_module_of(w.name);
    if some_item(existing, slug_is(w.slug)) {
        Err(slug_taken_message(w.slug))
    } else if some_item(existing, module_clash(w.slug, m)) {
        Err(module_taken_message(m))
    } else {
        Ok(add_plan(project, existing, w))
    }
}

/// Describing the workflow `slug` anew as `description`, from its graph `g`.
pub open spec fn update_description_outcome(
    existing: Seq<ModeledWorkflowLayout>,
    g: GraphView,
    slug: Seq<char>,
    description: Seq<char>,
) -> Result<Seq<EffectView>, Seq<char>> {
    if !some_item(existing, slug_is(slug)) {
        Err(unknown_message(slug))
    } else {
        let e = first_item(existing, slug_is(slug));
        if g.name != e.name@ {
            Err(name_mismatch_message(g.name, e.name@))
        } else {
            Ok(update_plan(NewWorkflowView { name: g.name, description, slug }, g, None))
        }
    }
}

/// Renaming the workflow `slug` to `name`, from its graph `g`.
pub open spec fn update_name_outcome(
    existing: Seq<ModeledWorkflowLayout>,
    g: GraphView,
    slug: Seq<char>,
    name: Seq<char>,
) -> Result<Seq<EffectView>, Seq<char>> {
    if !some_item(existing, slug_is(slug)) {
        Err(unknown_message(slug))
    } else {
        let e = first_item(existing, slug_is(slug));
        let m = workflow_module_of(name);
        if some_item(existing, module_clash(slug, m)) {
            Err(module_taken_message(m))
        } else if g.name != e.name@ {
            Err(name_mismatch_message(g.name, e.name@))
        } else if g.description != e.description@ {
            Err(description_mismatch_message(g.description, e.description@))
        } else {
            Ok(
                update_plan(
                    NewWorkflowView { name, description: e.description@, slug },
                    g,
                    Some(workflow_module_of(e.name@)),
                ),
            )
        }
    }
}

/// Removing the workflow `slug`: refused when it is unknown, when another
/// workflow leaves for it, when its graph is missing or names another
/// workflow; planned otherwise.
pub open spec fn remove_outcome(
    project: Seq<char>,
    existing: Seq<ModeledWorkflowLayout>,
    graphs: Seq<IndexedGraphView>,
    slug: Seq<char>,
) -> Result<Seq<EffectView>, Seq<char>> {
    if !some_item(existing, slug_is(slug)) {
        Err(unknown_message(slug))
    } else {
        let removed = first_item(existing, slug_is(slug));
        if some_item(graphs, refers_elsewhere(slug)) {
            Err(referenced_message(slug, first_item(graphs, refers_elsewhere(slug)).slug))
        } else if !some_item(graphs, graph_slug_is(slug)) {
            Err(graph_missing_message(slug))
        } else {
            let g = first_item(graphs, graph_slug_is(slug)).graph;
            if g.name != removed.name@ {
                Err(name_mismatch_message(g.name, removed.name@))
            } else {
                Ok(remove_plan(project, existing, slug, removed.name@, g.slices))
            }
        }
    }
}

// ---- building the plans ----

fn slugs_of(ws: &Vec<ModeledWorkflowLayout>) -> (r: Vec<WorkflowSlug>)
    ensures
        slug_views(r@) == layout_slugs(ws@),
{
    let mut out: Vec<WorkflowSlug> = Vec::new();
    let mut i: usize = 0;
    while i < ws.len()
        invariant
            i <= ws@.len(),
            slug_views(out@) == layout_slugs(ws@).take(i as int),
        decreases ws.len() - i,
    {
        let ghost before = out@;
        out.push(ws[i].slug.clone());
        assert(slug_views(out@) =~= slug_views(before).push(ws@[i as int].slug@));
        assert(layout_slugs(ws@).take(i + 1) =~= layout_slugs(ws@).take(i as int).push(
            ws@[i as int].slug@,
        ));
        i = i + 1;
    }
    assert(layout_slugs(ws@).take(ws@.len() as int) =~= layout_slugs(ws@));
    out
}

fn other_layout_slugs(ws: &Vec<ModeledWorkflowLayout>, slug: &WorkflowSlug) -> (r: Vec<WorkflowSlug>)
    ensures
        slug_views(r@) == other_slugs(ws@, slug@),
{
    let mut out: Vec<WorkflowSlug> = Vec::new();
    let mut i: usize = 0;
    assert(ws@.take(0) =~= Seq::<ModeledWorkflowLayout>::empty());
    while i < ws.len()
        invariant
            i <= ws@.len(),
            slug_views(out@) == other_slugs(ws@.take(i as int), slug@),
        decreases ws.len() - i,
    {
        assert(ws@.take(i + 1).drop_last() =~= ws@.take(i as int));
        assert(ws@.take(i + 1).last() == ws@[i as int]);
        if !str_eq(ws[i].slug.as_str(), slug.as_str()) {
            let ghost before = out@;
            out.push(ws[i].slug.clone());
            assert(slug_views(out@) =~= slug_views(before).push(ws@[i as int].slug@));
        }
        i = i + 1;
    }
    assert(ws@.take(ws@.len() as int) =~= ws@);
    out
}

fn module_effect(
    language: ModuleLanguage,
    path: ProjectPath,
    module: &String,
    w: &NewWorkflow,
    graph: FormalWorkflowGraph,
) -> (r: Effect)
    ensures
        effect_view(r) == module_write(language, path@, module@, w@, graph@),
{
    let FormalWorkflowGraph {
        name: _,
        description: _,
        slices,
        transitions,
        outcomes,
        command_errors,
        owned_definitions,
        transition_evidences,
        entry_lifecycle_required,
        entry_lifecycle_states,
    } = graph;
    Effect::WriteWorkflowModule(
        WorkflowModuleWrite {
            language,
            path,
            module_name: module.clone(),
            name: w.name.clone(),
            description: w.description.clone(),
            slug: w.slug.clone(),
            slices,
            transitions,
            outcomes,
            command_errors,
            owned_definitions,
            transition_evidences,
            entry_lifecycle_required,
            entry_lifecycle_states,
        },
    )
}

fn blank_graph_of(w: &NewWorkflow) -> (r: FormalWorkflowGraph)
    ensures
        r@ == blank_graph(w@),
{
    let r = FormalWorkflowGraph {
        name: w.name.clone(),
        description: w.description.clone(),
        slices: Vec::new(),
        transitions: Vec::new(),
        outcomes: Vec::new(),
        command_errors: Vec::new(),
        owned_definitions: Vec::new(),
        transition_evidences: Vec::new(),
        entry_lifecycle_required: false,
        entry_lifecycle_states: Vec::new(),
    };
    assert(slice_views(r.slices@) =~= Seq::<SliceView>::empty());
    assert(transition_views(r.transitions@) =~= Seq::<TransitionView>::empty());
    assert(outcome_views(r.outcomes@) =~= Seq::<OutcomeView>::empty());
    assert(command_error_views(r.command_errors@) =~= Seq::<CommandErrorView>::empty());
    assert(owned_definition_views(r.owned_definitions@) =~= Seq::<OwnedDefinitionView>::empty());
    assert(transition_evidence_views(r.transition_evidences@) =~= Seq::<TransitionEvidenceView>::empty());
    assert(lifecycle_state_views(r.entry_lifecycle_states@) =~= Seq::<LifecycleStateView>::empty());
    r
}

fn workflow_effect_plan(
    project_name: ProjectName,
    existing: &Vec<ModeledWorkflowLayout>,
    workflow: &NewWorkflow,
) -> (r: EffectPlan)
    ensures
        r@ == add_plan(project_name@, existing@, workflow@),
{
    let mut slugs = slugs_of(existing);
    let ghost s0 = slug_views(slugs@);
    slugs.push(workflow.slug.clone());
    assert(slug_views(slugs@) =~= s0.push(workflow@.slug));
    let m = workflow_module_name(workflow.name.as_str());
    let mut effects: Vec<Effect> = Vec::new();
    push_effect(&mut effects, Effect::WriteProjectRoot(project_name, slugs));
    let lean = module_effect(
        ModuleLanguage::Lean,
        artifact_path("model/lean/", &m, ".lean"),
        &m,
        workflow,
        blank_graph_of(workflow),
    );
    push_effect(&mut effects, lean);
    let quint = module_effect(
        ModuleLanguage::Quint,
        artifact_path("model/quint/", &m, ".qnt"),
        &m,
        workflow,
        blank_graph_of(workflow),
    );
    push_effect(&mut effects, quint);
    push_effect(&mut effects, Effect::Report(concat2("added workflow ", workflow.name.as_str())));
    assert(effect_views(effects@) =~= add_plan(project_name@, existing@, workflow@));
    EffectPlan { effects }
}

/// The text of an optional module name.
pub open spec fn optional_text(o: Option<String>) -> Option<Seq<char>> {
    match o {
        Some(p) => Some(p@),
        None => None,
    }
}

fn update_workflow_effect_plan(
    workflow: &NewWorkflow,
    graph: FormalWorkflowGraph,
    previous_module_name: Option<String>,
) -> (r: EffectPlan)
    requires
        previous_module_name matches Some(p) ==> all_alnum(p@),
    ensures
        r@ == update_plan(workflow@, graph@, optional_text(previous_module_name)),
{
    let ghost g = graph@;
    let m = workflow_module_name(workflow.name.as_str());
    let mut effects: Vec<Effect> = Vec::new();
    match previous_module_name {
        Some(p) => {
            if !str_eq(p.as_str(), m.as_str()) {
                push_effect(&mut effects, Effect::RemoveFile(artifact_path("model/lean/", &p, ".lean")));
                push_effect(&mut effects, Effect::RemoveFile(artifact_path("model/quint/", &p, ".qnt")));
            }
        },
        None => {},
    }
    let ghost head = effect_views(effects@);
    assert(head =~= cleanup(optional_text(previous_module_name), m@));
    let lean = module_effect(
        ModuleLanguage::Lean,
        artifact_path("model/lean/", &m, ".lean"),
        &m,
        workflow,
        graph.clone(),
    );
    push_effect(&mut effects, lean);
    let quint = module_effect(
        ModuleLanguage::Quint,
        artifact_path("model/quint/", &m, ".qnt"),
        &m,
        workflow,
        graph,
    );
    push_effect(&mut effects, quint);
    push_effect(&mut effects, Effect::Report(concat2("updated workflow ", workflow.name.as_str())));
    assert(effect_views(effects@) =~= update_plan(workflow@, g, optional_text(previous_module_name)));
    EffectPlan { effects }
}

fn refusal(message: String) -> (r: Result<EffectPlan, WorkflowMutationError>)
    ensures
        outcome_of(r) == Err::<Seq<EffectView>, Seq<char>>(message@),
{
    Err(WorkflowMutationError::new(message))
}

fn name_mismatch(graph_name: &ModelName, index_name: &ModelName) -> (r: String)
    ensures
        r@ == name_mismatch_message(graph_name@, index_name@),
{
    let head = concat3("workflow graph name '", graph_name.as_str(), "' does not match index name '");
    concat3(head.as_str(), index_name.as_str(), "'")
}

/// Plans adding `workflow` to a project whose workflows are
/// `existing_workflows`; refuses a slug or a module name that is taken.
pub fn add_workflow(
    project_name: ProjectName,
    existing_workflows: Vec<ModeledWorkflowLayout>,
    workflow: NewWorkflow,
) -> (r: Result<EffectPlan, WorkflowMutationError>)
    ensures
        outcome_of(r) == add_outcome(project_name@, existing_workflows@, workflow@),
{
    if find_layout(&existing_workflows, &workflow.slug).is_some() {
        return refusal(concat3("workflow ", workflow.slug.as_str(), " already exists"));
    }
    let m = workflow_module_name(workflow.name.as_str());
    if module_collision(&existing_workflows, &workflow.slug, &m) {
        return refusal(concat3("workflow module ", m.as_str(), " already exists"));
    }
    Ok(workflow_effect_plan(project_name, &existing_workflows, &workflow))
}

/// Plans describing the workflow `slug` anew as `description`, from its
/// graph; refuses an unknown workflow and a graph of another name.
pub fn update_workflow_description(
    existing_workflows: Vec<ModeledWorkflowLayout>,
    workflow_graph: FormalWorkflowGraph,
    slug: WorkflowSlug,
    description: ModelDescription,
) -> (r: Result<EffectPlan, WorkflowMutationError>)
    ensures
        outcome_of(r) == update_description_outcome(
            existing_workflows@,
            workflow_graph@,
            slug@,
            description@,
        ),
{
    let i = match find_layout(&existing_workflows, &slug) {
        Some(i) => i,
        None => {
            return refusal(concat2("unknown workflow ", slug.as_str()));
        },
    };
    proof {
        lemma_first_item(existing_workflows@, slug_is(slug@), i as int);
    }
    let existing = &existing_workflows[i];
    if !str_eq(workflow_graph.name.as_str(), existing.name.as_str()) {
        return refusal(name_mismatch(&workflow_graph.name, &existing.name));
    }
    let workflow = NewWorkflow::new(workflow_graph.name.clone(), description, slug);
    Ok(update_workflow_effect_plan(&workflow, workflow_graph, None))
}

/// Plans renaming the workflow `slug` to `name`, from its graph; refuses an
/// unknown workflow, a module name that another workflow has, and a graph
/// whose name or description differ from the index.
pub fn update_workflow_name(
    existing_workflows: Vec<ModeledWorkflowLayout>,
    workflow_graph: FormalWorkflowGraph,
    slug: WorkflowSlug,
    name: ModelName,
) -> (r: Result<EffectPlan, WorkflowMutationError>)
    ensures
        outcome_of(r) == update_name_outcome(existing_workflows@, workflow_graph@, slug@, name@),
{
    let i = match find_layout(&existing_workflows, &slug) {
        Some(i) => i,
        None => {
            return refusal(concat2("unknown workflow ", slug.as_str()));
        },
    };
    proof {
        lemma_first_item(existing_workflows@, slug_is(slug@), i as int);
    }
    let existing = &existing_workflows[i];
    let m = workflow_module_name(name.as_str());
    if module_collision(&existing_workflows, &slug, &m) {
        return refusal(concat3("workflow module ", m.as_str(), " already exists"));
    }
    if !str_eq(workflow_graph.name.as_str(), existing.name.as_str()) {
        return refusal(name_mismatch(&workflow_graph.name, &existing.name));
    }
    if !str_eq(workflow_graph.description.as_str(), existing.description.as_str()) {
        let head = concat3(
            "workflow graph description '",
            workflow_graph.description.as_str(),
            "' does not match index description '",
        );
        return refusal(concat3(head.as_str(), existing.description.as_str(), "'"));
    }
    let previous = workflow_module_name(existing.name.as_str());
    let workflow = NewWorkflow::new(name, existing.description.clone(), slug);
    Ok(update_workflow_effect_plan(&workflow, workflow_graph, Some(previous)))
}

/// Plans removing the workflow `slug`; refuses an unknown workflow, one
/// that another workflow leaves for, one whose graph is missing, and a
/// graph of another name.
pub fn remove_workflow(
    project_name: ProjectName,
    existing_workflows: Vec<ModeledWorkflowLayout>,
    workflow_graphs: IndexedWorkflowGraphs,
    slug: WorkflowSlug,
) -> (r: Result<EffectPlan, WorkflowMutationError>)
    ensures
        outcome_of(r) == remove_outcome(project_name@, existing_workflows@, workflow_graphs@, slug@),
{
    let i = match find_layout(&existing_workflows, &slug) {
        Some(i) => i,
        None => {
            return refusal(concat2("unknown workflow ", slug.as_str()));
        },
    };
    proof {
        lemma_first_item(existing_workflows@, slug_is(slug@), i as int);
    }
    let removed = &existing_workflows[i];
    match find_referencing(&workflow_graphs, &slug) {
        Some(k) => {
            proof {
                lemma_first_item(workflow_graphs@, refers_elsewhere(slug@), k as int);
            }
            let head = concat3("workflow ", slug.as_str(), " is referenced by workflow ");
            return refusal(concat2(head.as_str(), workflow_graphs.graphs[k].slug.as_str()));
        },
        None => {},
    }
    let k = match find_graph(&workflow_graphs, &slug) {
        Some(k) => k,
        None => {
            return refusal(concat3("workflow ", slug.as_str(), " graph is missing"));
        },
    };
    proof {
        lemma_first_item(workflow_graphs@, graph_slug_is(slug@), k as int);
    }
    let graph = &workflow_graphs.graphs[k].graph;
    if !str_eq(graph.name.as_str(), removed.name.as_str()) {
        return refusal(name_mismatch(&graph.name, &removed.name));
    }
    let m = workflow_module_name(removed.name.as_str());
    let mut effects: Vec<Effect> = Vec::new();
    push_effect(
        &mut effects,
        Effect::WriteProjectRoot(project_name, other_layout_slugs(&existing_workflows, &slug)),
    );
    push_effect(&mut effects, Effect::RemoveFile(artifact_path("model/lean/", &m, ".lean")));
    push_effect(&mut effects, Effect::RemoveFile(artifact_path("model/quint/", &m, ".qnt")));
    let ghost head = effect_views(effects@);
    let ghost slices = graph@.slices;
    let mut j: usize = 0;
    assert(slices.take(0) =~= Seq::<SliceView>::empty());
    assert(head + slice_removals(slices.take(0)) =~= head);
    while j < graph.slices.len()
        invariant
            j <= graph.slices@.len(),
            slices == slice_views(graph.slices@),
            effect_views(effects@) == head + slice_removals(slices.take(j as int)),
        decreases graph.slices.len() - j,
    {
        let ms = workflow_module_name(graph.slices[j].name.as_str());
        assert(slices.take(j + 1).drop_last() =~= slices.take(j as int));
        assert(slices.take(j + 1).last() == graph.slices@[j as int]@);
        push_effect(&mut effects, Effect::RemoveFile(artifact_path("model/lean/slices/", &ms, ".lean")));
        push_effect(&mut effects, Effect::RemoveFile(artifact_path("model/quint/slices/", &ms, ".qnt")));
        assert(head + slice_removals(slices.take(j + 1)) =~= head + slice_removals(slices.take(j as int))
            + seq![EffectView::Remove(slice_lean(ms@)), EffectView::Remove(slice_quint(ms@))]);
        j = j + 1;
    }
    assert(slices.take(slices.len() as int) =~= slices);
    push_effect(&mut effects, Effect::Report(concat2("removed workflow ", removed.name.as_str())));
    assert(effect_views(effects@) =~= remove_plan(
        project_name@,
        existing_workflows@,
        slug@,
        removed.name@,
        slices,
    ));
    Ok(EffectPlan { effects })
}

// ---- laws ----

pub proof fn lemma_other_slugs_all(ws: Seq<ModeledWorkflowLayout>, slug: Seq<char>)
    requires
        !some_item(ws, slug_is(slug)),
    ensures
        other_slugs(ws, slug) == layout_slugs(ws),
    decreases ws.len(),
{
    if ws.len() > 0 {
        let d = ws.drop_last();
        assert forall|i: int| 0 <= i < d.len() implies !slug_is(slug)(#[trigger] d[i]) by {
            assert(d[i] == ws[i]);
        }
        lemma_other_slugs_all(d, slug);
        assert(!slug_is(slug)(ws[ws.len() - 1]));
        assert(layout_slugs(ws) =~= layout_slugs(d).push(ws.last().slug@));
    }
}

/// Removing a workflow just after adding it regenerates the project root for
/// the workflows there were before, and removes the two module files that
/// adding it wrote.
pub proof fn law_remove_undoes_add(
    project: Seq<char>,
    existing: Seq<ModeledWorkflowLayout>,
    w: NewWorkflowView,
    added: ModeledWorkflowLayout,
    slices: Seq<SliceView>,
)
    requires
        add_outcome(project, existing, w) is Ok,
        added.slug@ == w.slug,
        added.name@ == w.name,
    ensures
        add_plan(project, existing, w)[0] == EffectView::ProjectRoot(
            project,
            layout_slugs(existing).push(w.slug),
        ),
        remove_plan(project, existing.push(added), w.slug, w.name, slices)[0]
            == EffectView::ProjectRoot(project, layout_slugs(existing)),
        add_plan(project, existing, w)[1] matches EffectView::WriteModule(lean) && remove_plan(
            project,
            existing.push(added),
            w.slug,
            w.name,
            slices,
        )[1] == EffectView::Remove(lean.path),
        add_plan(project, existing, w)[2] matches EffectView::WriteModule(quint) && remove_plan(
            project,
            existing.push(added),
            w.slug,
            w.name,
            slices,
        )[2] == EffectView::Remove(quint.path),
{
    lemma_other_slugs_all(existing, w.slug);
    assert(existing.push(added).drop_last() =~= existing);
}

/// Adding a workflow under a slug that the project already has is refused.
pub proof fn law_add_refuses_taken_slug(
    project: Seq<char>,
    existing: Seq<ModeledWorkflowLayout>,
    w: NewWorkflowView,
)
    requires
        some_item(existing, slug_is(w.slug)),
    ensures
        add_outcome(project, existing, w) == Err::<Seq<EffectView>, Seq<char>>(slug_taken_message(w.slug)),
{
}

/// A path under `model/lean/` or `model/quint/`.
pub open spec fn under_model(p: Seq<char>) -> bool {
    starts_with(p, "model/lean/"@) || starts_with(p, "model/quint/"@)
}

/// Every file that `plan` writes or removes lies under `model/lean/` or
/// `model/quint/`.
pub open spec fn stays_under_model(plan: Seq<EffectView>) -> bool {
    forall|i: int|
        0 <= i < plan.len() ==> match #[trigger] plan[i] {
            EffectView::Remove(p) => under_model(p),
            EffectView::WriteModule(m) => under_model(m.path),
            _ => true,
        }
}

proof fn lemma_starts_with_concat(a: Seq<char>, b: Seq<char>, prefix: Seq<char>)
    requires
        starts_with(a, prefix),
    ensures
        starts_with(a + b, prefix),
{
    assert((a + b).subrange(0, prefix.len() as int) =~= a.subrange(0, prefix.len() as int));
}

proof fn lemma_artifact_paths_under_model(m: Seq<char>)
    ensures
        under_model(root_lean(m)),
        under_model(root_quint(m)),
        under_model(slice_lean(m)),
        under_model(slice_quint(m)),
{
    reveal_strlit("model/lean/");
    reveal_strlit("model/quint/");
    reveal_strlit("model/lean/slices/");
    reveal_strlit("model/quint/slices/");
    assert(starts_with("model/lean/"@, "model/lean/"@)) by {
        assert("model/lean/"@.subrange(0, 11) =~= "model/lean/"@);
    }
    assert(starts_with("model/quint/"@, "model/quint/"@)) by {
        assert("model/quint/"@.subrange(0, 12) =~= "model/quint/"@);
    }
    assert(starts_with("model/lean/slices/"@, "model/lean/"@)) by {
        assert("model/lean/slices/"@.subrange(0, 11) =~= "model/lean/"@);
    }
    assert(starts_with("model/quint/slices/"@, "model/quint/"@)) by {
        assert("model/quint/slices/"@.subrange(0, 12) =~= "model/quint/"@);
    }
    lemma_starts_with_concat("model/lean/"@, m, "model/lean/"@);
    lemma_starts_with_concat("model/lean/"@ + m, ".lean"@, "model/lean/"@);
    lemma_starts_with_concat("model/quint/"@, m, "model/quint/"@);
    lemma_starts_with_concat("model/quint/"@ + m, ".qnt"@, "model/quint/"@);
    lemma_starts_with_concat("model/lean/slices/"@, m, "model/lean/"@);
    lemma_starts_with_concat("model/lean/slices/"@ + m, ".lean"@, "model/lean/"@);
    lemma_starts_with_concat("model/quint/slices/"@, m, "model/quint/"@);
    lemma_starts_with_concat("model/quint/slices/"@ + m, ".qnt"@, "model/quint/"@);
}

proof fn lemma_stays_concat(a: Seq<EffectView>, b: Seq<EffectView>)
    requires
        stays_under_model(a),
        stays_under_model(b),
    ensures
        stays_under_model(a + b),
{
    assert forall|i: int| 0 <= i < (a + b).len() implies match #[trigger] (a + b)[i] {
        EffectView::Remove(p) => under_model(p),
        EffectView::WriteModule(m) => under_model(m.path),
        _ => true,
    } by {
        if i < a.len() {
            assert((a + b)[i] == a[i]);
        } else {
            assert((a + b)[i] == b[i - a.len()]);
        }
    }
}

proof fn lemma_slice_removals_stay(slices: Seq<SliceView>)
    ensures
        stays_under_model(slice_removals(slices)),
    decreases slices.len(),
{
    if slices.len() > 0 {
        lemma_slice_removals_stay(slices.drop_last());
        let m = workflow_module_of(slices.last().name);
        lemma_artifact_paths_under_model(m);
        let tail = seq![EffectView::Remove(slice_lean(m)), EffectView::Remove(slice_quint(m))];
        assert(stays_under_model(tail));
        lemma_stays_concat(slice_removals(slices.drop_last()), tail);
    }
}

proof fn lemma_update_plan_stays(w: NewWorkflowView, g: GraphView, previous: Option<Seq<char>>)
    ensures
        stays_under_model(update_plan(w, g, previous)),
{
    let m = workflow_module_of(w.name);
    lemma_artifact_paths_under_model(m);
    if let Some(p) = previous {
        lemma_artifact_paths_under_model(p);
    }
    let tail = seq![
        module_write(ModuleLanguage::Lean, root_lean(m), m, w, g),
        module_write(ModuleLanguage::Quint, root_quint(m), m, w, g),
        EffectView::Report("updated workflow "@ + w.name),
    ];
    assert(stays_under_model(cleanup(previous, m)));
    assert(stays_under_model(tail));
    lemma_stays_concat(cleanup(previous, m), tail);
}

/// Every file that adding, describing anew, renaming or removing a workflow
/// plans to write or remove lies under `model/lean/` or `model/quint/`.
pub proof fn law_workflow_plans_stay_under_model(
    project: Seq<char>,
    existing: Seq<ModeledWorkflowLayout>,
    graphs: Seq<IndexedGraphView>,
    w: NewWorkflowView,
    g: GraphView,
    slug: Seq<char>,
    text: Seq<char>,
)
    ensures
        add_outcome(project, existing, w) matches Ok(plan) ==> stays_under_model(plan),
        update_description_outcome(existing, g, slug, text) matches Ok(plan) ==> stays_under_model(plan),
        update_name_outcome(existing, g, slug, text) matches Ok(plan) ==> stays_under_model(plan),
        remove_outcome(project, existing, graphs, slug) matches Ok(plan) ==> stays_under_model(plan),
{
    lemma_artifact_paths_under_model(workflow_module_of(w.name));
    let e = first_item(existing, slug_is(slug));
    lemma_update_plan_stays(NewWorkflowView { name: g.name, description: text, slug }, g, None);
    lemma_update_plan_stays(
        NewWorkflowView { name: text, description: e.description@, slug },
        g,
        Some(workflow_module_of(e.name@)),
    );
    let m = workflow_module_of(e.name@);
    lemma_artifact_paths_under_model(m);
    let g2 = first_item(graphs, graph_slug_is(slug)).graph;
    lemma_slice_removals_stay(g2.slices);
    let head = seq![
        EffectView::ProjectRoot(project, other_slugs(existing, slug)),
        EffectView::Remove(root_lean(m)),
        EffectView::Remove(root_quint(m)),
    ];
    let report = seq![EffectView::Report("removed workflow "@ + e.name@)];
    assert(stays_under_model(head));
    assert(stays_under_model(report));
    lemma_stays_concat(head, slice_removals(g2.slices));
    lemma_stays_concat(head + slice_removals(g2.slices), report);
}

proof fn lemma_title_fold_shape(raw: Seq<char>)
    ensures
        title_fold(raw).0.len() == 0 ==> title_fold(raw).1,
        title_fold(raw).0.len() > 0 ==> title_fold(raw).0[0] == ascii_upper(title_fold(raw).0[0]),
    decreases raw.len(),
{
    if raw.len() > 0 {
        lemma_title_fold_shape(raw.drop_last());
        let prior = title_fold(raw.drop_last());
        let c = raw.last();
        if is_ascii_alnum(c) && prior.0.len() == 0 {
            assert(prior.0.push(ascii_upper(c))[0] == ascii_upper(c));
            assert(ascii_upper(ascii_upper(c)) == ascii_upper(c));
        }
        if is_ascii_alnum(c) && prior.0.len() > 0 {
            assert(prior.0.push(if prior.1 { ascii_upper(c) } else { c })[0] == prior.0[0]);
        }
    }
}

proof fn lemma_title_fold_of_alnum(t: Seq<char>)
    requires
        all_alnum(t),
    ensures
        title_fold(t).1 <==> t.len() == 0,
        t.len() > 0 ==> title_fold(t).0 == t.update(0, ascii_upper(t[0])),
    decreases t.len(),
{
    if t.len() > 0 {
        let d = t.drop_last();
        assert(all_alnum(d)) by {
            assert forall|i: int| 0 <= i < d.len() implies is_ascii_alnum(#[trigger] d[i]) by {
                assert(d[i] == t[i]);
            }
        }
        lemma_title_fold_of_alnum(d);
        assert(is_ascii_alnum(t[t.len() - 1]));
        if d.len() == 0 {
            assert(title_fold(t).0 =~= t.update(0, ascii_upper(t[0])));
        } else {
            assert(title_fold(t).0 =~= t.update(0, ascii_upper(t[0])));
        }
    }
}

/// A generated module name is its own module name.
pub proof fn law_workflow_module_name_is_stable(raw: Seq<char>)
    ensures
        workflow_module_of(workflow_module_of(raw)) == workflow_module_of(raw),
{
    let m = workflow_module_of(raw);
    lemma_title_fold_alnum(raw);
    lemma_title_fold_shape(raw);
    lemma_title_fold_of_alnum(m);
    if m.len() > 0 {
        assert(m.update(0, ascii_upper(m[0])) =~= m);
    }
}

} // verus!
