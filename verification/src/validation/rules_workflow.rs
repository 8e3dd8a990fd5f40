//! Rules on the shape of a document and on the steps a workflow composes.

use vstd::prelude::*;

use crate::validation::find::{
    first_with, first_issue_with, issue_of, issue_view, into_result, lemma_first_with_step, msg1,
    msg3, msg5, or_else,
};
use crate::validation::model::{
    DefinitionKind, EventModelDocument, EventModelFileKind, NamedDefinition, SliceDefinitionCount,
    WorkflowComposition, WorkflowEntryStepCount, WorkflowInternalDefinitions, WorkflowStep,
    WorkflowStepExit, WorkflowStepLifecycleRole, WorkflowStepRelationship, WorkflowStepTrigger,
};
use crate::validation::names::{DefinitionName, NameSet, ValidationIssue};

verus! {

// ---- top-level keys ----

pub open spec fn key_missing(doc: EventModelDocument, k: Seq<char>) -> Option<Seq<char>> {
    if doc.top_level_keys@.contains(k) {
        None
    } else {
        Some("missing top-level key '"@ + k + "'"@)
    }
}

/// The first required top-level key, in the order `name`, `version`,
/// `streams`, `events`, `commands`, `read_models`, `slices`, that is missing.
pub open spec fn top_level_keys_issue(doc: EventModelDocument) -> Option<Seq<char>> {
    or_else(
        key_missing(doc, "name"@),
        or_else(
            key_missing(doc, "version"@),
            or_else(
                key_missing(doc, "streams"@),
                or_else(
                    key_missing(doc, "events"@),
                    or_else(
                        key_missing(doc, "commands"@),
                        or_else(key_missing(doc, "read_models"@), key_missing(doc, "slices"@)),
                    ),
                ),
            ),
        ),
    )
}

fn check_key(doc: &EventModelDocument, k: &str) -> (r: Option<ValidationIssue>)
    ensures
        issue_view(r) == key_missing(*doc, k@),
{
    if doc.top_level_keys.contains_text(k) {
        None
    } else {
        Some(msg3("missing top-level key '", k, "'"))
    }
}

pub fn validate_top_level_keys(doc: &EventModelDocument) -> (r: Result<(), ValidationIssue>)
    ensures
        issue_of(r) == top_level_keys_issue(*doc),
{
    let o = check_key(doc, "name");
    if o.is_some() {
        return into_result(o);
    }
    let o = check_key(doc, "version");
    if o.is_some() {
        return into_result(o);
    }
    let o = check_key(doc, "streams");
    if o.is_some() {
        return into_result(o);
    }
    let o = check_key(doc, "events");
    if o.is_some() {
        return into_result(o);
    }
    let o = check_key(doc, "commands");
    if o.is_some() {
        return into_result(o);
    }
    let o = check_key(doc, "read_models");
    if o.is_some() {
        return into_result(o);
    }
    into_result(check_key(doc, "slices"))
}

/// A document must hold the `board` key.
pub open spec fn board_key_issue(doc: EventModelDocument) -> Option<Seq<char>> {
    if doc.top_level_keys@.contains("board"@) {
        None
    } else {
        Some("missing explicit board"@)
    }
}

pub fn validate_board_key(doc: &EventModelDocument) -> (r: Result<(), ValidationIssue>)
    ensures
        issue_of(r) == board_key_issue(*doc),
{
    if doc.top_level_keys.contains_text("board") {
        Ok(())
    } else {
        Err(msg1("missing explicit board"))
    }
}

// ---- no definition is named twice within its kind ----

pub open spec fn same_definition(a: NamedDefinition, b: NamedDefinition) -> bool {
    a.kind == b.kind && a.name@ == b.name@
}

/// Whether the definition at `i` repeats the kind and name of an earlier one.
pub open spec fn repeats_earlier(defs: Seq<NamedDefinition>, i: int) -> bool {
    exists|j: int| 0 <= j < i && same_definition(#[trigger] defs[j], defs[i])
}

/// The first definition, from position `i` on, that repeats an earlier one.
pub open spec fn first_repeated_definition(defs: Seq<NamedDefinition>, i: nat) -> Option<
    NamedDefinition,
>
    decreases defs.len() - i,
{
    if i >= defs.len() {
        None
    } else if repeats_earlier(defs, i as int) {
        Some(defs[i as int])
    } else {
        first_repeated_definition(defs, i + 1)
    }
}

pub open spec fn kind_label(kind: DefinitionKind) -> Seq<char> {
    match kind {
        DefinitionKind::Command => "command"@,
        DefinitionKind::Event => "event"@,
        DefinitionKind::ReadModel => "read model"@,
        DefinitionKind::Stream => "stream"@,
        DefinitionKind::View => "view"@,
    }
}

pub open spec fn duplicate_definition_issue(doc: EventModelDocument) -> Option<Seq<char>> {
    match first_repeated_definition(doc.named_definitions@, 0) {
        Some(d) => Some("duplicate "@ + kind_label(d.kind) + " name '"@ + d.name@ + "'"@),
        None => None,
    }
}

fn definition_kind_label(kind: DefinitionKind) -> (r: &'static str)
    ensures
        r@ == kind_label(kind),
{
    match kind {
        DefinitionKind::Command => "command",
        DefinitionKind::Event => "event",
        DefinitionKind::ReadModel => "read model",
        DefinitionKind::Stream => "stream",
        DefinitionKind::View => "view",
    }
}

fn repeats_earlier_at(defs: &Vec<NamedDefinition>, i: usize) -> (r: bool)
    requires
        i < defs@.len(),
    ensures
        r == repeats_earlier(defs@, i as int),
{
    let mut j: usize = 0;
    while j < i
        invariant
            i < defs@.len(),
            j <= i,
            forall|k: int| 0 <= k < j ==> !same_definition(#[trigger] defs@[k], defs@[i as int]),
        decreases i - j,
    {
        if defs[j].kind == defs[i].kind && defs[j].name.same_as(&defs[i].name) {
            assert(same_definition(defs@[j as int], defs@[i as int]));
            return true;
        }
        j = j + 1;
    }
    false
}

pub fn validate_duplicate_named_definitions(doc: &EventModelDocument) -> (r: Result<
    (),
    ValidationIssue,
>)
    ensures
        issue_of(r) == duplicate_definition_issue(*doc),
{
    let defs = &doc.named_definitions;
    let mut i: usize = 0;
    while i < defs.len()
        invariant
            i <= defs@.len(),
            defs@ == doc.named_definitions@,
            first_repeated_definition(defs@, 0) == first_repeated_definition(defs@, i as nat),
        decreases defs.len() - i,
    {
        if repeats_earlier_at(defs, i) {
            let d = &defs[i];
            assert(first_repeated_definition(defs@, i as nat) == Some(defs@[i as int]));
            return Err(
                msg5("duplicate ", definition_kind_label(d.kind), " name '", d.name.as_str(), "'"),
            );
        }
        i = i + 1;
    }
    Ok(())
}

// ---- file and composition shape ----

pub open spec fn slice_file_count_issue(doc: EventModelDocument) -> Option<Seq<char>> {
    if doc.file_kind == EventModelFileKind::Slice && doc.slice_count != SliceDefinitionCount::One {
        Some("slice file must contain exactly one slice"@)
    } else {
        None
    }
}

pub fn validate_slice_file_count(doc: &EventModelDocument) -> (r: Result<(), ValidationIssue>)
    ensures
        issue_of(r) == slice_file_count_issue(*doc),
{
    match (doc.file_kind, doc.slice_count) {
        (EventModelFileKind::Slice, SliceDefinitionCount::One) | (EventModelFileKind::Workflow, _) => Ok(
            (),
        ),
        (
            EventModelFileKind::Slice,
            SliceDefinitionCount::Multiple | SliceDefinitionCount::Zero,
        ) => Err(msg1("slice file must contain exactly one slice")),
    }
}

pub open spec fn composition_steps_issue(doc: EventModelDocument) -> Option<Seq<char>> {
    if doc.workflow_composition == WorkflowComposition::MissingSteps {
        Some("workflow composition must declare steps"@)
    } else {
        None
    }
}

pub fn validate_workflow_composition_steps(doc: &EventModelDocument) -> (r: Result<
    (),
    ValidationIssue,
>)
    ensures
        issue_of(r) == composition_steps_issue(*doc),
{
    if doc.workflow_composition == WorkflowComposition::MissingSteps {
        Err(msg1("workflow composition must declare steps"))
    } else {
        Ok(())
    }
}

pub open spec fn entry_step_count_issue(doc: EventModelDocument) -> Option<Seq<char>> {
    if doc.workflow_entry_step_count == WorkflowEntryStepCount::NotOne {
        Some("workflow must declare exactly one entry step"@)
    } else {
        None
    }
}

pub fn validate_workflow_entry_step_count(doc: &EventModelDocument) -> (r: Result<
    (),
    ValidationIssue,
>)
    ensures
        issue_of(r) == entry_step_count_issue(*doc),
{
    if doc.workflow_entry_step_count == WorkflowEntryStepCount::NotOne {
        Err(msg1("workflow must declare exactly one entry step"))
    } else {
        Ok(())
    }
}

pub open spec fn internal_definitions_issue(doc: EventModelDocument) -> Option<Seq<char>> {
    if doc.file_kind == EventModelFileKind::Workflow && doc.workflow_composition
        != WorkflowComposition::NotComposition && doc.workflow_internal_definitions
        == WorkflowInternalDefinitions::Present {
        Some(
            "workflow files must not define commands, views, read models, automations, or scenarios"@,
        )
    } else {
        None
    }
}

pub fn validate_workflow_internal_definitions(doc: &EventModelDocument) -> (r: Result<
    (),
    ValidationIssue,
>)
    ensures
        issue_of(r) == internal_definitions_issue(*doc),
{
    if doc.file_kind == EventModelFileKind::Workflow && doc.workflow_composition
        != WorkflowComposition::NotComposition && doc.workflow_internal_definitions
        == WorkflowInternalDefinitions::Present {
        Err(
            msg1(
                "workflow files must not define commands, views, read models, automations, or scenarios",
            ),
        )
    } else {
        Ok(())
    }
}

/// Whether the document composes declared workflow steps.
pub open spec fn declares_steps(doc: EventModelDocument) -> bool {
    doc.workflow_composition == WorkflowComposition::DeclaresSteps
}

// ---- steps compose whole slices ----

pub open spec fn step_selects_scenario() -> spec_fn(EventModelDocument, WorkflowStep) -> Option<
    Seq<char>,
> {
    |doc: EventModelDocument, step: WorkflowStep|
        match step.selected_scenario {
            Some(scenario) => Some(
                "workflow step '"@ + step.slice@ + "' must compose the whole slice, not scenario '"@
                    + scenario@ + "'"@,
            ),
            None => None,
        }
}

pub open spec fn whole_slices_issue(doc: EventModelDocument) -> Option<Seq<char>> {
    if !declares_steps(doc) {
        None
    } else {
        first_with(doc, doc.workflow_steps@, step_selects_scenario())
    }
}

fn check_step_selects_scenario(doc: &EventModelDocument, step: &WorkflowStep) -> (r: Option<
    ValidationIssue,
>)
    ensures
        issue_view(r) == step_selects_scenario()(*doc, *step),
{
    match &step.selected_scenario {
        Some(scenario) => Some(
            msg5(
                "workflow step '",
                step.slice.as_str(),
                "' must compose the whole slice, not scenario '",
                scenario.as_str(),
                "'",
            ),
        ),
        None => None,
    }
}

pub fn validate_workflow_steps_compose_whole_slices(doc: &EventModelDocument) -> (r: Result<
    (),
    ValidationIssue,
>)
    ensures
        issue_of(r) == whole_slices_issue(*doc),
{
    if doc.workflow_composition != WorkflowComposition::DeclaresSteps {
        return Ok(());
    }
    into_result(
        first_issue_with(
            doc,
            &doc.workflow_steps,
            check_step_selects_scenario,
            Ghost(step_selects_scenario()),
        ),
    )
}

// ---- step slices and slice references agree ----

pub open spec fn absent_from() -> spec_fn(Seq<Seq<char>>, Seq<char>) -> Option<Seq<char>> {
    |b: Seq<Seq<char>>, x: Seq<char>|
        if b.contains(x) {
            None
        } else {
            Some(x)
        }
}

/// The first name of `a`, in order, that `b` lacks.
pub open spec fn first_absent(a: Seq<Seq<char>>, b: Seq<Seq<char>>) -> Option<Seq<char>> {
    first_with(b, a, absent_from())
}

/// The first name of `a`, in order, that `b` lacks.
pub fn first_name_absent<'a>(a: &'a NameSet, b: &NameSet) -> (r: Option<&'a DefinitionName>)
    ensures
        match r {
            Some(n) => first_absent(a@, b@) == Some(n@),
            None => first_absent(a@, b@) is None,
        },
{
    let mut i: usize = 0;
    assert(a@.subrange(0, a@.len() as int) =~= a@);
    while i < a.len()
        invariant
            i <= a@.len(),
            first_absent(a@, b@) == first_with(b@, a@.subrange(i as int, a@.len() as int), absent_from()),
        decreases a@.len() - i,
    {
        proof {
            lemma_first_with_step(b@, a@, absent_from(), i as int);
        }
        let n = a.get(i);
        if !b.contains(n) {
            return Some(n);
        }
        i = i + 1;
    }
    assert(a@.subrange(i as int, a@.len() as int) =~= Seq::<Seq<char>>::empty());
    None
}

pub open spec fn steps_reference_slices_issue(doc: EventModelDocument) -> Option<Seq<char>> {
    if !declares_steps(doc) {
        None
    } else {
        match first_absent(doc.workflow_step_slices@, doc.workflow_slice_references@) {
            Some(s) => Some("workflow step '"@ + s + "' does not reference a composed slice"@),
            None => None,
        }
    }
}

pub fn validate_workflow_steps_reference_composed_slices(doc: &EventModelDocument) -> (r: Result<
    (),
    ValidationIssue,
>)
    ensures
        issue_of(r) == steps_reference_slices_issue(*doc),
{
    if doc.workflow_composition == WorkflowComposition::DeclaresSteps {
        match first_name_absent(&doc.workflow_step_slices, &doc.workflow_slice_references) {
            Some(s) => Err(msg3("workflow step '", s.as_str(), "' does not reference a composed slice")),
            None => Ok(()),
        }
    } else {
        Ok(())
    }
}

pub open spec fn referenced_slices_used_issue(doc: EventModelDocument) -> Option<Seq<char>> {
    if !declares_steps(doc) {
        None
    } else {
        match first_absent(doc.workflow_slice_references@, doc.workflow_step_slices@) {
            Some(s) => Some("referenced slice '"@ + s + "' is not used by workflow steps"@),
            None => None,
        }
    }
}

pub fn validate_workflow_referenced_slices_are_used(doc: &EventModelDocument) -> (r: Result<
    (),
    ValidationIssue,
>)
    ensures
        issue_of(r) == referenced_slices_used_issue(*doc),
{
    if doc.workflow_composition == WorkflowComposition::DeclaresSteps {
        match first_name_absent(&doc.workflow_slice_references, &doc.workflow_step_slices) {
            Some(s) => Err(msg3("referenced slice '", s.as_str(), "' is not used by workflow steps")),
            None => Ok(()),
        }
    } else {
        Ok(())
    }
}

pub open spec fn duplicate_step_slice_issue(doc: EventModelDocument) -> Option<Seq<char>> {
    match doc.duplicate_workflow_step_slice {
        Some(s) => Some("workflow step slice '"@ + s@ + "' is duplicated"@),
        None => None,
    }
}

pub fn validate_duplicate_workflow_step_slices(doc: &EventModelDocument) -> (r: Result<
    (),
    ValidationIssue,
>)
    ensures
        issue_of(r) == duplicate_step_slice_issue(*doc),
{
    match &doc.duplicate_workflow_step_slice {
        Some(s) => Err(msg3("workflow step slice '", s.as_str(), "' is duplicated")),
        None => Ok(()),
    }
}

// ---- transition targets name known steps ----

pub open spec fn step_unknown_target() -> spec_fn(EventModelDocument, WorkflowStep) -> Option<
    Seq<char>,
> {
    |doc: EventModelDocument, step: WorkflowStep|
        match first_absent(step.transition_targets@, doc.workflow_step_slices@) {
            Some(t) => Some("transition targets unknown workflow step '"@ + t + "'"@),
            None => None,
        }
}

pub open spec fn unknown_target_issue(doc: EventModelDocument) -> Option<Seq<char>> {
    if !declares_steps(doc) {
        None
    } else {
        first_with(doc, doc.workflow_steps@, step_unknown_target())
    }
}

fn check_step_unknown_target(doc: &EventModelDocument, step: &WorkflowStep) -> (r: Option<
    ValidationIssue,
>)
    ensures
        issue_view(r) == step_unknown_target()(*doc, *step),
{
    match first_name_absent(&step.transition_targets, &doc.workflow_step_slices) {
        Some(t) => Some(msg3("transition targets unknown workflow step '", t.as_str(), "'")),
        None => None,
    }
}

pub fn validate_workflow_transition_targets_known_steps(doc: &EventModelDocument) -> (r: Result<
    (),
    ValidationIssue,
>)
    ensures
        issue_of(r) == unknown_target_issue(*doc),
{
    if doc.workflow_composition != WorkflowComposition::DeclaresSteps {
        return Ok(());
    }
    into_result(
        first_issue_with(
            doc,
            &doc.workflow_steps,
            check_step_unknown_target,
            Ghost(step_unknown_target()),
        ),
    )
}

// ---- incoming transitions ----

/// Whether some step of `steps` names `s` as a transition target.
pub open spec fn has_incoming(steps: Seq<WorkflowStep>, s: Seq<char>) -> bool {
    exists|i: int| 0 <= i < steps.len() && #[trigger] steps[i].transition_targets@.contains(s)
}

pub fn incoming_to(steps: &Vec<WorkflowStep>, s: &DefinitionName) -> (r: bool)
    ensures
        r == has_incoming(steps@, s@),
{
    let mut i: usize = 0;
    while i < steps.len()
        invariant
            i <= steps@.len(),
            forall|j: int| 0 <= j < i ==> !(#[trigger] steps@[j].transition_targets@.contains(s@)),
        decreases steps.len() - i,
    {
        if steps[i].transition_targets.contains(s) {
            return true;
        }
        i = i + 1;
    }
    false
}

pub open spec fn alternate_without_rationale() -> spec_fn(EventModelDocument, WorkflowStep) -> Option<
    Seq<char>,
> {
    |doc: EventModelDocument, step: WorkflowStep|
        if step.relationship == WorkflowStepRelationship::Alternate && step.trigger
            != WorkflowStepTrigger::Present && !has_incoming(doc.workflow_steps@, step.slice@) {
            Some(
                "alternate workflow step '"@ + step.slice@
                    + "' must declare a trigger or incoming transition"@,
            )
        } else {
            None
        }
}

pub open spec fn alternate_rationale_issue(doc: EventModelDocument) -> Option<Seq<char>> {
    if !declares_steps(doc) {
        None
    } else {
        first_with(doc, doc.workflow_steps@, alternate_without_rationale())
    }
}

fn check_alternate_rationale(doc: &EventModelDocument, step: &WorkflowStep) -> (r: Option<
    ValidationIssue,
>)
    ensures
        issue_view(r) == alternate_without_rationale()(*doc, *step),
{
    if step.relationship == WorkflowStepRelationship::Alternate && step.trigger
        != WorkflowStepTrigger::Present && !incoming_to(&doc.workflow_steps, &step.slice) {
        Some(
            msg3(
                "alternate workflow step '",
                step.slice.as_str(),
                "' must declare a trigger or incoming transition",
            ),
        )
    } else {
        None
    }
}

pub fn validate_alternate_workflow_step_rationale(doc: &EventModelDocument) -> (r: Result<
    (),
    ValidationIssue,
>)
    ensures
        issue_of(r) == alternate_rationale_issue(*doc),
{
    if doc.workflow_composition != WorkflowComposition::DeclaresSteps {
        return Ok(());
    }
    into_result(
        first_issue_with(
            doc,
            &doc.workflow_steps,
            check_alternate_rationale,
            Ghost(alternate_without_rationale()),
        ),
    )
}

pub open spec fn main_step_with_trigger() -> spec_fn(EventModelDocument, WorkflowStep) -> Option<
    Seq<char>,
> {
    |doc: EventModelDocument, step: WorkflowStep|
        if step.relationship == WorkflowStepRelationship::Main && step.trigger
            == WorkflowStepTrigger::Present {
            Some(
                "async lifecycle step '"@ + step.slice@ + "' must be alternate or async_lifecycle"@,
            )
        } else {
            None
        }
}

pub open spec fn async_lifecycle_issue(doc: EventModelDocument) -> Option<Seq<char>> {
    if !declares_steps(doc) {
        None
    } else {
        first_with(doc, doc.workflow_steps@, main_step_with_trigger())
    }
}

fn check_main_step_trigger(doc: &EventModelDocument, step: &WorkflowStep) -> (r: Option<
    ValidationIssue,
>)
    ensures
        issue_view(r) == main_step_with_trigger()(*doc, *step),
{
    if step.relationship == WorkflowStepRelationship::Main && step.trigger
        == WorkflowStepTrigger::Present {
        Some(
            msg3(
                "async lifecycle step '",
                step.slice.as_str(),
                "' must be alternate or async_lifecycle",
            ),
        )
    } else {
        None
    }
}

pub fn validate_async_lifecycle_steps_not_main(doc: &EventModelDocument) -> (r: Result<
    (),
    ValidationIssue,
>)
    ensures
        issue_of(r) == async_lifecycle_issue(*doc),
{
    if doc.workflow_composition != WorkflowComposition::DeclaresSteps {
        return Ok(());
    }
    into_result(
        first_issue_with(
            doc,
            &doc.workflow_steps,
            check_main_step_trigger,
            Ghost(main_step_with_trigger()),
        ),
    )
}

// ---- the application entry view comes before the root bootstrap ----

/// Whether a root bootstrap step comes before every application entry view:
/// there is a bootstrap step and no entry view precedes the first of them.
pub open spec fn bootstraps_before_entry(steps: Seq<WorkflowStep>) -> bool {
    exists|b: int|
        0 <= b < steps.len() && #[trigger] steps[b].lifecycle_role
            == WorkflowStepLifecycleRole::BootstrapRootEntryStateChange && (forall|k: int|
            0 <= k < b ==> #[trigger] steps[k].lifecycle_role
                != WorkflowStepLifecycleRole::BootstrapRootEntryStateChange
                && steps[k].lifecycle_role != WorkflowStepLifecycleRole::ApplicationEntryStateView)
}

pub open spec fn entry_before_bootstrap_issue(doc: EventModelDocument) -> Option<Seq<char>> {
    if declares_steps(doc) && bootstraps_before_entry(doc.workflow_steps@) {
        Some("should model the application entry root bootstrap state view before bootstrap"@)
    } else {
        None
    }
}

fn workflow_bootstraps_root_before_application_entry(steps: &Vec<WorkflowStep>) -> (r: bool)
    ensures
        r == bootstraps_before_entry(steps@),
{
    let mut i: usize = 0;
    while i < steps.len()
        invariant
            i <= steps@.len(),
            forall|k: int|
                0 <= k < i ==> #[trigger] steps@[k].lifecycle_role
                    != WorkflowStepLifecycleRole::BootstrapRootEntryStateChange
                    && steps@[k].lifecycle_role != WorkflowStepLifecycleRole::ApplicationEntryStateView,
        decreases steps.len() - i,
    {
        let role = steps[i].lifecycle_role;
        if role == WorkflowStepLifecycleRole::BootstrapRootEntryStateChange {
            return true;
        }
        if role == WorkflowStepLifecycleRole::ApplicationEntryStateView {
            proof {
                assert forall|b: int|
                    0 <= b < steps@.len() && #[trigger] steps@[b].lifecycle_role
                        == WorkflowStepLifecycleRole::BootstrapRootEntryStateChange implies !(
                forall|k: int|
                    0 <= k < b ==> #[trigger] steps@[k].lifecycle_role
                        != WorkflowStepLifecycleRole::BootstrapRootEntryStateChange
                        && steps@[k].lifecycle_role
                        != WorkflowStepLifecycleRole::ApplicationEntryStateView) by {
                    assert(b > i);
                    assert(steps@[i as int].lifecycle_role
                        == WorkflowStepLifecycleRole::ApplicationEntryStateView);
                }
            }
            return false;
        }
        i = i + 1;
    }
    false
}

pub fn validate_application_entry_before_bootstrap(doc: &EventModelDocument) -> (r: Result<
    (),
    ValidationIssue,
>)
    ensures
        issue_of(r) == entry_before_bootstrap_issue(*doc),
{
    if doc.workflow_composition != WorkflowComposition::DeclaresSteps {
        return Ok(());
    }
    if workflow_bootstraps_root_before_application_entry(&doc.workflow_steps) {
        Err(msg1("should model the application entry root bootstrap state view before bootstrap"))
    } else {
        Ok(())
    }
}

// ---- every step that needs one has an incoming transition ----

/// Whether a step needs an incoming transition: it is not an entry, branch
/// or supporting step, and declares neither a trigger nor a workflow exit.
pub open spec fn requires_incoming(step: WorkflowStep) -> bool {
    !(step.relationship == WorkflowStepRelationship::Entry || step.relationship
        == WorkflowStepRelationship::Branch || step.relationship
        == WorkflowStepRelationship::Supporting || step.trigger == WorkflowStepTrigger::Present
        || step.workflow_exit == WorkflowStepExit::Present)
}

fn step_requires_incoming(step: &WorkflowStep) -> (r: bool)
    ensures
        r == requires_incoming(*step),
{
    !(step.relationship == WorkflowStepRelationship::Entry || step.relationship
        == WorkflowStepRelationship::Branch || step.relationship
        == WorkflowStepRelationship::Supporting || step.trigger == WorkflowStepTrigger::Present
        || step.workflow_exit == WorkflowStepExit::Present)
}

pub open spec fn step_without_incoming() -> spec_fn(EventModelDocument, WorkflowStep) -> Option<
    Seq<char>,
> {
    |doc: EventModelDocument, step: WorkflowStep|
        if requires_incoming(step) && !has_incoming(doc.workflow_steps@, step.slice@) {
            Some("workflow step '"@ + step.slice@ + "' has no incoming transition"@)
        } else {
            None
        }
}

pub open spec fn incoming_reachability_issue(doc: EventModelDocument) -> Option<Seq<char>> {
    if !declares_steps(doc) {
        None
    } else {
        first_with(doc, doc.workflow_steps@, step_without_incoming())
    }
}

fn check_step_incoming(doc: &EventModelDocument, step: &WorkflowStep) -> (r: Option<
    ValidationIssue,
>)
    ensures
        issue_view(r) == step_without_incoming()(*doc, *step),
{
    if step_requires_incoming(step) && !incoming_to(&doc.workflow_steps, &step.slice) {
        Some(msg3("workflow step '", step.slice.as_str(), "' has no incoming transition"))
    } else {
        None
    }
}

pub fn validate_workflow_step_incoming_reachability(doc: &EventModelDocument) -> (r: Result<
    (),
    ValidationIssue,
>)
    ensures
        issue_of(r) == incoming_reachability_issue(*doc),
{
    if doc.workflow_composition != WorkflowComposition::DeclaresSteps {
        return Ok(());
    }
    into_result(
        first_issue_with(doc, &doc.workflow_steps, check_step_incoming, Ghost(step_without_incoming())),
    )
}

} // verus!
