//! Rules on a corpus of documents: command, navigation, trigger and exit
//! transitions, main-path boards, outcomes and transition errors.

use vstd::prelude::*;

use crate::validation::board::{name_has_slug, slug_matches};
use crate::validation::board_graph::{board_slice_has_disconnected_elements, disconnected};
use crate::validation::corpus_lookup::{
    application_entry_slice_by_slug, board_by_slug, board_slice_by_slug, first_issue_in_corpus,
    slice_by_slug, view_by_name, view_definition_by_name,
};
use crate::validation::corpus_rules::{slug_slice_has, slug_slice_lists, SliceList};
use crate::validation::find::{
    first_issue_with2, first_issue_with3, first_with, into_result, issue_of, issue_view,
    lemma_first_with_step, msg3, msg5, msg7,
};
use crate::validation::model::{
    EventModelDocument, OutcomeDefinition, SliceDefinition, SliceType, ViewControlDefinition,
    ViewDefinition, WorkflowCommandTransition, WorkflowExitRationale, WorkflowExitTransition,
    WorkflowExternalTriggerTransition, WorkflowNavigationTransition, WorkflowStep,
    WorkflowStepRelationship,
};
use crate::validation::names::{contains_name, has_name, DefinitionName, ValidationIssue};
use crate::validation::rules_connections::{view_invokes, view_invokes_command};
use crate::validation::rules_views::view_exists;

verus! {

// ---- the source views of a transition ----

/// Whether the view named `n` in the corpus has a control that invokes `c`
/// (`navigation` false) or navigates to `c` (`navigation` true).
pub open spec fn named_view_acts(docs: Seq<EventModelDocument>, n: Seq<char>, c: Seq<char>, navigation: bool) -> bool {
    match view_by_name(docs, n) {
        Some(v) => if navigation {
            view_navigates(v, c)
        } else {
            view_invokes(v, c)
        },
        None => false,
    }
}

pub open spec fn control_navigates(control: ViewControlDefinition, t: Seq<char>) -> bool {
    match control.navigation_target {
        Some(x) => x@ == t,
        None => false,
    }
}

/// Whether a control of the view navigates to `t`.
pub open spec fn view_navigates(view: ViewDefinition, t: Seq<char>) -> bool {
    exists|i: int| 0 <= i < view.controls@.len() && control_navigates(#[trigger] view.controls@[i], t)
}

fn view_navigates_to(view: &ViewDefinition, t: &DefinitionName) -> (r: bool)
    ensures
        r == view_navigates(*view, t@),
{
    let controls = &view.controls;
    let mut i: usize = 0;
    while i < controls.len()
        invariant
            i <= controls@.len(),
            controls@ == view.controls@,
            forall|j: int| 0 <= j < i ==> !control_navigates(#[trigger] controls@[j], t@),
        decreases controls.len() - i,
    {
        let hit = match &controls[i].navigation_target {
            Some(x) => x.same_as(t),
            None => false,
        };
        if hit {
            return true;
        }
        i = i + 1;
    }
    false
}

/// Whether a view owned by the slice with slug `source` acts on `c`.
pub open spec fn has_source_control(docs: Seq<EventModelDocument>, source: Seq<char>, c: Seq<char>, navigation: bool) -> bool {
    match slice_by_slug(docs, source) {
        Some(slice) => exists|i: int|
            0 <= i < slice.owned_views@.len() && named_view_acts(
                docs,
                #[trigger] slice.owned_views@[i]@,
                c,
                navigation,
            ),
        None => false,
    }
}

fn source_control_exists(
    docs: &[EventModelDocument],
    source: &DefinitionName,
    c: &DefinitionName,
    navigation: bool,
) -> (r: bool)
    ensures
        r == has_source_control(docs@, source@, c@, navigation),
{
    match application_entry_slice_by_slug(docs, source) {
        Some(slice) => {
            let views = &slice.owned_views;
            let mut i: usize = 0;
            while i < views.len()
                invariant
                    i <= views@.len(),
                    views@ == slice.owned_views@,
                    slice_by_slug(docs@, source@) == Some(*slice),
                    forall|j: int| 0 <= j < i ==> !named_view_acts(docs@, #[trigger] views@[j]@, c@, navigation),
                decreases views.len() - i,
            {
                let acts = match view_definition_by_name(docs, &views[i]) {
                    Some(v) => if navigation {
                        view_navigates_to(v, c)
                    } else {
                        view_invokes_command(v, c)
                    },
                    None => false,
                };
                if acts {
                    assert(named_view_acts(docs@, views@[i as int]@, c@, navigation));
                    return true;
                }
                i = i + 1;
            }
            false
        },
        None => false,
    }
}

pub open spec fn found_view_name() -> spec_fn(Seq<EventModelDocument>, DefinitionName) -> Option<Seq<char>> {
    |docs: Seq<EventModelDocument>, n: DefinitionName|
        match view_by_name(docs, n@) {
            Some(v) => Some(v.name@),
            None => None,
        }
}

/// The name of the first defined view owned by the slice with slug `source`;
/// the slug itself when there is none.
pub open spec fn source_view_name(docs: Seq<EventModelDocument>, source: Seq<char>) -> Seq<char> {
    match slice_by_slug(docs, source) {
        Some(slice) => match first_with(docs, slice.owned_views@, found_view_name()) {
            Some(n) => n,
            None => source,
        },
        None => source,
    }
}

fn transition_source_view<'a>(docs: &'a [EventModelDocument], source: &'a DefinitionName) -> (r:
    &'a DefinitionName)
    ensures
        r@ == source_view_name(docs@, source@),
{
    match application_entry_slice_by_slug(docs, source) {
        Some(slice) => {
            let views = &slice.owned_views;
            let mut i: usize = 0;
            assert(views@.subrange(0, views@.len() as int) =~= views@);
            while i < views.len()
                invariant
                    i <= views@.len(),
                    views@ == slice.owned_views@,
                    slice_by_slug(docs@, source@) == Some(*slice),
                    first_with(docs@, views@, found_view_name()) == first_with(
                        docs@,
                        views@.subrange(i as int, views@.len() as int),
                        found_view_name(),
                    ),
                decreases views.len() - i,
            {
                proof {
                    lemma_first_with_step(docs@, views@, found_view_name(), i as int);
                }
                match view_definition_by_name(docs, &views[i]) {
                    Some(v) => {
                        return &v.name;
                    },
                    None => {},
                }
                i = i + 1;
            }
            assert(views@.subrange(i as int, views@.len() as int) =~= Seq::<DefinitionName>::empty());
            source
        },
        None => source,
    }
}

// ---- command transitions ----

pub open spec fn command_transition_not_invoked() -> spec_fn(Seq<EventModelDocument>, WorkflowCommandTransition) -> Option<
    Seq<char>,
> {
    |docs: Seq<EventModelDocument>, t: WorkflowCommandTransition|
        if has_source_control(docs, t.source_slice@, t.command@, false) {
            None
        } else {
            Some(
                "transition command '"@ + t.command@ + "' is not invoked by source view '"@
                    + source_view_name(docs, t.source_slice@) + "'"@,
            )
        }
}

pub open spec fn command_transition_not_owned() -> spec_fn(Seq<EventModelDocument>, WorkflowCommandTransition) -> Option<
    Seq<char>,
> {
    |docs: Seq<EventModelDocument>, t: WorkflowCommandTransition|
        if slug_slice_lists(docs, t.target_slice@, t.command@, SliceList::Commands) {
            None
        } else {
            Some(
                "transition command '"@ + t.command@ + "' is not owned by target slice '"@
                    + t.target_slice@ + "'"@,
            )
        }
}

pub open spec fn doc_command_transition(f: spec_fn(Seq<EventModelDocument>, WorkflowCommandTransition) -> Option<Seq<char>>) -> spec_fn(
    Seq<EventModelDocument>,
    EventModelDocument,
) -> Option<Seq<char>> {
    |docs: Seq<EventModelDocument>, doc: EventModelDocument| first_with(docs, doc.workflow_command_transitions@, f)
}

pub open spec fn command_not_invoked_issue(docs: Seq<EventModelDocument>) -> Option<Seq<char>> {
    first_with(docs, docs, doc_command_transition(command_transition_not_invoked()))
}

pub open spec fn command_not_owned_issue(docs: Seq<EventModelDocument>) -> Option<Seq<char>> {
    first_with(docs, docs, doc_command_transition(command_transition_not_owned()))
}

fn check_command_invoked(docs: &[EventModelDocument], t: &WorkflowCommandTransition) -> (r: Option<
    ValidationIssue,
>)
    ensures
        issue_view(r) == command_transition_not_invoked()(docs@, *t),
{
    if source_control_exists(docs, &t.source_slice, &t.command, false) {
        None
    } else {
        Some(
            msg5(
                "transition command '",
                t.command.as_str(),
                "' is not invoked by source view '",
                transition_source_view(docs, &t.source_slice).as_str(),
                "'",
            ),
        )
    }
}

fn check_command_owned(docs: &[EventModelDocument], t: &WorkflowCommandTransition) -> (r: Option<
    ValidationIssue,
>)
    ensures
        issue_view(r) == command_transition_not_owned()(docs@, *t),
{
    if slug_slice_has(docs, &t.target_slice, &t.command, SliceList::Commands) {
        None
    } else {
        Some(
            msg5(
                "transition command '",
                t.command.as_str(),
                "' is not owned by target slice '",
                t.target_slice.as_str(),
                "'",
            ),
        )
    }
}

fn check_doc_command_invoked(docs: &[EventModelDocument], doc: &EventModelDocument) -> (r: Option<
    ValidationIssue,
>)
    ensures
        issue_view(r) == doc_command_transition(command_transition_not_invoked())(docs@, *doc),
{
    first_issue_in_corpus(
        docs,
        &doc.workflow_command_transitions,
        check_command_invoked,
        Ghost(command_transition_not_invoked()),
    )
}

fn check_doc_command_owned(docs: &[EventModelDocument], doc: &EventModelDocument) -> (r: Option<
    ValidationIssue,
>)
    ensures
        issue_view(r) == doc_command_transition(command_transition_not_owned())(docs@, *doc),
{
    first_issue_in_corpus(
        docs,
        &doc.workflow_command_transitions,
        check_command_owned,
        Ghost(command_transition_not_owned()),
    )
}

pub fn validate_workflow_command_transitions_invoked_by_source_view(docs: &[EventModelDocument]) -> (r:
    Result<(), ValidationIssue>)
    ensures
        issue_of(r) == command_not_invoked_issue(docs@),
{
    into_result(
        first_issue_in_corpus(
            docs,
            docs,
            check_doc_command_invoked,
            Ghost(doc_command_transition(command_transition_not_invoked())),
        ),
    )
}

pub fn validate_workflow_command_transitions_owned_by_target_slice(docs: &[EventModelDocument]) -> (r:
    Result<(), ValidationIssue>)
    ensures
        issue_of(r) == command_not_owned_issue(docs@),
{
    into_result(
        first_issue_in_corpus(
            docs,
            docs,
            check_doc_command_owned,
            Ghost(doc_command_transition(command_transition_not_owned())),
        ),
    )
}

// ---- navigation transitions ----

/// Whether a state-change slice with slug `target` sits in a document that
/// defines the view `nav`.
pub open spec fn state_change_exposes(docs: Seq<EventModelDocument>, target: Seq<char>, nav: Seq<char>) -> bool {
    exists|d: int, k: int|
        0 <= d < docs.len() && 0 <= k < docs[d].slice_definitions@.len() && slug_matches(
            (#[trigger] docs[d].slice_definitions@[k]).name@,
            target,
        ) && docs[d].slice_definitions@[k].slice_type == SliceType::StateChange && view_exists(
            docs[d],
            nav,
        )
}

fn target_state_change_exposes_navigation_view(
    docs: &[EventModelDocument],
    target: &DefinitionName,
    nav: &DefinitionName,
) -> (r: bool)
    ensures
        r == state_change_exposes(docs@, target@, nav@),
{
    let mut d: usize = 0;
    while d < docs.len()
        invariant
            d <= docs@.len(),
            forall|a: int, k: int|
                0 <= a < d && 0 <= k < docs@[a].slice_definitions@.len() ==> !(slug_matches(
                    (#[trigger] docs@[a].slice_definitions@[k]).name@,
                    target@,
                ) && docs@[a].slice_definitions@[k].slice_type == SliceType::StateChange
                    && view_exists(docs@[a], nav@)),
        decreases docs.len() - d,
    {
        let doc = &docs[d];
        let exists_view = crate::validation::rules_views::view_is_defined(doc, nav);
        let slices = &doc.slice_definitions;
        let mut k: usize = 0;
        while k < slices.len()
            invariant
                d < docs@.len(),
                k <= slices@.len(),
                *doc == docs@[d as int],
                slices@ == doc.slice_definitions@,
                exists_view == view_exists(*doc, nav@),
                forall|a: int, k2: int|
                    0 <= a < d && 0 <= k2 < docs@[a].slice_definitions@.len() ==> !(slug_matches(
                        (#[trigger] docs@[a].slice_definitions@[k2]).name@,
                        target@,
                    ) && docs@[a].slice_definitions@[k2].slice_type == SliceType::StateChange
                        && view_exists(docs@[a], nav@)),
                forall|k2: int|
                    0 <= k2 < k ==> !(slug_matches((#[trigger] slices@[k2]).name@, target@)
                        && slices@[k2].slice_type == SliceType::StateChange && exists_view),
            decreases slices.len() - k,
        {
            if name_has_slug(&slices[k].name, target) && slices[k].slice_type == SliceType::StateChange
                && exists_view {
                assert(slug_matches(docs@[d as int].slice_definitions@[k as int].name@, target@));
                return true;
            }
            k = k + 1;
        }
        d = d + 1;
    }
    false
}

pub open spec fn navigation_not_owned() -> spec_fn(Seq<EventModelDocument>, WorkflowNavigationTransition) -> Option<
    Seq<char>,
> {
    |docs: Seq<EventModelDocument>, t: WorkflowNavigationTransition|
        if has_source_control(docs, t.source_slice@, t.navigation_target@, true) {
            None
        } else {
            Some(
                "navigation transition to '"@ + t.navigation_target@ + "' is not owned by source view '"@
                    + source_view_name(docs, t.source_slice@) + "'"@,
            )
        }
}

pub open spec fn navigation_not_resolved() -> spec_fn(Seq<EventModelDocument>, WorkflowNavigationTransition) -> Option<
    Seq<char>,
> {
    |docs: Seq<EventModelDocument>, t: WorkflowNavigationTransition|
        if slug_slice_lists(docs, t.target_slice@, t.navigation_target@, SliceList::Views)
            || state_change_exposes(docs, t.target_slice@, t.navigation_target@) {
            None
        } else {
            Some(
                "navigation target '"@ + t.navigation_target@ + "' does not resolve to target step '"@
                    + t.target_slice@ + "'"@,
            )
        }
}

pub open spec fn doc_navigation_transition(f: spec_fn(Seq<EventModelDocument>, WorkflowNavigationTransition) -> Option<Seq<char>>) -> spec_fn(
    Seq<EventModelDocument>,
    EventModelDocument,
) -> Option<Seq<char>> {
    |docs: Seq<EventModelDocument>, doc: EventModelDocument| first_with(docs, doc.workflow_navigation_transitions@, f)
}

pub open spec fn navigation_not_owned_issue(docs: Seq<EventModelDocument>) -> Option<Seq<char>> {
    first_with(docs, docs, doc_navigation_transition(navigation_not_owned()))
}

pub open spec fn navigation_not_resolved_issue(docs: Seq<EventModelDocument>) -> Option<Seq<char>> {
    first_with(docs, docs, doc_navigation_transition(navigation_not_resolved()))
}

fn check_navigation_owned(docs: &[EventModelDocument], t: &WorkflowNavigationTransition) -> (r: Option<
    ValidationIssue,
>)
    ensures
        issue_view(r) == navigation_not_owned()(docs@, *t),
{
    if source_control_exists(docs, &t.source_slice, &t.navigation_target, true) {
        None
    } else {
        Some(
            msg5(
                "navigation transition to '",
                t.navigation_target.as_str(),
                "' is not owned by source view '",
                transition_source_view(docs, &t.source_slice).as_str(),
                "'",
            ),
        )
    }
}

fn check_navigation_resolved(docs: &[EventModelDocument], t: &WorkflowNavigationTransition) -> (r: Option<
    ValidationIssue,
>)
    ensures
        issue_view(r) == navigation_not_resolved()(docs@, *t),
{
    if slug_slice_has(docs, &t.target_slice, &t.navigation_target, SliceList::Views)
        || target_state_change_exposes_navigation_view(docs, &t.target_slice, &t.navigation_target) {
        None
    } else {
        Some(
            msg5(
                "navigation target '",
                t.navigation_target.as_str(),
                "' does not resolve to target step '",
                t.target_slice.as_str(),
                "'",
            ),
        )
    }
}

fn check_doc_navigation_owned(docs: &[EventModelDocument], doc: &EventModelDocument) -> (r: Option<
    ValidationIssue,
>)
    ensures
        issue_view(r) == doc_navigation_transition(navigation_not_owned())(docs@, *doc),
{
    first_issue_in_corpus(
        docs,
        &doc.workflow_navigation_transitions,
        check_navigation_owned,
        Ghost(navigation_not_owned()),
    )
}

fn check_doc_navigation_resolved(docs: &[EventModelDocument], doc: &EventModelDocument) -> (r: Option<
    ValidationIssue,
>)
    ensures
        issue_view(r) == doc_navigation_transition(navigation_not_resolved())(docs@, *doc),
{
    first_issue_in_corpus(
        docs,
        &doc.workflow_navigation_transitions,
        check_navigation_resolved,
        Ghost(navigation_not_resolved()),
    )
}

pub fn validate_workflow_navigation_transitions_owned_by_source_view(docs: &[EventModelDocument]) -> (r:
    Result<(), ValidationIssue>)
    ensures
        issue_of(r) == navigation_not_owned_issue(docs@),
{
    into_result(
        first_issue_in_corpus(
            docs,
            docs,
            check_doc_navigation_owned,
            Ghost(doc_navigation_transition(navigation_not_owned())),
        ),
    )
}

pub fn validate_workflow_navigation_transitions_resolved_by_target_step(docs: &[EventModelDocument]) -> (r:
    Result<(), ValidationIssue>)
    ensures
        issue_of(r) == navigation_not_resolved_issue(docs@),
{
    into_result(
        first_issue_in_corpus(
            docs,
            docs,
            check_doc_navigation_resolved,
            Ghost(doc_navigation_transition(navigation_not_resolved())),
        ),
    )
}

// ---- external triggers and exits ----

pub open spec fn trigger_not_declared() -> spec_fn(Seq<EventModelDocument>, WorkflowExternalTriggerTransition) -> Option<
    Seq<char>,
> {
    |docs: Seq<EventModelDocument>, t: WorkflowExternalTriggerTransition|
        if slug_slice_lists(docs, t.target_slice@, t.external_trigger@, SliceList::ExternalTriggers) {
            None
        } else {
            Some(
                "external trigger '"@ + t.external_trigger@ + "' is not declared by target slice '"@
                    + t.target_slice@ + "'"@,
            )
        }
}

pub open spec fn doc_trigger_not_declared() -> spec_fn(Seq<EventModelDocument>, EventModelDocument) -> Option<
    Seq<char>,
> {
    |docs: Seq<EventModelDocument>, doc: EventModelDocument|
        first_with(docs, doc.workflow_external_trigger_transitions@, trigger_not_declared())
}

pub open spec fn trigger_not_declared_issue(docs: Seq<EventModelDocument>) -> Option<Seq<char>> {
    first_with(docs, docs, doc_trigger_not_declared())
}

fn check_trigger_declared(docs: &[EventModelDocument], t: &WorkflowExternalTriggerTransition) -> (r:
    Option<ValidationIssue>)
    ensures
        issue_view(r) == trigger_not_declared()(docs@, *t),
{
    if slug_slice_has(docs, &t.target_slice, &t.external_trigger, SliceList::ExternalTriggers) {
        None
    } else {
        Some(
            msg5(
                "external trigger '",
                t.external_trigger.as_str(),
                "' is not declared by target slice '",
                t.target_slice.as_str(),
                "'",
            ),
        )
    }
}

fn check_doc_triggers(docs: &[EventModelDocument], doc: &EventModelDocument) -> (r: Option<ValidationIssue>)
    ensures
        issue_view(r) == doc_trigger_not_declared()(docs@, *doc),
{
    first_issue_in_corpus(
        docs,
        &doc.workflow_external_trigger_transitions,
        check_trigger_declared,
        Ghost(trigger_not_declared()),
    )
}

pub fn validate_workflow_external_triggers_declared_by_target_slice(docs: &[EventModelDocument]) -> (r:
    Result<(), ValidationIssue>)
    ensures
        issue_of(r) == trigger_not_declared_issue(docs@),
{
    into_result(first_issue_in_corpus(docs, docs, check_doc_triggers, Ghost(doc_trigger_not_declared())))
}

pub open spec fn exit_without_rationale() -> spec_fn(Seq<EventModelDocument>, WorkflowExitTransition) -> Option<
    Seq<char>,
> {
    |docs: Seq<EventModelDocument>, t: WorkflowExitTransition|
        if t.rationale == WorkflowExitRationale::Missing {
            Some("workflow exit to '"@ + t.workflow@ + "' must declare why the exit is reached"@)
        } else {
            None
        }
}

pub open spec fn doc_exit_without_rationale() -> spec_fn(Seq<EventModelDocument>, EventModelDocument) -> Option<
    Seq<char>,
> {
    |docs: Seq<EventModelDocument>, doc: EventModelDocument|
        first_with(docs, doc.workflow_exit_transitions@, exit_without_rationale())
}

pub open spec fn exit_rationale_issue(docs: Seq<EventModelDocument>) -> Option<Seq<char>> {
    first_with(docs, docs, doc_exit_without_rationale())
}

fn check_exit(docs: &[EventModelDocument], t: &WorkflowExitTransition) -> (r: Option<ValidationIssue>)
    ensures
        issue_view(r) == exit_without_rationale()(docs@, *t),
{
    if t.rationale == WorkflowExitRationale::Missing {
        Some(msg3("workflow exit to '", t.workflow.as_str(), "' must declare why the exit is reached"))
    } else {
        None
    }
}

fn check_doc_exits(docs: &[EventModelDocument], doc: &EventModelDocument) -> (r: Option<ValidationIssue>)
    ensures
        issue_view(r) == doc_exit_without_rationale()(docs@, *doc),
{
    first_issue_in_corpus(docs, &doc.workflow_exit_transitions, check_exit, Ghost(exit_without_rationale()))
}

pub fn validate_workflow_exit_rationale(docs: &[EventModelDocument]) -> (r: Result<(), ValidationIssue>)
    ensures
        issue_of(r) == exit_rationale_issue(docs@),
{
    into_result(first_issue_in_corpus(docs, docs, check_doc_exits, Ghost(doc_exit_without_rationale())))
}

// ---- main-path board slices are connected ----

pub open spec fn main_step_disconnected() -> spec_fn(Seq<EventModelDocument>, WorkflowStep) -> Option<Seq<char>> {
    |docs: Seq<EventModelDocument>, step: WorkflowStep|
        if step.relationship == WorkflowStepRelationship::Main {
            match board_by_slug(docs, step.slice@) {
                Some(board) => if disconnected(board) {
                    Some("board slice '"@ + board.name@ + "' has disconnected main-path elements"@)
                } else {
                    None
                },
                None => None,
            }
        } else {
            None
        }
}

pub open spec fn doc_main_disconnected() -> spec_fn(Seq<EventModelDocument>, EventModelDocument) -> Option<
    Seq<char>,
> {
    |docs: Seq<EventModelDocument>, doc: EventModelDocument|
        first_with(docs, doc.workflow_steps@, main_step_disconnected())
}

pub open spec fn disconnected_board_issue(docs: Seq<EventModelDocument>) -> Option<Seq<char>> {
    first_with(docs, docs, doc_main_disconnected())
}

fn check_main_step(docs: &[EventModelDocument], step: &WorkflowStep) -> (r: Option<ValidationIssue>)
    ensures
        issue_view(r) == main_step_disconnected()(docs@, *step),
{
    if step.relationship == WorkflowStepRelationship::Main {
        match board_slice_by_slug(docs, &step.slice) {
            Some(board) => {
                if board_slice_has_disconnected_elements(board) {
                    Some(
                        msg3(
                            "board slice '",
                            board.name.as_str(),
                            "' has disconnected main-path elements",
                        ),
                    )
                } else {
                    None
                }
            },
            None => None,
        }
    } else {
        None
    }
}

fn check_doc_main_steps(docs: &[EventModelDocument], doc: &EventModelDocument) -> (r: Option<
    ValidationIssue,
>)
    ensures
        issue_view(r) == doc_main_disconnected()(docs@, *doc),
{
    first_issue_in_corpus(docs, &doc.workflow_steps, check_main_step, Ghost(main_step_disconnected()))
}

pub fn validate_main_workflow_board_slices_connected(docs: &[EventModelDocument]) -> (r: Result<
    (),
    ValidationIssue,
>)
    ensures
        issue_of(r) == disconnected_board_issue(docs@),
{
    into_result(first_issue_in_corpus(docs, docs, check_doc_main_steps, Ghost(doc_main_disconnected())))
}

} // verus!
