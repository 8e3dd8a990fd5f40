//! The validation of a corpus of documents: definitions claimed by more than
//! one slice, and the corpus rules on workflows, in order.

use vstd::prelude::*;

use crate::validation::claims::{
    claimed_before, conflicting_event_definition, corpus_claims, corpus_events, doc_claims,
    first_conflicting_event, first_contested, first_contested_claim, name_claims, slice_claims,
    slices_claims, ClaimKind, ClaimView,
};
use crate::validation::corpus_lookup::first_issue_in_corpus;
use crate::validation::corpus_rules::{
    entry_state_coverage_issue, not_accepted_event_issue, unavailable_event_issue,
    unshared_event_issue, validate_application_entry_state_coverage,
    validate_unshared_workflow_event_transitions,
    validate_workflow_event_transitions_accepted_by_target,
    validate_workflow_event_transitions_available_from_source,
};
use crate::validation::corpus_transitions::{
    command_not_invoked_issue, command_not_owned_issue, disconnected_board_issue,
    exit_rationale_issue, navigation_not_owned_issue, navigation_not_resolved_issue,
    trigger_not_declared_issue, validate_main_workflow_board_slices_connected,
    validate_workflow_command_transitions_invoked_by_source_view,
    validate_workflow_command_transitions_owned_by_target_slice,
    validate_workflow_exit_rationale, validate_workflow_external_triggers_declared_by_target_slice,
    validate_workflow_navigation_transitions_owned_by_source_view,
    validate_workflow_navigation_transitions_resolved_by_target_step,
};
use crate::validation::find::{
    first_issue_with2, first_issue_with3, first_with, into_result, issue_of, issue_view,
    lemma_first_with_step, msg3, msg5, msg7, or_else,
};
use crate::validation::model::{EventModelDocument, EventModelFileKind, OutcomeDefinition, SliceDefinition};
use crate::validation::names::{contains_name, has_name, DefinitionName, ValidationIssue};

verus! {

// ---- definitions claimed by two slices ----

/// The first definition of the kind claimed by two slices, named in
/// `prefix <key> suffix`.
pub open spec fn contested_issue(docs: Seq<EventModelDocument>, kind: ClaimKind, prefix: Seq<char>, suffix: Seq<char>) -> Option<
    Seq<char>,
> {
    match first_contested(corpus_claims(docs, kind), 0) {
        Some(c) => Some(prefix + c.0 + suffix),
        None => None,
    }
}

fn contested(docs: &[EventModelDocument], kind: ClaimKind, prefix: &str, suffix: &str) -> (r: Result<
    (),
    ValidationIssue,
>)
    ensures
        issue_of(r) == contested_issue(docs@, kind, prefix@, suffix@),
{
    match first_contested_claim(docs, kind) {
        Some(c) => Err(msg3(prefix, c.0.as_str(), suffix)),
        None => Ok(()),
    }
}

pub open spec fn contested_control_issue(docs: Seq<EventModelDocument>) -> Option<Seq<char>> {
    match first_contested(corpus_claims(docs, ClaimKind::Controls), 0) {
        Some(c) => Some(
            "control '"@ + c.1 + "' on view '"@ + c.0 + "' is defined by more than one slice"@,
        ),
        None => None,
    }
}

pub fn duplicate_slice_control_definition(docs: &[EventModelDocument]) -> (r: Result<
    (),
    ValidationIssue,
>)
    ensures
        issue_of(r) == contested_control_issue(docs@),
{
    match first_contested_claim(docs, ClaimKind::Controls) {
        Some(c) => Err(
            msg5("control '", c.1.as_str(), "' on view '", c.0.as_str(), "' is defined by more than one slice"),
        ),
        None => Ok(()),
    }
}

pub open spec fn conflicting_event_issue(docs: Seq<EventModelDocument>) -> Option<Seq<char>> {
    match first_conflicting_event(corpus_events(docs), 0) {
        Some(n) => Some("event '"@ + n + "' has conflicting definitions across slices"@),
        None => None,
    }
}

fn validate_event_definitions_agree(docs: &[EventModelDocument]) -> (r: Result<(), ValidationIssue>)
    ensures
        issue_of(r) == conflicting_event_issue(docs@),
{
    match conflicting_event_definition(docs) {
        Some(n) => Err(msg3("event '", n.as_str(), "' has conflicting definitions across slices")),
        None => Ok(()),
    }
}

// ---- outcomes handled by the workflow ----

pub open spec fn with_outcomes() -> spec_fn(Seq<EventModelDocument>, EventModelDocument) -> Option<
    EventModelDocument,
> {
    |docs: Seq<EventModelDocument>, doc: EventModelDocument|
        if doc.workflow_transition_outcomes@.len() > 0 {
            Some(doc)
        } else {
            None
        }
}

pub open spec fn outcome_unhandled() -> spec_fn((EventModelDocument, DefinitionName, SliceDefinition), OutcomeDefinition) -> Option<
    Seq<char>,
> {
    |c: (EventModelDocument, DefinitionName, SliceDefinition), outcome: OutcomeDefinition|
        if c.0.workflow_transition_outcomes@.contains(outcome.label@) {
            None
        } else {
            Some(
                "workflow '"@ + c.1@ + "' does not handle outcome '"@ + outcome.label@
                    + "' from slice '"@ + c.2.name@ + "'"@,
            )
        }
}

pub open spec fn slice_outcome_unhandled() -> spec_fn((EventModelDocument, DefinitionName), SliceDefinition) -> Option<
    Seq<char>,
> {
    |c: (EventModelDocument, DefinitionName), slice: SliceDefinition|
        first_with((c.0, c.1, slice), slice.outcomes@, outcome_unhandled())
}

pub open spec fn doc_outcome_unhandled() -> spec_fn((EventModelDocument, DefinitionName), EventModelDocument) -> Option<
    Seq<char>,
> {
    |c: (EventModelDocument, DefinitionName), doc: EventModelDocument|
        first_with(c, doc.slice_definitions@, slice_outcome_unhandled())
}

/// The first slice outcome, over the corpus, that the first workflow with
/// transition outcomes does not handle; nothing when that workflow is
/// unnamed or there is none.
pub open spec fn unhandled_outcome_issue(docs: Seq<EventModelDocument>) -> Option<Seq<char>> {
    match first_with(docs, docs, with_outcomes()) {
        Some(workflow) => match workflow.name {
            Some(name) => first_with((workflow, name), docs, doc_outcome_unhandled()),
            None => None,
        },
        None => None,
    }
}

fn check_outcome(
    workflow: &EventModelDocument,
    name: &DefinitionName,
    slice: &SliceDefinition,
    outcome: &OutcomeDefinition,
) -> (r: Option<ValidationIssue>)
    ensures
        issue_view(r) == outcome_unhandled()((*workflow, *name, *slice), *outcome),
{
    if workflow.workflow_transition_outcomes.contains(&outcome.label) {
        None
    } else {
        Some(
            msg7(
                "workflow '",
                name.as_str(),
                "' does not handle outcome '",
                outcome.label.as_str(),
                "' from slice '",
                slice.name.as_str(),
                "'",
            ),
        )
    }
}

fn check_slice_outcomes(workflow: &EventModelDocument, name: &DefinitionName, slice: &SliceDefinition) -> (r:
    Option<ValidationIssue>)
    ensures
        issue_view(r) == slice_outcome_unhandled()((*workflow, *name), *slice),
{
    first_issue_with3(workflow, name, slice, &slice.outcomes, check_outcome, Ghost(outcome_unhandled()))
}

fn check_doc_outcomes(workflow: &EventModelDocument, name: &DefinitionName, doc: &EventModelDocument) -> (r:
    Option<ValidationIssue>)
    ensures
        issue_view(r) == doc_outcome_unhandled()((*workflow, *name), *doc),
{
    first_issue_with2(workflow, name, &doc.slice_definitions, check_slice_outcomes, Ghost(slice_outcome_unhandled()))
}

fn first_workflow_with_outcomes(docs: &[EventModelDocument]) -> (r: Option<&EventModelDocument>)
    ensures
        match r {
            Some(d) => first_with(docs@, docs@, with_outcomes()) == Some(*d),
            None => first_with(docs@, docs@, with_outcomes()) is None,
        },
{
    let mut i: usize = 0;
    assert(docs@.subrange(0, docs@.len() as int) =~= docs@);
    while i < docs.len()
        invariant
            i <= docs@.len(),
            first_with(docs@, docs@, with_outcomes()) == first_with(
                docs@,
                docs@.subrange(i as int, docs@.len() as int),
                with_outcomes(),
            ),
        decreases docs.len() - i,
    {
        proof {
            lemma_first_with_step(docs@, docs@, with_outcomes(), i as int);
        }
        if !docs[i].workflow_transition_outcomes.is_empty() {
            return Some(&docs[i]);
        }
        i = i + 1;
    }
    assert(docs@.subrange(i as int, docs@.len() as int) =~= Seq::<EventModelDocument>::empty());
    None
}

pub fn validate_workflow_handles_slice_outcomes(docs: &[EventModelDocument]) -> (r: Result<
    (),
    ValidationIssue,
>)
    ensures
        issue_of(r) == unhandled_outcome_issue(docs@),
{
    let workflow = match first_workflow_with_outcomes(docs) {
        Some(w) => w,
        None => {
            return Ok(());
        },
    };
    let name = match &workflow.name {
        Some(n) => n,
        None => {
            return Ok(());
        },
    };
    into_result(first_issue_with2(workflow, name, docs, check_doc_outcomes, Ghost(doc_outcome_unhandled())))
}

// ---- transitions do not use command-local errors ----

/// Whether a command of the corpus declares the error `e`.
pub open spec fn command_error_declared(docs: Seq<EventModelDocument>, e: Seq<char>) -> bool {
    exists|d: int, k: int|
        0 <= d < docs.len() && 0 <= k < docs[d].command_definitions@.len() && has_name(
            (#[trigger] docs[d].command_definitions@[k]).errors@,
            e,
        )
}

fn command_errors_contain(docs: &[EventModelDocument], e: &DefinitionName) -> (r: bool)
    ensures
        r == command_error_declared(docs@, e@),
{
    let mut d: usize = 0;
    while d < docs.len()
        invariant
            d <= docs@.len(),
            forall|a: int, k: int|
                0 <= a < d && 0 <= k < docs@[a].command_definitions@.len() ==> !has_name(
                    (#[trigger] docs@[a].command_definitions@[k]).errors@,
                    e@,
                ),
        decreases docs.len() - d,
    {
        let commands = &docs[d].command_definitions;
        let mut k: usize = 0;
        while k < commands.len()
            invariant
                d < docs@.len(),
                k <= commands@.len(),
                commands@ == docs@[d as int].command_definitions@,
                forall|a: int, k2: int|
                    0 <= a < d && 0 <= k2 < docs@[a].command_definitions@.len() ==> !has_name(
                        (#[trigger] docs@[a].command_definitions@[k2]).errors@,
                        e@,
                    ),
                forall|k2: int| 0 <= k2 < k ==> !has_name((#[trigger] commands@[k2]).errors@, e@),
            decreases commands.len() - k,
        {
            if contains_name(&commands[k].errors, e) {
                assert(has_name(docs@[d as int].command_definitions@[k as int].errors@, e@));
                return true;
            }
            k = k + 1;
        }
        d = d + 1;
    }
    false
}

pub open spec fn error_is_command_local() -> spec_fn(Seq<EventModelDocument>, Seq<char>) -> Option<Seq<char>> {
    |docs: Seq<EventModelDocument>, e: Seq<char>|
        if command_error_declared(docs, e) {
            Some("workflow transition cannot use command-local error '"@ + e + "' as a business outcome"@)
        } else {
            None
        }
}

pub open spec fn doc_error_is_command_local() -> spec_fn(Seq<EventModelDocument>, EventModelDocument) -> Option<
    Seq<char>,
> {
    |docs: Seq<EventModelDocument>, doc: EventModelDocument|
        first_with(docs, doc.workflow_transition_errors@, error_is_command_local())
}

pub open spec fn command_local_error_issue(docs: Seq<EventModelDocument>) -> Option<Seq<char>> {
    first_with(docs, docs, doc_error_is_command_local())
}

fn check_doc_transition_errors(docs: &[EventModelDocument], doc: &EventModelDocument) -> (r: Option<
    ValidationIssue,
>)
    ensures
        issue_view(r) == doc_error_is_command_local()(docs@, *doc),
{
    let errors = &doc.workflow_transition_errors;
    let mut i: usize = 0;
    assert(errors@.subrange(0, errors@.len() as int) =~= errors@);
    while i < errors.len()
        invariant
            i <= errors@.len(),
            *errors == doc.workflow_transition_errors,
            first_with(docs@, errors@, error_is_command_local()) == first_with(
                docs@,
                errors@.subrange(i as int, errors@.len() as int),
                error_is_command_local(),
            ),
        decreases errors@.len() - i,
    {
        proof {
            lemma_first_with_step(docs@, errors@, error_is_command_local(), i as int);
        }
        let e = errors.get(i);
        if command_errors_contain(docs, e) {
            return Some(
                msg3(
                    "workflow transition cannot use command-local error '",
                    e.as_str(),
                    "' as a business outcome",
                ),
            );
        }
        i = i + 1;
    }
    assert(errors@.subrange(i as int, errors@.len() as int) =~= Seq::<Seq<char>>::empty());
    None
}

pub fn validate_workflow_transition_command_errors(docs: &[EventModelDocument]) -> (r: Result<
    (),
    ValidationIssue,
>)
    ensures
        issue_of(r) == command_local_error_issue(docs@),
{
    into_result(first_issue_in_corpus(docs, docs, check_doc_transition_errors, Ghost(doc_error_is_command_local())))
}

// ---- the corpus, rule by rule ----

/// The first issue of the corpus, in the order the rules are checked.
pub open spec fn corpus_issue(docs: Seq<EventModelDocument>) -> Option<Seq<char>> {
    or_else(
        contested_issue(docs, ClaimKind::Commands, "command '"@, "' is defined by more than one slice"@),
        or_else(
            contested_issue(
                docs,
                ClaimKind::ReadModels,
                "read model '"@,
                "' is defined by more than one slice"@,
            ),
            or_else(
                contested_control_issue(docs),
                or_else(
                    contested_issue(
                        docs,
                        ClaimKind::Automations,
                        "automation '"@,
                        "' is defined by more than one slice"@,
                    ),
                    or_else(
                        contested_issue(
                            docs,
                            ClaimKind::Translations,
                            "translation '"@,
                            "' is defined by more than one slice"@,
                        ),
                        or_else(
                            contested_issue(
                                docs,
                                ClaimKind::Scenarios,
                                "scenario '"@,
                                "' is ambiguously defined across slices"@,
                            ),
                            or_else(
                                contested_issue(
                                    docs,
                                    ClaimKind::Wireframes,
                                    "wireframe for view '"@,
                                    "' is defined by more than one slice"@,
                                ),
                                or_else(
                                    conflicting_event_issue(docs),
                                    workflow_corpus_issue(docs),
                                ),
                            ),
                        ),
                    ),
                ),
            ),
        ),
    )
}

/// The corpus rules on workflows, in order.
pub open spec fn workflow_corpus_issue(docs: Seq<EventModelDocument>) -> Option<Seq<char>> {
    or_else(
        entry_state_coverage_issue(docs),
        or_else(
            unshared_event_issue(docs),
            or_else(
                unavailable_event_issue(docs),
                or_else(
                    not_accepted_event_issue(docs),
                    or_else(
                        command_not_invoked_issue(docs),
                        or_else(
                            command_not_owned_issue(docs),
                            or_else(
                                navigation_not_owned_issue(docs),
                                or_else(
                                    navigation_not_resolved_issue(docs),
                                    or_else(
                                        trigger_not_declared_issue(docs),
                                        or_else(
                                            exit_rationale_issue(docs),
                                            or_else(
                                                disconnected_board_issue(docs),
                                                or_else(
                                                    unhandled_outcome_issue(docs),
                                                    or_else(
                                                        command_local_error_issue(docs),
                                                        contested_issue(
                                                            docs,
                                                            ClaimKind::Views,
                                                            "view '"@,
                                                            "' is defined by more than one slice"@,
                                                        ),
                                                    ),
                                                ),
                                            ),
                                        ),
                                    ),
                                ),
                            ),
                        ),
                    ),
                ),
            ),
        ),
    )
}

fn validate_workflow_corpus(docs: &[EventModelDocument]) -> (r: Result<(), ValidationIssue>)
    ensures
        issue_of(r) == workflow_corpus_issue(docs@),
{
    let r = validate_application_entry_state_coverage(docs);
    if r.is_err() {
        return r;
    }
    let r = validate_unshared_workflow_event_transitions(docs);
    if r.is_err() {
        return r;
    }
    let r = validate_workflow_event_transitions_available_from_source(docs);
    if r.is_err() {
        return r;
    }
    let r = validate_workflow_event_transitions_accepted_by_target(docs);
    if r.is_err() {
        return r;
    }
    let r = validate_workflow_command_transitions_invoked_by_source_view(docs);
    if r.is_err() {
        return r;
    }
    let r = validate_workflow_command_transitions_owned_by_target_slice(docs);
    if r.is_err() {
        return r;
    }
    let r = validate_workflow_navigation_transitions_owned_by_source_view(docs);
    if r.is_err() {
        return r;
    }
    let r = validate_workflow_navigation_transitions_resolved_by_target_step(docs);
    if r.is_err() {
        return r;
    }
    let r = validate_workflow_external_triggers_declared_by_target_slice(docs);
    if r.is_err() {
        return r;
    }
    let r = validate_workflow_exit_rationale(docs);
    if r.is_err() {
        return r;
    }
    let r = validate_main_workflow_board_slices_connected(docs);
    if r.is_err() {
        return r;
    }
    let r = validate_workflow_handles_slice_outcomes(docs);
    if r.is_err() {
        return r;
    }
    let r = validate_workflow_transition_command_errors(docs);
    if r.is_err() {
        return r;
    }
    contested(docs, ClaimKind::Views, "view '", "' is defined by more than one slice")
}

/// Checks every corpus rule, in order, and reports the first issue.
pub fn validate_event_model_corpus(docs: &[EventModelDocument]) -> (r: Result<(), ValidationIssue>)
    ensures
        issue_of(r) == corpus_issue(docs@),
{
    let r = contested(docs, ClaimKind::Commands, "command '", "' is defined by more than one slice");
    if r.is_err() {
        return r;
    }
    let r = contested(docs, ClaimKind::ReadModels, "read model '", "' is defined by more than one slice");
    if r.is_err() {
        return r;
    }
    let r = duplicate_slice_control_definition(docs);
    if r.is_err() {
        return r;
    }
    let r = contested(docs, ClaimKind::Automations, "automation '", "' is defined by more than one slice");
    if r.is_err() {
        return r;
    }
    let r = contested(docs, ClaimKind::Translations, "translation '", "' is defined by more than one slice");
    if r.is_err() {
        return r;
    }
    let r = contested(docs, ClaimKind::Scenarios, "scenario '", "' is ambiguously defined across slices");
    if r.is_err() {
        return r;
    }
    let r = contested(docs, ClaimKind::Wireframes, "wireframe for view '", "' is defined by more than one slice");
    if r.is_err() {
        return r;
    }
    let r = validate_event_definitions_agree(docs);
    if r.is_err() {
        return r;
    }
    validate_workflow_corpus(docs)
}

// ---- read models owned by two slices ----

/// Whether a slice named `owner` among `slices` owns the read model `n`.
pub open spec fn slice_owns_read_model(slices: Seq<SliceDefinition>, n: Seq<char>, owner: Seq<char>) -> bool {
    exists|s: int, k: int|
        #![trigger slices[s].owned_read_models@[k]]
        0 <= s < slices.len() && slices[s].name@ == owner && 0 <= k < slices[s].owned_read_models@.len()
            && slices[s].owned_read_models@[k]@ == n
}

/// Whether a slice named `owner` of a slice document of `docs` owns the read
/// model `n`.
pub open spec fn owns_read_model(docs: Seq<EventModelDocument>, n: Seq<char>, owner: Seq<char>) -> bool {
    exists|d: int|
        0 <= d < docs.len() && docs[d].file_kind == EventModelFileKind::Slice
            && #[trigger] slice_owns_read_model(docs[d].slice_definitions@, n, owner)
}

proof fn lemma_slices_read_model_claims(doc: EventModelDocument, ss: Seq<SliceDefinition>)
    ensures
        forall|i: int|
            0 <= i < slices_claims(doc, ss, ClaimKind::ReadModels).len() ==> {
                let c = #[trigger] slices_claims(doc, ss, ClaimKind::ReadModels)[i];
                c.0 == c.1 && slice_owns_read_model(ss, c.0, c.2)
            },
        forall|n: Seq<char>, o: Seq<char>|
            #[trigger] slice_owns_read_model(ss, n, o) ==> slices_claims(doc, ss, ClaimKind::ReadModels).contains(
                (n, n, o),
            ),
    decreases ss.len(),
{
    if ss.len() > 0 {
        let dl = ss.drop_last();
        lemma_slices_read_model_claims(doc, dl);
        let prev = slices_claims(doc, dl, ClaimKind::ReadModels);
        let last = ss.last();
        let nc = name_claims(last.owned_read_models@, last.name@);
        let c = slices_claims(doc, ss, ClaimKind::ReadModels);
        assert(c == prev + nc);
        assert forall|i: int| 0 <= i < c.len() implies {
            let t = #[trigger] c[i];
            t.0 == t.1 && slice_owns_read_model(ss, t.0, t.2)
        } by {
            if i < prev.len() {
                assert(c[i] == prev[i]);
                let t = prev[i];
                assert(slice_owns_read_model(dl, t.0, t.2));
                let (s, k) = choose|s: int, k: int|
                    #![trigger dl[s].owned_read_models@[k]]
                    0 <= s < dl.len() && dl[s].name@ == t.2 && 0 <= k < dl[s].owned_read_models@.len()
                        && dl[s].owned_read_models@[k]@ == t.0;
                assert(ss[s] == dl[s]);
                assert(ss[s].owned_read_models@[k]@ == t.0);
            } else {
                let k = i - prev.len();
                assert(c[i] == nc[k]);
                let s = ss.len() - 1;
                assert(ss[s].owned_read_models@[k]@ == c[i].0);
            }
        }
        assert forall|n: Seq<char>, o: Seq<char>| #[trigger] slice_owns_read_model(ss, n, o) implies c.contains(
            (n, n, o),
        ) by {
            let (s, k) = choose|s: int, k: int|
                #![trigger ss[s].owned_read_models@[k]]
                0 <= s < ss.len() && ss[s].name@ == o && 0 <= k < ss[s].owned_read_models@.len()
                    && ss[s].owned_read_models@[k]@ == n;
            if s < dl.len() {
                assert(dl[s] == ss[s]);
                assert(dl[s].owned_read_models@[k]@ == n);
                assert(slice_owns_read_model(dl, n, o));
                let i = choose|i: int| 0 <= i < prev.len() && prev[i] == (n, n, o);
                assert(c[i] == (n, n, o));
            } else {
                assert(c[prev.len() + k] == nc[k]);
                assert(c[prev.len() + k] == (n, n, o));
            }
        }
    }
}

proof fn lemma_corpus_read_model_claims(docs: Seq<EventModelDocument>)
    ensures
        forall|i: int|
            0 <= i < corpus_claims(docs, ClaimKind::ReadModels).len() ==> {
                let c = #[trigger] corpus_claims(docs, ClaimKind::ReadModels)[i];
                c.0 == c.1 && owns_read_model(docs, c.0, c.2)
            },
        forall|n: Seq<char>, o: Seq<char>|
            #[trigger] owns_read_model(docs, n, o) ==> corpus_claims(docs, ClaimKind::ReadModels).contains(
                (n, n, o),
            ),
    decreases docs.len(),
{
    if docs.len() > 0 {
        let dl = docs.drop_last();
        lemma_corpus_read_model_claims(dl);
        let last = docs.last();
        lemma_slices_read_model_claims(last, last.slice_definitions@);
        let prev = corpus_claims(dl, ClaimKind::ReadModels);
        let dc = doc_claims(last, ClaimKind::ReadModels);
        let c = corpus_claims(docs, ClaimKind::ReadModels);
        assert(c == prev + dc);
        assert forall|i: int| 0 <= i < c.len() implies {
            let t = #[trigger] c[i];
            t.0 == t.1 && owns_read_model(docs, t.0, t.2)
        } by {
            if i < prev.len() {
                assert(c[i] == prev[i]);
                let t = prev[i];
                assert(owns_read_model(dl, t.0, t.2));
                let d = choose|d: int|
                    0 <= d < dl.len() && dl[d].file_kind == EventModelFileKind::Slice
                        && #[trigger] slice_owns_read_model(dl[d].slice_definitions@, t.0, t.2);
                assert(docs[d] == dl[d]);
                assert(slice_owns_read_model(docs[d].slice_definitions@, t.0, t.2));
            } else {
                assert(c[i] == dc[i - prev.len()]);
                assert(last.file_kind == EventModelFileKind::Slice);
                let d = docs.len() - 1;
                assert(docs[d] == last);
                assert(slice_owns_read_model(docs[d].slice_definitions@, c[i].0, c[i].2));
            }
        }
        assert forall|n: Seq<char>, o: Seq<char>| #[trigger] owns_read_model(docs, n, o) implies c.contains(
            (n, n, o),
        ) by {
            let d = choose|d: int|
                0 <= d < docs.len() && docs[d].file_kind == EventModelFileKind::Slice
                    && #[trigger] slice_owns_read_model(docs[d].slice_definitions@, n, o);
            if d < dl.len() {
                assert(dl[d] == docs[d]);
                assert(owns_read_model(dl, n, o));
                let i = choose|i: int| 0 <= i < prev.len() && prev[i] == (n, n, o);
                assert(c[i] == (n, n, o));
            } else {
                assert(docs[d] == last);
                let i = choose|i: int| 0 <= i < dc.len() && dc[i] == (n, n, o);
                assert(c[prev.len() + i] == (n, n, o));
            }
        }
    }
}

proof fn lemma_first_contested_found(c: Seq<ClaimView>, m: nat, i: int)
    requires
        m <= i < c.len(),
        claimed_before(c, i),
    ensures
        first_contested(c, m) matches Some(t) && exists|j: int|
            m <= j < c.len() && claimed_before(c, j) && t == #[trigger] c[j],
    decreases i - m,
{
    if !claimed_before(c, m as int) {
        lemma_first_contested_found(c, m + 1, i);
    }
}

proof fn lemma_first_contested_claimed(c: Seq<ClaimView>, m: nat)
    ensures
        first_contested(c, m) matches Some(t) ==> exists|j: int|
            m <= j < c.len() && claimed_before(c, j) && t == #[trigger] c[j],
    decreases c.len() - m,
{
    if m < c.len() && !claimed_before(c, m as int) {
        lemma_first_contested_claimed(c, m + 1);
    }
}

/// A read model that two different slices of slice documents own is
/// reported as defined by more than one slice, naming a read model that two
/// different slices own, once no command is; and the read-model rule reports
/// nothing where no read model has two owners.
pub proof fn law_read_model_owned_by_two_slices_is_reported(
    docs: Seq<EventModelDocument>,
    n: Seq<char>,
    a: Seq<char>,
    b: Seq<char>,
)
    ensures
        owns_read_model(docs, n, a) && owns_read_model(docs, n, b) && a != b && contested_issue(
            docs,
            ClaimKind::Commands,
            "command '"@,
            "' is defined by more than one slice"@,
        ) is None ==> exists|x: Seq<char>, p: Seq<char>, q: Seq<char>|
            #![trigger owns_read_model(docs, x, p), owns_read_model(docs, x, q)]
            p != q && owns_read_model(docs, x, p) && owns_read_model(docs, x, q)
                && corpus_issue(docs) == Some("read model '"@ + x + "' is defined by more than one slice"@),
        (forall|x: Seq<char>, p: Seq<char>, q: Seq<char>|
            #![trigger owns_read_model(docs, x, p), owns_read_model(docs, x, q)]
            owns_read_model(docs, x, p) && owns_read_model(docs, x, q) ==> p == q) ==> contested_issue(
            docs,
            ClaimKind::ReadModels,
            "read model '"@,
            "' is defined by more than one slice"@,
        ) is None,
{
    let c = corpus_claims(docs, ClaimKind::ReadModels);
    lemma_corpus_read_model_claims(docs);
    lemma_first_contested_claimed(c, 0);
    if let Some(t) = first_contested(c, 0) {
        let j = choose|j: int| 0 <= j < c.len() && claimed_before(c, j) && t == #[trigger] c[j];
        let j2 = choose|j2: int| 0 <= j2 < j && (#[trigger] c[j2]).0 == c[j].0 && c[j2].1 == c[j].1 && c[j2].2 != c[j].2;
        assert(owns_read_model(docs, c[j].0, c[j].2));
        assert(owns_read_model(docs, c[j2].0, c[j2].2));
        assert(owns_read_model(docs, c[j].0, c[j2].2));
    }
    if owns_read_model(docs, n, a) && owns_read_model(docs, n, b) && a != b {
        assert(c.contains((n, n, a)));
        assert(c.contains((n, n, b)));
        let p = choose|p: int| 0 <= p < c.len() && c[p] == (n, n, a);
        let q = choose|q: int| 0 <= q < c.len() && c[q] == (n, n, b);
        if p < q {
            assert(claimed_before(c, q));
            lemma_first_contested_found(c, 0, q);
        } else {
            assert(claimed_before(c, p));
            lemma_first_contested_found(c, 0, p);
        }
    }
}

} // verus!
