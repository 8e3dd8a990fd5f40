//! Reading a workflow document: its name, its description, the slices of
//! its steps and the transitions that leave them.

use vstd::prelude::*;

use crate::dto::{error_words, text_error_words};
use crate::formal_graph::{
    slice_views, transition_views, SliceView, TransitionView, WorkflowSliceDetail,
    WorkflowTransitionRecord,
};
use crate::json::{
    field_items, field_text, items_field, json_text_error, json_text_value, parse_json_text,
    text_field, JsonValue,
};
use crate::search::{collect_all, lemma_collect_all_prefix_err, lemma_collect_all_step};
use crate::text::trim;
use crate::types::{
    slice_kind_name_terms, workflow_step_relationship_name_terms, workflow_transition_kind_terms,
    ModelDescription, ModelName, PayloadContractName, SliceKindName, SliceSlug, TextError,
    TransitionTriggerName, WorkflowStepRelationshipName, WorkflowTransitionEndpoint,
    WorkflowSliceFileReference, WorkflowTransitionKind,
};
use vstd::string::StringExecFns;

verus! {

// ---- reading one value ----

/// Reading `raw` as trimmed, non-empty text.
pub open spec fn text_value(raw: Seq<char>) -> Result<Seq<char>, TextError> {
    if trim(raw).len() > 0 {
        Ok(trim(raw))
    } else {
        Err(TextError::Empty)
    }
}

/// Reading `raw` as one of the terms that `terms` admits.
pub open spec fn term_value(raw: Seq<char>, terms: bool) -> Result<Seq<char>, TextError> {
    if terms {
        Ok(trim(raw))
    } else if trim(raw).len() == 0 {
        Err(TextError::Empty)
    } else {
        Err(TextError::Unmodeled)
    }
}

/// A reading whose failure is worded after `label`.
pub open spec fn labeled(r: Result<Seq<char>, TextError>, label: Seq<char>) -> Result<Seq<char>, Seq<char>> {
    match r {
        Ok(t) => Ok(t),
        Err(e) => Err(label + text_error_words(e)),
    }
}

/// Why a workflow document could not be read.
#[derive(Debug)]
pub struct WorkflowDocumentError {
    message: String,
}

impl View for WorkflowDocumentError {
    type V = Seq<char>;

    closed spec fn view(&self) -> Seq<char> {
        self.message@
    }
}

impl WorkflowDocumentError {
    fn new(message: String) -> (r: Self)
        ensures
            r@ == message@,
    {
        WorkflowDocumentError { message }
    }

    /// The message that explains the failure.
    pub fn message(&self) -> (r: &str)
        ensures
            r@ == self@,
    {
        self.message.as_str()
    }
}

fn fixed_error(message: &str) -> (r: WorkflowDocumentError)
    ensures
        r@ == message@,
{
    WorkflowDocumentError::new(message.to_owned())
}

fn invalid_json(error: &String) -> (r: WorkflowDocumentError)
    ensures
        r@ == "invalid workflow JSON: "@ + error@,
{
    let mut message = "invalid workflow JSON: ".to_owned();
    message.append(error.as_str());
    WorkflowDocumentError::new(message)
}

fn invalid(label: &str, e: TextError) -> (r: WorkflowDocumentError)
    ensures
        r@ == label@ + text_error_words(e),
{
    let mut message = label.to_owned();
    message.append(error_words(e));
    WorkflowDocumentError::new(message)
}

/// A read value of a text type, or the failure, as plain text.
pub open spec fn text_outcome<T: View<V = Seq<char>>>(r: Result<T, WorkflowDocumentError>) -> Result<
    Seq<char>,
    Seq<char>,
> {
    match r {
        Ok(t) => Ok(t@),
        Err(e) => Err(e@),
    }
}

fn required<'a>(v: &'a JsonValue, key: &str, missing: &str) -> (r: Result<&'a str, WorkflowDocumentError>)
    ensures
        match r {
            Ok(t) => field_text(*v, key@) == Some(t@),
            Err(e) => field_text(*v, key@) is None && e@ == missing@,
        },
{
    match text_field(v, key) {
        Some(t) => Ok(t),
        None => Err(fixed_error(missing)),
    }
}

// ---- the document ----

/// A workflow document: a JSON object.
#[derive(Debug)]
pub struct WorkflowDocument {
    value: JsonValue,
}

impl View for WorkflowDocument {
    type V = JsonValue;

    closed spec fn view(&self) -> JsonValue {
        self.value
    }
}

/// Reading the name of the workflow document `doc`.
pub open spec fn name_outcome(doc: JsonValue) -> Result<Seq<char>, Seq<char>> {
    match field_text(doc, "name"@) {
        None => Err("workflow document is missing name"@),
        Some(raw) => labeled(text_value(raw), "invalid workflow name: "@),
    }
}

/// Reading the description of the workflow document `doc`.
pub open spec fn description_outcome(doc: JsonValue) -> Result<Seq<char>, Seq<char>> {
    match field_text(doc, "description"@) {
        None => Err("workflow document is missing description"@),
        Some(raw) => labeled(text_value(raw), "invalid workflow description: "@),
    }
}

/// Reading the relationship of a step: `main` when it names none.
pub open spec fn relationship_outcome(step: JsonValue) -> Result<Seq<char>, Seq<char>> {
    match field_text(step, "relationship"@) {
        None => Ok("main"@),
        Some(raw) => labeled(
            term_value(raw, workflow_step_relationship_name_terms(trim(raw))),
            "invalid workflow step relationship: "@,
        ),
    }
}

/// Reading the slice of one step: its slug, name, kind, description and
/// relationship, in that order, each failure worded after its field.
pub open spec fn step_outcome(step: JsonValue) -> Result<SliceView, Seq<char>> {
    match field_text(step, "slice"@) {
        None => Err("workflow step is missing slice"@),
        Some(raw_slug) => match labeled(text_value(raw_slug), "invalid slice slug: "@) {
            Err(e) => Err(e),
            Ok(slug) => match field_text(step, "name"@) {
                None => Err("workflow step is missing name"@),
                Some(raw_name) => match labeled(text_value(raw_name), "invalid slice name: "@) {
                    Err(e) => Err(e),
                    Ok(name) => match field_text(step, "type"@) {
                        None => Err("workflow step is missing type"@),
                        Some(raw_kind) => match labeled(
                            term_value(raw_kind, slice_kind_name_terms(trim(raw_kind))),
                            "invalid slice kind: "@,
                        ) {
                            Err(e) => Err(e),
                            Ok(kind) => match field_text(step, "description"@) {
                                None => Err("workflow step is missing description"@),
                                Some(raw_description) => match labeled(
                                    text_value(raw_description),
                                    "invalid slice description: "@,
                                ) {
                                    Err(e) => Err(e),
                                    Ok(description) => match relationship_outcome(step) {
                                        Err(e) => Err(e),
                                        Ok(relationship) => Ok(
                                            SliceView { slug, name, kind, description, relationship },
                                        ),
                                    },
                                },
                            },
                        },
                    },
                },
            },
        },
    }
}

pub open spec fn detail_step() -> spec_fn(JsonValue) -> Result<SliceView, Seq<char>> {
    |step: JsonValue| step_outcome(step)
}

/// Reading the slices of the steps of `doc`, up to the first failure.
pub open spec fn details_outcome(doc: JsonValue) -> Result<Seq<SliceView>, Seq<char>> {
    match field_items(doc, "steps"@) {
        None => Err("workflow document is missing steps"@),
        Some(steps) => collect_all(steps, detail_step()),
    }
}

/// Slice details, or the failure, as plain values.
pub open spec fn details_view(r: Result<Vec<WorkflowSliceDetail>, WorkflowDocumentError>) -> Result<
    Seq<SliceView>,
    Seq<char>,
> {
    match r {
        Ok(v) => Ok(slice_views(v@)),
        Err(e) => Err(e@),
    }
}

fn slice_detail(step: &JsonValue) -> (r: Result<WorkflowSliceDetail, WorkflowDocumentError>)
    ensures
        match r {
            Ok(d) => step_outcome(*step) == Ok::<SliceView, Seq<char>>(d@),
            Err(e) => step_outcome(*step) == Err::<SliceView, Seq<char>>(e@),
        },
{
    let raw_slug = match required(step, "slice", "workflow step is missing slice") {
        Ok(t) => t,
        Err(e) => {
            return Err(e);
        },
    };
    let slug = match SliceSlug::try_new(raw_slug.to_owned()) {
        Ok(v) => v,
        Err(e) => {
            return Err(invalid("invalid slice slug: ", e));
        },
    };
    let raw_name = match required(step, "name", "workflow step is missing name") {
        Ok(t) => t,
        Err(e) => {
            return Err(e);
        },
    };
    let name = match ModelName::try_new(raw_name.to_owned()) {
        Ok(v) => v,
        Err(e) => {
            return Err(invalid("invalid slice name: ", e));
        },
    };
    let raw_kind = match required(step, "type", "workflow step is missing type") {
        Ok(t) => t,
        Err(e) => {
            return Err(e);
        },
    };
    let kind = match SliceKindName::try_new(raw_kind.to_owned()) {
        Ok(v) => v,
        Err(e) => {
            return Err(invalid("invalid slice kind: ", e));
        },
    };
    let raw_description = match required(step, "description", "workflow step is missing description") {
        Ok(t) => t,
        Err(e) => {
            return Err(e);
        },
    };
    let description = match ModelDescription::try_new(raw_description.to_owned()) {
        Ok(v) => v,
        Err(e) => {
            return Err(invalid("invalid slice description: ", e));
        },
    };
    let relationship = match text_field(step, "relationship") {
        Some(raw) => match WorkflowStepRelationshipName::try_new(raw.to_owned()) {
            Ok(v) => v,
            Err(e) => {
                return Err(invalid("invalid workflow step relationship: ", e));
            },
        },
        None => {
            let main = "main";
            proof {
                reveal_strlit("main");
                assert(trim(main@) == main@);
            }
            let r = WorkflowStepRelationshipName::try_new(main.to_owned());
            r.unwrap()
        },
    };
    Ok(WorkflowSliceDetail { slug, name, kind, description, relationship })
}

impl WorkflowDocument {
    #[verifier::type_invariant]
    spec fn wf(&self) -> bool {
        self.value is Object
    }

    /// The document held by `value`; refuses a value that is not an object.
    pub fn from_value(value: JsonValue) -> (r: Result<Self, WorkflowDocumentError>)
        ensures
            value is Object ==> (r matches Ok(d) && d@ == value),
            !(value is Object) ==> (r matches Err(e) && e@
                == "workflow document must be a JSON object"@),
    {
        if let JsonValue::Object(_) = value {
            Ok(WorkflowDocument { value })
        } else {
            Err(fixed_error("workflow document must be a JSON object"))
        }
    }

    /// The document held by `value`, when it is an object.
    pub fn from_value_optional(value: JsonValue) -> (r: Result<Option<Self>, WorkflowDocumentError>)
        ensures
            r matches Ok(o) && (o is Some <==> value is Object) && (o matches Some(d) ==> d@ == value),
    {
        if let JsonValue::Object(_) = value {
            Ok(Some(WorkflowDocument { value }))
        } else {
            Ok(None)
        }
    }

    /// The document written in `contents`; refuses text that is not JSON
    /// and JSON that is not an object.
    pub fn parse(contents: &str) -> (r: Result<Self, WorkflowDocumentError>)
        ensures
            json_text_value(contents@) is None ==> (r matches Err(e) && e@ == "invalid workflow JSON: "@
                + json_text_error(contents@)),
            json_text_value(contents@) matches Some(v) ==> ((r is Ok <==> v is Object) && (r matches Ok(
                d,
            ) ==> d@ == v) && (!(v is Object) ==> (r matches Err(e) && e@
                == "workflow document must be a JSON object"@))),
    {
        match parse_json_text(contents) {
            Ok(value) => Self::from_value(value),
            Err(error) => Err(invalid_json(&error)),
        }
    }

    /// The document written in `contents`, when it is a JSON object; refuses
    /// text that is not JSON.
    pub fn parse_optional(contents: &str) -> (r: Result<Option<Self>, WorkflowDocumentError>)
        ensures
            json_text_value(contents@) is None ==> (r matches Err(e) && e@ == "invalid workflow JSON: "@
                + json_text_error(contents@)),
            json_text_value(contents@) matches Some(v) ==> (r matches Ok(o) && (o is Some <==> v is Object)
                && (o matches Some(d) ==> d@ == v)),
    {
        match parse_json_text(contents) {
            Ok(value) => Self::from_value_optional(value),
            Err(error) => Err(invalid_json(&error)),
        }
    }

    /// The workflow's name.
    pub fn name(&self) -> (r: Result<ModelName, WorkflowDocumentError>)
        ensures
            text_outcome(r) == name_outcome(self@),
    {
        let raw = match required(&self.value, "name", "workflow document is missing name") {
            Ok(t) => t,
            Err(e) => {
                return Err(e);
            },
        };
        match ModelName::try_new(raw.to_owned()) {
            Ok(v) => Ok(v),
            Err(e) => Err(invalid("invalid workflow name: ", e)),
        }
    }

    /// The workflow's description.
    pub fn description(&self) -> (r: Result<ModelDescription, WorkflowDocumentError>)
        ensures
            text_outcome(r) == description_outcome(self@),
    {
        let raw = match required(&self.value, "description", "workflow document is missing description") {
            Ok(t) => t,
            Err(e) => {
                return Err(e);
            },
        };
        match ModelDescription::try_new(raw.to_owned()) {
            Ok(v) => Ok(v),
            Err(e) => Err(invalid("invalid workflow description: ", e)),
        }
    }

    /// The slices of the workflow's steps, in order.
    pub fn slice_details(&self) -> (r: Result<Vec<WorkflowSliceDetail>, WorkflowDocumentError>)
        ensures
            details_view(r) == details_outcome(self@),
    {
        let steps = match items_field(&self.value, "steps") {
            Some(s) => s,
            None => {
                return Err(fixed_error("workflow document is missing steps"));
            },
        };
        let ghost s = steps@;
        let mut out: Vec<WorkflowSliceDetail> = Vec::new();
        let mut i: usize = 0;
        assert(s.take(0) =~= Seq::<JsonValue>::empty());
        assert(slice_views(out@) =~= Seq::<SliceView>::empty());
        while i < steps.len()
            invariant
                i <= s.len(),
                s == steps@,
                field_items(self@, "steps"@) == Some(s),
                out@.len() == i,
                collect_all(s.take(i as int), detail_step()) == Ok::<Seq<SliceView>, Seq<char>>(
                    slice_views(out@),
                ),
            decreases steps.len() - i,
        {
            proof {
                lemma_collect_all_step(s, detail_step(), i as int);
            }
            match slice_detail(&steps[i]) {
                Ok(d) => {
                    let ghost before = out@;
                    out.push(d);
                    assert(slice_views(out@) =~= slice_views(before).push(out@.last()@));
                },
                Err(e) => {
                    proof {
                        lemma_collect_all_prefix_err(s, detail_step(), i + 1);
                    }
                    return Err(e);
                },
            }
            i = i + 1;
        }
        assert(s.take(s.len() as int) =~= s);
        Ok(out)
    }
}

// ---- transitions ----

/// What triggers the transition `t`: the first of its `via_command`,
/// `via_event`, `via_navigation`, `via_external_trigger` and `via_outcome`
/// members that is a string, then, when `with_reason`, its `exit_reason`;
/// with the kind that member names.
pub open spec fn trigger_of(t: JsonValue, with_reason: bool) -> Option<(Seq<char>, Seq<char>)> {
    match field_text(t, "via_command"@) {
        Some(x) => Some(("command"@, x)),
        None => match field_text(t, "via_event"@) {
            Some(x) => Some(("event"@, x)),
            None => match field_text(t, "via_navigation"@) {
                Some(x) => Some(("navigation"@, x)),
                None => match field_text(t, "via_external_trigger"@) {
                    Some(x) => Some(("external_trigger"@, x)),
                    None => match field_text(t, "via_outcome"@) {
                        Some(x) => Some(("outcome"@, x)),
                        None => if with_reason {
                            match field_text(t, "exit_reason"@) {
                                Some(x) => Some(("reason"@, x)),
                                None => None,
                            }
                        } else {
                            None
                        },
                    },
                },
            },
        },
    }
}

/// The member of a transition that names a trigger of kind `kind`: `via_`
/// and the kind, or `exit_reason` for a reason.
pub open spec fn trigger_member(kind: Seq<char>) -> Seq<char> {
    if kind == "reason"@ {
        "exit_reason"@
    } else {
        "via_"@ + kind
    }
}

/// The trigger read from a transition is the text of the member named after
/// its kind: a command trigger comes from `via_command`, an external trigger
/// from `via_external_trigger`, and so on; a reason is read only where one
/// may stand.
pub proof fn law_trigger_kind_names_its_member(t: JsonValue, with_reason: bool)
    ensures
        trigger_of(t, with_reason) matches Some(p) ==> field_text(t, trigger_member(p.0)) == Some(p.1)
            && (p.0 == "reason"@ ==> with_reason),
{
    reveal_strlit("reason");
    reveal_strlit("exit_reason");
    reveal_strlit("via_");
    reveal_strlit("command");
    reveal_strlit("event");
    reveal_strlit("navigation");
    reveal_strlit("external_trigger");
    reveal_strlit("outcome");
    reveal_strlit("via_command");
    reveal_strlit("via_event");
    reveal_strlit("via_navigation");
    reveal_strlit("via_external_trigger");
    reveal_strlit("via_outcome");
    assert("command"@.len() != "reason"@.len());
    assert("event"@.len() != "reason"@.len());
    assert("navigation"@.len() != "reason"@.len());
    assert("external_trigger"@.len() != "reason"@.len());
    assert("outcome"@.len() != "reason"@.len());
    assert("via_"@ + "command"@ =~= "via_command"@);
    assert("via_"@ + "event"@ =~= "via_event"@);
    assert("via_"@ + "navigation"@ =~= "via_navigation"@);
    assert("via_"@ + "external_trigger"@ =~= "via_external_trigger"@);
    assert("via_"@ + "outcome"@ =~= "via_outcome"@);
}

/// A transition as it stands in a document, before its values are read.
pub struct RawTransition {
    pub source: Seq<char>,
    pub target: Seq<char>,
    pub kind: Seq<char>,
    pub trigger: Seq<char>,
    pub rationale: Option<Seq<char>>,
    pub payload_contract: Option<Seq<char>>,
}

/// The transition `t` that leaves the step `source`: one with a `to` step
/// and a trigger, or else one with a `to_workflow` and a trigger, which is a
/// workflow exit whose rationale is its `exit_reason`; none otherwise.
pub open spec fn raw_transition(source: Seq<char>, t: JsonValue) -> Option<RawTransition> {
    let payload_contract = field_text(t, "payload_contract"@);
    match (field_text(t, "to"@), trigger_of(t, true)) {
        (Some(target), Some((kind, trigger))) => Some(
            RawTransition { source, target, kind, trigger, rationale: None, payload_contract },
        ),
        _ => match (field_text(t, "to_workflow"@), trigger_of(t, false)) {
            (Some(target), Some((kind, trigger))) => Some(
                RawTransition {
                    source,
                    target,
                    kind: "workflow_exit:"@ + kind,
                    trigger,
                    rationale: field_text(t, "exit_reason"@),
                    payload_contract,
                },
            ),
            _ => None,
        },
    }
}

/// The transitions among `ts` that leave the step `source`, in order.
pub open spec fn raw_list(source: Seq<char>, ts: Seq<JsonValue>) -> Seq<RawTransition>
    decreases ts.len(),
{
    if ts.len() == 0 {
        Seq::empty()
    } else {
        let prior = raw_list(source, ts.drop_last());
        match raw_transition(source, ts.last()) {
            Some(r) => prior.push(r),
            None => prior,
        }
    }
}

/// The transitions of a step that names its slice and lists transitions.
pub open spec fn step_raw(step: JsonValue) -> Seq<RawTransition> {
    match (field_text(step, "slice"@), field_items(step, "transitions"@)) {
        (Some(source), Some(ts)) => raw_list(source, ts),
        _ => Seq::empty(),
    }
}

/// The transitions of all `steps`, in order.
pub open spec fn all_raw(steps: Seq<JsonValue>) -> Seq<RawTransition>
    decreases steps.len(),
{
    if steps.len() == 0 {
        Seq::empty()
    } else {
        all_raw(steps.drop_last()) + step_raw(steps.last())
    }
}

/// Reading a transition: its source, target, kind and trigger, in that
/// order, then its rationale, or else its payload contract.
pub open spec fn record_outcome(r: RawTransition) -> Result<TransitionView, Seq<char>> {
    match labeled(text_value(r.source), "invalid workflow transition source: "@) {
        Err(e) => Err(e),
        Ok(source) => match labeled(text_value(r.target), "invalid workflow transition target: "@) {
            Err(e) => Err(e),
            Ok(target) => match labeled(
                term_value(r.kind, workflow_transition_kind_terms(trim(r.kind))),
                "invalid workflow transition kind: "@,
            ) {
                Err(e) => Err(e),
                Ok(kind) => match labeled(text_value(r.trigger), "invalid workflow transition trigger: "@) {
                    Err(e) => Err(e),
                    Ok(trigger) => match r.rationale {
                        Some(raw) => match labeled(
                            text_value(raw),
                            "invalid workflow transition rationale: "@,
                        ) {
                            Err(e) => Err(e),
                            Ok(rationale) => Ok(
                                TransitionView {
                                    source,
                                    target,
                                    kind,
                                    trigger,
                                    rationale: Some(rationale),
                                    payload_contract: None,
                                },
                            ),
                        },
                        None => match r.payload_contract {
                            Some(raw) => match labeled(text_value(raw), "invalid payload contract: "@) {
                                Err(e) => Err(e),
                                Ok(payload) => Ok(
                                    TransitionView {
                                        source,
                                        target,
                                        kind,
                                        trigger,
                                        rationale: None,
                                        payload_contract: Some(payload),
                                    },
                                ),
                            },
                            None => Ok(
                                TransitionView {
                                    source,
                                    target,
                                    kind,
                                    trigger,
                                    rationale: None,
                                    payload_contract: None,
                                },
                            ),
                        },
                    },
                },
            },
        },
    }
}

pub open spec fn record_step() -> spec_fn(RawTransition) -> Result<TransitionView, Seq<char>> {
    |r: RawTransition| record_outcome(r)
}

/// Reading the transitions of the steps of `doc`, up to the first failure.
pub open spec fn transitions_outcome(doc: JsonValue) -> Result<Seq<TransitionView>, Seq<char>> {
    match field_items(doc, "steps"@) {
        None => Err("workflow document is missing steps"@),
        Some(steps) => collect_all(all_raw(steps), record_step()),
    }
}

/// Transition records, or the failure, as plain values.
pub open spec fn transitions_view(r: Result<Vec<WorkflowTransitionRecord>, WorkflowDocumentError>) -> Result<
    Seq<TransitionView>,
    Seq<char>,
> {
    match r {
        Ok(v) => Ok(transition_views(v@)),
        Err(e) => Err(e@),
    }
}

pub open spec fn text_of(o: Option<String>) -> Option<Seq<char>> {
    match o {
        Some(t) => Some(t@),
        None => None,
    }
}

struct RawTransitionRecord {
    source: String,
    target: String,
    kind: String,
    trigger: String,
    rationale: Option<String>,
    payload_contract: Option<String>,
}

impl View for RawTransitionRecord {
    type V = RawTransition;

    closed spec fn view(&self) -> RawTransition {
        RawTransition {
            source: self.source@,
            target: self.target@,
            kind: self.kind@,
            trigger: self.trigger@,
            rationale: text_of(self.rationale),
            payload_contract: text_of(self.payload_contract),
        }
    }
}

spec fn raw_views(v: Seq<RawTransitionRecord>) -> Seq<RawTransition> {
    v.map_values(|r: RawTransitionRecord| r@)
}

fn owned_field(v: &JsonValue, key: &str) -> (r: Option<String>)
    ensures
        text_of(r) == field_text(*v, key@),
{
    match text_field(v, key) {
        Some(t) => Some(t.to_owned()),
        None => None,
    }
}

fn trigger_named(t: &JsonValue, with_reason: bool) -> (r: Option<(&'static str, String)>)
    ensures
        match r {
            Some((kind, trigger)) => trigger_of(*t, with_reason) == Some((kind@, trigger@)),
            None => trigger_of(*t, with_reason) is None,
        },
{
    if let Some(x) = text_field(t, "via_command") {
        return Some(("command", x.to_owned()));
    }
    if let Some(x) = text_field(t, "via_event") {
        return Some(("event", x.to_owned()));
    }
    if let Some(x) = text_field(t, "via_navigation") {
        return Some(("navigation", x.to_owned()));
    }
    if let Some(x) = text_field(t, "via_external_trigger") {
        return Some(("external_trigger", x.to_owned()));
    }
    if let Some(x) = text_field(t, "via_outcome") {
        return Some(("outcome", x.to_owned()));
    }
    if with_reason {
        if let Some(x) = text_field(t, "exit_reason") {
            return Some(("reason", x.to_owned()));
        }
    }
    None
}

fn raw_transition_of(source: &str, t: &JsonValue) -> (r: Option<RawTransitionRecord>)
    ensures
        match r {
            Some(x) => raw_transition(source@, *t) == Some(x@),
            None => raw_transition(source@, *t) is None,
        },
{
    if let Some(target) = text_field(t, "to") {
        if let Some((kind, trigger)) = trigger_named(t, true) {
            return Some(
                RawTransitionRecord {
                    source: source.to_owned(),
                    target: target.to_owned(),
                    kind: kind.to_owned(),
                    trigger,
                    rationale: None,
                    payload_contract: owned_field(t, "payload_contract"),
                },
            );
        }
    }
    if let Some(target) = text_field(t, "to_workflow") {
        if let Some((kind, trigger)) = trigger_named(t, false) {
            return Some(
                RawTransitionRecord {
                    source: source.to_owned(),
                    target: target.to_owned(),
                    kind: crate::effect::concat2("workflow_exit:", kind),
                    trigger,
                    rationale: owned_field(t, "exit_reason"),
                    payload_contract: owned_field(t, "payload_contract"),
                },
            );
        }
    }
    None
}

fn transition_record(raw: &RawTransitionRecord) -> (r: Result<WorkflowTransitionRecord, WorkflowDocumentError>)
    ensures
        match r {
            Ok(t) => record_outcome(raw@) == Ok::<TransitionView, Seq<char>>(t@),
            Err(e) => record_outcome(raw@) == Err::<TransitionView, Seq<char>>(e@),
        },
{
    let source = match WorkflowTransitionEndpoint::try_new(raw.source.clone()) {
        Ok(v) => v,
        Err(e) => {
            return Err(invalid("invalid workflow transition source: ", e));
        },
    };
    let target = match WorkflowTransitionEndpoint::try_new(raw.target.clone()) {
        Ok(v) => v,
        Err(e) => {
            return Err(invalid("invalid workflow transition target: ", e));
        },
    };
    let kind = match WorkflowTransitionKind::try_new(raw.kind.clone()) {
        Ok(v) => v,
        Err(e) => {
            return Err(invalid("invalid workflow transition kind: ", e));
        },
    };
    let trigger = match TransitionTriggerName::try_new(raw.trigger.clone()) {
        Ok(v) => v,
        Err(e) => {
            return Err(invalid("invalid workflow transition trigger: ", e));
        },
    };
    match &raw.rationale {
        Some(r) => match ModelDescription::try_new(r.clone()) {
            Ok(rationale) => Ok(
                WorkflowTransitionRecord {
                    source,
                    target,
                    kind,
                    trigger,
                    rationale: Some(rationale),
                    payload_contract: None,
                },
            ),
            Err(e) => Err(invalid("invalid workflow transition rationale: ", e)),
        },
        None => match &raw.payload_contract {
            Some(p) => match PayloadContractName::try_new(p.clone()) {
                Ok(payload) => Ok(
                    WorkflowTransitionRecord {
                        source,
                        target,
                        kind,
                        trigger,
                        rationale: None,
                        payload_contract: Some(payload),
                    },
                ),
                Err(e) => Err(invalid("invalid payload contract: ", e)),
            },
            None => Ok(
                WorkflowTransitionRecord {
                    source,
                    target,
                    kind,
                    trigger,
                    rationale: None,
                    payload_contract: None,
                },
            ),
        },
    }
}

fn raw_transitions(steps: &Vec<JsonValue>) -> (r: Vec<RawTransitionRecord>)
    ensures
        raw_views(r@) == all_raw(steps@),
{
    let ghost s = steps@;
    let mut raws: Vec<RawTransitionRecord> = Vec::new();
    let mut i: usize = 0;
    assert(s.take(0) =~= Seq::<JsonValue>::empty());
    assert(raw_views(raws@) =~= Seq::<RawTransition>::empty());
    while i < steps.len()
        invariant
            i <= s.len(),
            s == steps@,
            raw_views(raws@) == all_raw(s.take(i as int)),
        decreases steps.len() - i,
    {
        assert(s.take(i + 1).drop_last() =~= s.take(i as int));
        assert(s.take(i + 1).last() == s[i as int]);
        let step = &steps[i];
        let ghost base = raw_views(raws@);
        match (text_field(step, "slice"), items_field(step, "transitions")) {
            (Some(source), Some(ts)) => {
                let mut j: usize = 0;
                assert(ts@.take(0) =~= Seq::<JsonValue>::empty());
                assert(base + raw_list(source@, ts@.take(0)) =~= base);
                while j < ts.len()
                    invariant
                        j <= ts@.len(),
                        raw_views(raws@) == base + raw_list(source@, ts@.take(j as int)),
                    decreases ts.len() - j,
                {
                    assert(ts@.take(j + 1).drop_last() =~= ts@.take(j as int));
                    assert(ts@.take(j + 1).last() == ts@[j as int]);
                    match raw_transition_of(source, &ts[j]) {
                        Some(r) => {
                            let ghost before = raws@;
                            raws.push(r);
                            assert(raw_views(raws@) =~= raw_views(before).push(raws@.last()@));
                            assert(base + raw_list(source@, ts@.take(j + 1)) =~= (base + raw_list(
                                source@,
                                ts@.take(j as int),
                            )).push(raws@.last()@));
                        },
                        None => {},
                    }
                    j = j + 1;
                }
                assert(ts@.take(ts@.len() as int) =~= ts@);
            },
            _ => {
                assert(step_raw(s[i as int]) =~= Seq::<RawTransition>::empty());
                assert(raw_views(raws@) =~= base + step_raw(s[i as int]));
            },
        }
        i = i + 1;
    }
    assert(s.take(s.len() as int) =~= s);
    raws
}

impl WorkflowDocument {
    /// The transitions that leave the workflow's steps, in order.
    pub fn transitions(&self) -> (r: Result<Vec<WorkflowTransitionRecord>, WorkflowDocumentError>)
        ensures
            transitions_view(r) == transitions_outcome(self@),
    {
        let steps = match items_field(&self.value, "steps") {
            Some(s) => s,
            None => {
                return Err(fixed_error("workflow document is missing steps"));
            },
        };
        let raws = raw_transitions(steps);
        let ghost rv = raw_views(raws@);
        let mut out: Vec<WorkflowTransitionRecord> = Vec::new();
        let mut k: usize = 0;
        assert(rv.take(0) =~= Seq::<RawTransition>::empty());
        assert(transition_views(out@) =~= Seq::<TransitionView>::empty());
        while k < raws.len()
            invariant
                k <= raws@.len(),
                rv == raw_views(raws@),
                rv == all_raw(steps@),
                field_items(self@, "steps"@) == Some(steps@),
                out@.len() == k,
                collect_all(rv.take(k as int), record_step()) == Ok::<Seq<TransitionView>, Seq<char>>(
                    transition_views(out@),
                ),
            decreases raws.len() - k,
        {
            proof {
                lemma_collect_all_step(rv, record_step(), k as int);
            }
            match transition_record(&raws[k]) {
                Ok(t) => {
                    let ghost before = out@;
                    out.push(t);
                    assert(transition_views(out@) =~= transition_views(before).push(out@.last()@));
                },
                Err(e) => {
                    proof {
                        lemma_collect_all_prefix_err(rv, record_step(), k + 1);
                    }
                    return Err(e);
                },
            }
            k = k + 1;
        }
        assert(rv.take(rv.len() as int) =~= rv);
        Ok(out)
    }
}

// ---- slice files ----

/// The strings among `items`, in order.
pub open spec fn string_items(items: Seq<JsonValue>) -> Seq<Seq<char>>
    decreases items.len(),
{
    if items.len() == 0 {
        Seq::empty()
    } else {
        let prior = string_items(items.drop_last());
        match items.last() {
            JsonValue::Text(t) => prior.push(t@),
            _ => prior,
        }
    }
}

pub open spec fn file_reference_step() -> spec_fn(Seq<char>) -> Result<Seq<char>, Seq<char>> {
    |raw: Seq<char>| labeled(text_value(raw), "invalid workflow slice file reference: "@)
}

/// Reading the slice files of `doc`: none when it lists none; else the
/// string items of its list, each a trimmed non-empty reference, up to the
/// first that is not.
pub open spec fn optional_slice_files_outcome(doc: JsonValue) -> Result<Option<Seq<Seq<char>>>, Seq<char>> {
    match field_items(doc, "slice_files"@) {
        None => Ok(None),
        Some(items) => match collect_all(string_items(items), file_reference_step()) {
            Ok(refs) => Ok(Some(refs)),
            Err(e) => Err(e),
        },
    }
}

/// Reading the slice files of `doc`, which must list them.
pub open spec fn slice_files_outcome(doc: JsonValue) -> Result<Seq<Seq<char>>, Seq<char>> {
    match optional_slice_files_outcome(doc) {
        Ok(None) => Err("workflow document is missing slice_files"@),
        Ok(Some(refs)) => Ok(refs),
        Err(e) => Err(e),
    }
}

pub open spec fn reference_views(v: Seq<WorkflowSliceFileReference>) -> Seq<Seq<char>> {
    v.map_values(|r: WorkflowSliceFileReference| r@)
}

fn strings_of(items: &Vec<JsonValue>) -> (r: Vec<String>)
    ensures
        r@.map_values(|t: String| t@) == string_items(items@),
{
    let mut out: Vec<String> = Vec::new();
    let mut i: usize = 0;
    assert(items@.take(0) =~= Seq::<JsonValue>::empty());
    assert(out@.map_values(|t: String| t@) =~= Seq::<Seq<char>>::empty());
    while i < items.len()
        invariant
            i <= items@.len(),
            out@.map_values(|t: String| t@) == string_items(items@.take(i as int)),
        decreases items.len() - i,
    {
        assert(items@.take(i + 1).drop_last() =~= items@.take(i as int));
        assert(items@.take(i + 1).last() == items@[i as int]);
        match &items[i] {
            JsonValue::Text(t) => {
                let ghost before = out@.map_values(|x: String| x@);
                out.push(t.clone());
                assert(out@.map_values(|x: String| x@) =~= before.push(t@));
            },
            _ => {},
        }
        i = i + 1;
    }
    assert(items@.take(items@.len() as int) =~= items@);
    out
}

impl WorkflowDocument {
    /// The slice files the workflow lists, when it lists any.
    pub fn optional_slice_files(&self) -> (r: Result<Option<Vec<WorkflowSliceFileReference>>, WorkflowDocumentError>)
        ensures
            match r {
                Ok(None) => optional_slice_files_outcome(self@) == Ok::<Option<Seq<Seq<char>>>, Seq<char>>(None),
                Ok(Some(v)) => optional_slice_files_outcome(self@) == Ok::<Option<Seq<Seq<char>>>, Seq<char>>(
                    Some(reference_views(v@)),
                ),
                Err(e) => optional_slice_files_outcome(self@) == Err::<Option<Seq<Seq<char>>>, Seq<char>>(e@),
            },
    {
        let items = match items_field(&self.value, "slice_files") {
            Some(items) => items,
            None => {
                return Ok(None);
            },
        };
        let raws = strings_of(items);
        let ghost rv = raws@.map_values(|t: String| t@);
        let mut out: Vec<WorkflowSliceFileReference> = Vec::new();
        let mut k: usize = 0;
        assert(rv.take(0) =~= Seq::<Seq<char>>::empty());
        assert(reference_views(out@) =~= Seq::<Seq<char>>::empty());
        while k < raws.len()
            invariant
                k <= raws@.len(),
                rv == raws@.map_values(|t: String| t@),
                rv == string_items(items@),
                field_items(self@, "slice_files"@) == Some(items@),
                out@.len() == k,
                collect_all(rv.take(k as int), file_reference_step()) == Ok::<Seq<Seq<char>>, Seq<char>>(
                    reference_views(out@),
                ),
            decreases raws.len() - k,
        {
            proof {
                lemma_collect_all_step(rv, file_reference_step(), k as int);
            }
            match WorkflowSliceFileReference::try_new(raws[k].clone()) {
                Ok(reference) => {
                    let ghost before = out@;
                    out.push(reference);
                    assert(reference_views(out@) =~= reference_views(before).push(out@.last()@));
                },
                Err(e) => {
                    proof {
                        lemma_collect_all_prefix_err(rv, file_reference_step(), k + 1);
                    }
                    return Err(invalid("invalid workflow slice file reference: ", e));
                },
            }
            k = k + 1;
        }
        assert(rv.take(rv.len() as int) =~= rv);
        Ok(Some(out))
    }

    /// The slice files the workflow lists; refused when it lists none.
    pub fn slice_files(&self) -> (r: Result<Vec<WorkflowSliceFileReference>, WorkflowDocumentError>)
        ensures
            match r {
                Ok(v) => slice_files_outcome(self@) == Ok::<Seq<Seq<char>>, Seq<char>>(reference_views(v@)),
                Err(e) => slice_files_outcome(self@) == Err::<Seq<Seq<char>>, Seq<char>>(e@),
            },
    {
        match self.optional_slice_files() {
            Ok(Some(v)) => Ok(v),
            Ok(None) => Err(fixed_error("workflow document is missing slice_files")),
            Err(e) => Err(e),
        }
    }
}

} // verus!
