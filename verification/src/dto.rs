//! Boundary parsers: the only way raw strings from the CLI or from files
//! become semantic values of the core.

use vstd::prelude::*;

use crate::text::{
    ascii_alnum, chars_of, has_prefix, is_ascii_alnum, ascii_lower, lemma_trim_is_trimmed,
    split_chars, split_on, starts_with, string_from_chars, string_from_range, to_ascii_lower, trim,
    trim_chars,
};
use crate::types::{
    SliceSlug, SourceChainHop, WorkflowSlug, AutomationName, AutomationReactionDescription, AutomationTriggerName, BitEncodingSemantics, BoardConnectionEndpoint, BoardConnectionEndpointKind, BoardElementDeclaredName, BoardElementKind, BoardElementName, BoardLaneId, CommandErrorName, CommandErrorRecoveryKind, CommandInputSourceDescription, CommandInputSourceKind, CommandName, ContractKindName, ControlName, ControlRecoveryBehavior, CoveredDefinitionName, DataFlowSource, DataFlowSourceKind, DataFlowTarget, DatumName, EventAttributeName, EventAttributeSourceField, EventAttributeSourceKind, EventAttributeSourceName, EventName, LeanModuleName, ModelDescription, ModelDigest, ModelName, NavigationTargetName, NavigationTargetType, OutcomeLabelName, PayloadContractName, ProjectName, ProjectPath, ProvenanceDescription, QuintModuleName, ReadModelDerivationRule, ReadModelFieldSourceKind, ReadModelName, ReadModelTransitiveRule, ReviewTimestamp, ReviewerId, ScenarioKind, ScenarioName, ScenarioStepText, SingletonRepeatBehavior, SketchToken, StreamName, TextError, TransformationSemantics, TransitionTriggerName, TranslationExternalEventName, TranslationName, ViewFieldName, ViewFieldSourceKind, ViewName, WorkflowEntryLifecycleStateName, WorkflowEventParticipation, WorkflowOwnedDefinitionKind, WorkflowOwnedDefinitionName, WorkflowTransitionEndpoint, WorkflowTransitionEvidenceText, WorkflowTransitionKind, WorkflowViewRole, board_connection_endpoint_kind_terms, board_element_kind_terms, board_lane_id_terms, command_error_recovery_kind_terms, command_input_source_kind_terms, contract_kind_name_terms, control_recovery_behavior_terms, data_flow_source_kind_terms, event_attribute_source_kind_terms, navigation_target_type_terms, project_path_shape, read_model_field_source_kind_terms, review_timestamp_shape, scenario_kind_terms, singleton_repeat_behavior_terms, slice_kind_name_terms, text_is, transformation_semantics_terms, view_field_source_kind_terms, workflow_entry_lifecycle_state_name_terms, workflow_event_participation_terms, workflow_owned_definition_kind_terms, workflow_transition_kind_terms, workflow_view_role_terms,
};

verus! {

/// A raw value that could not become a semantic value.
#[derive(Debug)]
pub struct BoundaryParseError {
    message: String,
}

impl View for BoundaryParseError {
    type V = Seq<char>;

    closed spec fn view(&self) -> Seq<char> {
        self.message@
    }
}

impl BoundaryParseError {
    fn new(message: String) -> (r: Self)
        ensures
            r@ == message@,
    {
        BoundaryParseError { message }
    }

    /// The human-readable description of the failure.
    pub fn message(&self) -> (r: &str)
        ensures
            r@ == self@,
    {
        self.message.as_str()
    }
}

/// How each [`TextError`] is worded in a boundary error.
pub open spec fn text_error_words(e: TextError) -> Seq<char> {
    match e {
        TextError::Empty => "must not be empty"@,
        TextError::Unmodeled => "is not a modeled term"@,
        TextError::Malformed => "is malformed"@,
    }
}

pub fn error_words(e: TextError) -> (r: &'static str)
    ensures
        r@ == text_error_words(e),
{
    match e {
        TextError::Empty => "must not be empty",
        TextError::Unmodeled => "is not a modeled term",
        TextError::Malformed => "is malformed",
    }
}

fn invalid_value(label: &str, e: TextError) -> (r: BoundaryParseError)
    ensures
        r@ == label@ + text_error_words(e),
{
    let mut message = label.to_owned();
    message.append(error_words(e));
    BoundaryParseError::new(message)
}

/// The Gherkin suites the CLI can list and run.
#[derive(Debug, Clone, Copy, PartialEq, Eq, Structural)]
pub enum GherkinSuite {
    Meta,
    ReviewGate,
}

/// Parses a Gherkin suite name; the name must match exactly.
pub fn parse_gherkin_suite(raw: &str) -> (r: Result<GherkinSuite, BoundaryParseError>)
    ensures
        r is Ok <==> (raw@ == "meta"@ || raw@ == "review-gate"@),
        raw@ == "meta"@ ==> r == Ok::<GherkinSuite, BoundaryParseError>(GherkinSuite::Meta),
        raw@ == "review-gate"@ && raw@ != "meta"@ ==> r == Ok::<GherkinSuite, BoundaryParseError>(
            GherkinSuite::ReviewGate,
        ),
        r matches Err(e) ==> e@ == "invalid Gherkin suite '"@ + raw@ + "'"@,
{
    let v = chars_of(raw);
    if text_is(&v, "meta") {
        Ok(GherkinSuite::Meta)
    } else if text_is(&v, "review-gate") {
        Ok(GherkinSuite::ReviewGate)
    } else {
        let mut message = "invalid Gherkin suite '".to_owned();
        message.append(raw);
        message.append("'");
        Err(BoundaryParseError::new(message))
    }
}

/// Parses a project-relative path.
pub fn parse_project_path(raw: &str) -> (r: Result<ProjectPath, BoundaryParseError>)
    ensures
        r is Ok <==> project_path_shape(trim(raw@)),
        r matches Ok(v) ==> v@ == trim(raw@),
        r matches Err(e) ==> e@
            == "invalid project path: expected a relative path inside the project without parent-directory traversal"@,
{
    match ProjectPath::try_new(raw.to_owned()) {
        Ok(v) => Ok(v),
        Err(_e) => Err(
            BoundaryParseError::new(
                "invalid project path: expected a relative path inside the project without parent-directory traversal".to_owned(),
            ),
        ),
    }
}

/// Parses a review timestamp: a UTC instant with millisecond precision.
pub fn parse_review_timestamp(raw: &str) -> (r: Result<ReviewTimestamp, BoundaryParseError>)
    ensures
        r is Ok <==> review_timestamp_shape(trim(raw@)),
        r matches Ok(v) ==> v@ == trim(raw@),
        r matches Err(e) ==> e@
            == "invalid review timestamp: expected UTC millisecond timestamp like 2026-06-03T12:00:00.000Z"@,
{
    match ReviewTimestamp::try_new(raw.to_owned()) {
        Ok(v) => Ok(v),
        Err(_e) => Err(
            BoundaryParseError::new(
                "invalid review timestamp: expected UTC millisecond timestamp like 2026-06-03T12:00:00.000Z".to_owned(),
            ),
        ),
    }
}

/// The slug state after reading `s` left to right: the slug so far and whether
/// a separator is pending.
pub open spec fn slug_fold(s: Seq<char>) -> (Seq<char>, bool)
    decreases s.len(),
{
    if s.len() == 0 {
        (Seq::<char>::empty(), false)
    } else {
        let prior = slug_fold(s.drop_last());
        let c = s.last();
        if is_ascii_alnum(c) {
            let base = if prior.1 && prior.0.len() > 0 {
                prior.0.push('-')
            } else {
                prior.0
            };
            (base.push(ascii_lower(c)), false)
        } else {
            (prior.0, true)
        }
    }
}

/// The slug of `s`: its ASCII letters and digits, lower-cased, with every run
/// of other characters between them replaced by one `-`.
pub open spec fn slugify(s: Seq<char>) -> Seq<char> {
    slug_fold(trim(s)).0
}

/// A lower-case ASCII letter or a digit.
pub open spec fn is_lower_alnum(c: char) -> bool {
    ('0' <= c && c <= '9') || ('a' <= c && c <= 'z')
}

/// The shape of a slug: lower-case letters, digits and `-`, with no `-`
/// first and no two `-` in a row.
pub open spec fn slug_shaped(t: Seq<char>) -> bool {
    &&& forall|i: int| 0 <= i < t.len() ==> is_lower_alnum(#[trigger] t[i]) || t[i] == '-'
    &&& t.len() > 0 ==> t[0] != '-'
    &&& forall|i: int| 0 <= i < t.len() - 1 ==> !(#[trigger] t[i] == '-' && t[i + 1] == '-')
}

proof fn lemma_lower_of_alnum(c: char)
    requires
        is_ascii_alnum(c),
    ensures
        is_lower_alnum(ascii_lower(c)),
        is_lower_alnum(c) ==> ascii_lower(c) == c,
{
}

proof fn lemma_slug_fold_shape(s: Seq<char>)
    ensures
        slug_shaped(slug_fold(s).0),
        slug_fold(s).0.len() > 0 ==> slug_fold(s).0.last() != '-',
    decreases s.len(),
{
    if s.len() > 0 {
        lemma_slug_fold_shape(s.drop_last());
        let prior = slug_fold(s.drop_last());
        let c = s.last();
        if is_ascii_alnum(c) {
            lemma_lower_of_alnum(c);
            let base = if prior.1 && prior.0.len() > 0 {
                prior.0.push('-')
            } else {
                prior.0
            };
            let out = base.push(ascii_lower(c));
            assert(slug_shaped(base)) by {
                if prior.1 && prior.0.len() > 0 {
                    assert forall|i: int| 0 <= i < base.len() - 1 implies !(#[trigger] base[i] == '-'
                        && base[i + 1] == '-') by {
                        if i + 1 == base.len() - 1 {
                            assert(base[i] == prior.0.last());
                        } else {
                            assert(base[i] == prior.0[i] && base[i + 1] == prior.0[i + 1]);
                        }
                    }
                    assert forall|i: int| 0 <= i < base.len() implies is_lower_alnum(#[trigger] base[i])
                        || base[i] == '-' by {
                        if i < prior.0.len() {
                            assert(base[i] == prior.0[i]);
                        }
                    }
                }
            }
            assert forall|i: int| 0 <= i < out.len() - 1 implies !(#[trigger] out[i] == '-' && out[i
                + 1] == '-') by {
                if i + 1 < base.len() {
                    assert(out[i] == base[i] && out[i + 1] == base[i + 1]);
                } else {
                    assert(out[i + 1] == ascii_lower(c));
                }
            }
            assert forall|i: int| 0 <= i < out.len() implies is_lower_alnum(#[trigger] out[i]) || out[i]
                == '-' by {
                if i < base.len() {
                    assert(out[i] == base[i]);
                }
            }
            if base.len() > 0 {
                assert(out[0] == base[0]);
            }
        }
    }
}

proof fn lemma_slug_fold_of_shaped(t: Seq<char>)
    requires
        slug_shaped(t),
    ensures
        slug_fold(t) == (if t.len() > 0 && t.last() == '-' {
            (t.drop_last(), true)
        } else {
            (t, false)
        }),
    decreases t.len(),
{
    if t.len() > 0 {
        let d = t.drop_last();
        assert(slug_shaped(d)) by {
            assert forall|i: int| 0 <= i < d.len() implies is_lower_alnum(#[trigger] d[i]) || d[i] == '-' by {
                assert(d[i] == t[i]);
            }
            assert forall|i: int| 0 <= i < d.len() - 1 implies !(#[trigger] d[i] == '-' && d[i + 1] == '-') by {
                assert(d[i] == t[i] && d[i + 1] == t[i + 1]);
            }
            if d.len() > 0 {
                assert(d[0] == t[0]);
            }
        }
        lemma_slug_fold_of_shaped(d);
        let c = t.last();
        assert(is_lower_alnum(c) || c == '-');
        if c == '-' {
            if d.len() > 0 {
                assert(d.last() == t[t.len() - 2]);
            }
        } else {
            lemma_lower_of_alnum(c);
            if d.len() > 0 && d.last() == '-' {
                assert(d.len() >= 2);
                assert(d.drop_last().push('-') =~= d);
            }
            assert(t =~= d.push(c));
        }
    }
}

/// A slug is its own slug: normalizing the text of a normalized slug, as
/// parsing a stored slug again does, changes nothing.
pub proof fn law_slugify_is_stable(raw: Seq<char>)
    ensures
        slugify(slugify(raw)) == slugify(raw),
        trim(slugify(trim(slugify(raw)))) == trim(slugify(raw)),
{
    let u = slugify(raw);
    lemma_slug_fold_shape(trim(raw));
    if u.len() > 0 {
        assert(is_lower_alnum(u[0]));
        assert(is_lower_alnum(u.last()));
    }
    assert(trim(u) == u);
    lemma_slug_fold_of_shaped(u);
}

/// The slug of `raw`.
pub fn slug_of(raw: &str) -> (r: String)
    ensures
        r@ == slugify(raw@),
{
    let t = trim_chars(raw);
    let v = chars_of(t.as_str());
    let mut slug: Vec<char> = Vec::new();
    let mut pending = false;
    let mut i: usize = 0;
    assert(v@.subrange(0, 0) =~= Seq::<char>::empty());
    while i < v.len()
        invariant
            i <= v.len(),
            v@ == trim(raw@),
            (slug@, pending) == slug_fold(v@.subrange(0, i as int)),
        decreases v.len() - i,
    {
        let c = v[i];
        assert(v@.subrange(0, i + 1).drop_last() =~= v@.subrange(0, i as int));
        if ascii_alnum(c) {
            if pending && slug.len() > 0 {
                slug.push('-');
            }
            slug.push(to_ascii_lower(c));
            pending = false;
        } else {
            pending = true;
        }
        i = i + 1;
    }
    assert(v@.subrange(0, v@.len() as int) =~= v@);
    string_from_chars(&slug)
}

/// Parses a workflow slug, normalizing free text into slug form.
pub fn parse_workflow_slug(raw: &str) -> (r: Result<WorkflowSlug, BoundaryParseError>)
    ensures
        r is Ok <==> trim(slugify(raw@)).len() > 0,
        r matches Ok(v) ==> v@ == trim(slugify(raw@)),
        r matches Err(e) ==> e@ == "invalid workflow slug: "@ + text_error_words(TextError::Empty),
{
    match WorkflowSlug::try_new(slug_of(raw)) {
        Ok(v) => Ok(v),
        Err(e) => Err(invalid_value("invalid workflow slug: ", e)),
    }
}

/// Parses a slice slug, normalizing free text into slug form.
pub fn parse_slice_slug(raw: &str) -> (r: Result<SliceSlug, BoundaryParseError>)
    ensures
        r is Ok <==> trim(slugify(raw@)).len() > 0,
        r matches Ok(v) ==> v@ == trim(slugify(raw@)),
        r matches Err(e) ==> e@ == "invalid slice slug: "@ + text_error_words(TextError::Empty),
{
    match SliceSlug::try_new(slug_of(raw)) {
        Ok(v) => Ok(v),
        Err(e) => Err(invalid_value("invalid slice slug: ", e)),
    }
}

/// The kinds of slice a workflow can hold.
#[derive(Debug, Clone, Copy, PartialEq, Eq, Structural)]
pub enum SliceKind {
    StateView,
    StateChange,
    Translation,
    Automation,
}

/// Parses a slice kind from its trimmed name.
pub fn parse_slice_kind(raw: &str) -> (r: Result<SliceKind, BoundaryParseError>)
    ensures
        trim(raw@) == "state_view"@ ==> r == Ok::<SliceKind, BoundaryParseError>(SliceKind::StateView),
        trim(raw@) == "state_change"@ && trim(raw@) != "state_view"@ ==> r == Ok::<
            SliceKind,
            BoundaryParseError,
        >(SliceKind::StateChange),
        trim(raw@) == "translation"@ && trim(raw@) != "state_view"@ && trim(raw@)
            != "state_change"@ ==> r == Ok::<SliceKind, BoundaryParseError>(SliceKind::Translation),
        trim(raw@) == "automation"@ && trim(raw@) != "state_view"@ && trim(raw@) != "state_change"@
            && trim(raw@) != "translation"@ ==> r == Ok::<SliceKind, BoundaryParseError>(
            SliceKind::Automation,
        ),
        r is Ok <==> slice_kind_name_terms(trim(raw@)),
        r matches Err(e) ==> e@ == "invalid slice type: "@ + raw@,
{
    let t = trim_chars(raw);
    let v = chars_of(t.as_str());
    if text_is(&v, "state_view") {
        Ok(SliceKind::StateView)
    } else if text_is(&v, "state_change") {
        Ok(SliceKind::StateChange)
    } else if text_is(&v, "translation") {
        Ok(SliceKind::Translation)
    } else if text_is(&v, "automation") {
        Ok(SliceKind::Automation)
    } else {
        let mut message = "invalid slice type: ".to_owned();
        message.append(raw);
        Err(BoundaryParseError::new(message))
    }
}

/// The kinds of connection between workflow steps.
#[derive(Debug, Clone, Copy, PartialEq, Eq, Structural)]
pub enum ConnectionKind {
    Command,
    Event,
    Navigation,
    ExternalTrigger,
    Outcome,
}

/// The connection kind a trimmed name denotes, if any.
pub open spec fn connection_kind_of(t: Seq<char>) -> Option<ConnectionKind> {
    if t == "command"@ {
        Some(ConnectionKind::Command)
    } else if t == "event"@ {
        Some(ConnectionKind::Event)
    } else if t == "navigation"@ {
        Some(ConnectionKind::Navigation)
    } else if t == "external_trigger"@ {
        Some(ConnectionKind::ExternalTrigger)
    } else if t == "outcome"@ {
        Some(ConnectionKind::Outcome)
    } else {
        None
    }
}

/// The name each connection kind is written as.
pub open spec fn connection_kind_name(k: ConnectionKind) -> Seq<char> {
    match k {
        ConnectionKind::Command => "command"@,
        ConnectionKind::Event => "event"@,
        ConnectionKind::Navigation => "navigation"@,
        ConnectionKind::ExternalTrigger => "external_trigger"@,
        ConnectionKind::Outcome => "outcome"@,
    }
}

/// A connection kind is read from its own name and from nothing else: the
/// kind read from a text is the one that text names, and every kind is read
/// from its name.
pub proof fn law_connection_kind_reads_its_own_name(t: Seq<char>, k: ConnectionKind)
    ensures
        connection_kind_of(t) matches Some(read) ==> connection_kind_name(read) == t,
        connection_kind_of(connection_kind_name(k)) == Some(k),
{
    reveal_strlit("command");
    reveal_strlit("event");
    reveal_strlit("navigation");
    reveal_strlit("external_trigger");
    reveal_strlit("outcome");
    assert("command"@.len() == 7 && "event"@.len() == 5 && "navigation"@.len() == 10);
    assert("external_trigger"@.len() == 16 && "outcome"@.len() == 7);
    assert("command"@[0] != "outcome"@[0]);
}

/// Parses a connection kind from its trimmed name.
pub fn parse_connection_kind(raw: &str) -> (r: Result<ConnectionKind, BoundaryParseError>)
    ensures
        connection_kind_of(trim(raw@)) matches Some(k) ==> r == Ok::<
            ConnectionKind,
            BoundaryParseError,
        >(k),
        connection_kind_of(trim(raw@)) is None ==> (r matches Err(e) && e@
            == "invalid connection kind: "@ + raw@),
{
    let t = trim_chars(raw);
    let v = chars_of(t.as_str());
    if text_is(&v, "command") {
        Ok(ConnectionKind::Command)
    } else if text_is(&v, "event") {
        Ok(ConnectionKind::Event)
    } else if text_is(&v, "navigation") {
        Ok(ConnectionKind::Navigation)
    } else if text_is(&v, "external_trigger") {
        Ok(ConnectionKind::ExternalTrigger)
    } else if text_is(&v, "outcome") {
        Ok(ConnectionKind::Outcome)
    } else {
        let mut message = "invalid connection kind: ".to_owned();
        message.append(raw);
        Err(BoundaryParseError::new(message))
    }
}

/// The prefix that introduces the project name in `emc.toml`.
pub open spec fn name_assignment() -> Seq<char> {
    seq!['n', 'a', 'm', 'e', ' ', '=', ' ']
}

/// The text after `name = ` on the first line of `lines` that, once trimmed,
/// starts with it.
pub open spec fn manifest_name_field(lines: Seq<Seq<char>>) -> Option<Seq<char>>
    decreases lines.len(),
{
    if lines.len() == 0 {
        None
    } else {
        let t = trim(lines[0]);
        if starts_with(t, name_assignment()) {
            Some(t.subrange(7, t.len() as int))
        } else {
            manifest_name_field(lines.drop_first())
        }
    }
}

/// The text between a leading and a trailing double quote, if both are there.
pub open spec fn unquote(s: Seq<char>) -> Option<Seq<char>> {
    if s.len() >= 2 && s[0] == '"' && s.last() == '"' {
        Some(s.subrange(1, s.len() - 1))
    } else {
        None
    }
}

/// The quoted project name that `emc.toml` declares, if it declares one.
pub open spec fn manifest_project_name(raw: Seq<char>) -> Option<Seq<char>> {
    match manifest_name_field(split_on(raw, '\n')) {
        Some(field) => unquote(field),
        None => None,
    }
}

/// Reads the project name from the text of `emc.toml`.
pub fn parse_project_manifest_name(raw: &str) -> (r: Result<ProjectName, BoundaryParseError>)
    ensures
        manifest_project_name(raw@) is None ==> (r matches Err(e) && e@
            == "emc.toml is missing project name"@),
        manifest_project_name(raw@) matches Some(name) ==> {
            &&& r is Ok <==> trim(name).len() > 0
            &&& r matches Ok(v) ==> v@ == trim(name)
            &&& r matches Err(e) ==> e@ == "invalid project name: "@ + text_error_words(
                TextError::Empty,
            )
        },
{
    let v = chars_of(raw);
    let lines = split_chars(&v, '\n');
    let ghost all = lines@.map_values(|p: Vec<char>| p@);
    let prefix: Vec<char> = vec!['n', 'a', 'm', 'e', ' ', '=', ' '];
    assert(prefix@ =~= name_assignment());
    let mut i: usize = 0;
    assert(all.subrange(0, all.len() as int) =~= all);
    while i < lines.len()
        invariant
            i <= lines@.len(),
            all == lines@.map_values(|p: Vec<char>| p@),
            all == split_on(raw@, '\n'),
            prefix@ == name_assignment(),
            manifest_name_field(all) == manifest_name_field(all.subrange(i as int, all.len() as int)),
        decreases lines.len() - i,
    {
        let line = string_from_chars(&lines[i]);
        let t = trim_chars(line.as_str());
        let tv = chars_of(t.as_str());
        let ghost rest = all.subrange(i as int, all.len() as int);
        assert(rest[0] == lines@[i as int]@);
        assert(rest.drop_first() =~= all.subrange(i + 1, all.len() as int));
        if has_prefix(&tv, &prefix) {
            let field = string_from_range(&tv, 7, tv.len());
            let fv = chars_of(field.as_str());
            if fv.len() >= 2 && fv[0] == '"' && fv[fv.len() - 1] == '"' {
                let inner = string_from_range(&fv, 1, fv.len() - 1);
                return match ProjectName::try_new(inner) {
                    Ok(name) => Ok(name),
                    Err(e) => Err(invalid_value("invalid project name: ", e)),
                };
            }
            return Err(BoundaryParseError::new("emc.toml is missing project name".to_owned()));
        }
        i = i + 1;
    }
    assert(all.subrange(i as int, all.len() as int) =~= Seq::<Seq<char>>::empty());
    Err(BoundaryParseError::new("emc.toml is missing project name".to_owned()))
}

/// The trimmed, non-empty pieces of a split list, in order.
pub open spec fn trimmed_values(pieces: Seq<Seq<char>>) -> Seq<Seq<char>>
    decreases pieces.len(),
{
    if pieces.len() == 0 {
        Seq::<Seq<char>>::empty()
    } else {
        let rest = trimmed_values(pieces.drop_last());
        let t = trim(pieces.last());
        if t.len() > 0 {
            rest.push(t)
        } else {
            rest
        }
    }
}

/// The comma-separated values of `raw`, trimmed, with empty values dropped.
pub open spec fn comma_values(raw: Seq<char>) -> Seq<Seq<char>> {
    trimmed_values(split_on(raw, ','))
}

proof fn lemma_trimmed_values_wf(pieces: Seq<Seq<char>>)
    ensures
        forall|i: int|
            0 <= i < trimmed_values(pieces).len() ==> #[trigger] trimmed_values(pieces)[i].len() > 0
                && trim(trimmed_values(pieces)[i]) == trimmed_values(pieces)[i],
    decreases pieces.len(),
{
    if pieces.len() > 0 {
        lemma_trimmed_values_wf(pieces.drop_last());
        lemma_trim_is_trimmed(pieces.last());
        let rest = trimmed_values(pieces.drop_last());
        let all = trimmed_values(pieces);
        assert forall|i: int| 0 <= i < all.len() implies #[trigger] all[i].len() > 0 && trim(all[i])
            == all[i] by {
            if i < rest.len() {
                assert(all[i] == rest[i]);
            }
        }
    }
}

fn comma_separated(raw: &str) -> (r: Vec<String>)
    ensures
        r@.map_values(|s: String| s@) == comma_values(raw@),
{
    let v = chars_of(raw);
    let pieces = split_chars(&v, ',');
    let ghost all = pieces@.map_values(|p: Vec<char>| p@);
    let mut values: Vec<String> = Vec::new();
    let mut i: usize = 0;
    assert(all.subrange(0, 0) =~= Seq::<Seq<char>>::empty());
    while i < pieces.len()
        invariant
            i <= pieces@.len(),
            all == pieces@.map_values(|p: Vec<char>| p@),
            all == split_on(raw@, ','),
            values@.map_values(|s: String| s@) == trimmed_values(all.subrange(0, i as int)),
        decreases pieces.len() - i,
    {
        let piece = string_from_chars(&pieces[i]);
        let t = trim_chars(piece.as_str());
        assert(all.subrange(0, i + 1).drop_last() =~= all.subrange(0, i as int));
        assert(all.subrange(0, i + 1).last() == pieces@[i as int]@);
        if !t.as_str().is_empty() {
            values.push(t);
            assert(values@.map_values(|s: String| s@) =~= trimmed_values(
                all.subrange(0, i as int),
            ).push(trim(pieces@[i as int]@)));
        }
        i = i + 1;
    }
    assert(all.subrange(0, all.len() as int) =~= all);
    values
}


/// Parses a ModelName from untrusted text.
pub fn parse_model_name(raw: &str) -> (r: Result<ModelName, BoundaryParseError>)
    ensures
        r is Ok <==> trim(raw@).len() > 0,
        r matches Ok(v) ==> v@ == trim(raw@),
        r matches Err(e) ==> e@ == "invalid model name: "@ + text_error_words(TextError::Empty),
{
    match ModelName::try_new(raw.to_owned()) {
        Ok(v) => Ok(v),
        Err(e) => Err(invalid_value("invalid model name: ", e)),
    }
}

/// Parses a ModelDescription from untrusted text.
pub fn parse_model_description(raw: &str) -> (r: Result<ModelDescription, BoundaryParseError>)
    ensures
        r is Ok <==> trim(raw@).len() > 0,
        r matches Ok(v) ==> v@ == trim(raw@),
        r matches Err(e) ==> e@ == "invalid model description: "@ + text_error_words(TextError::Empty),
{
    match ModelDescription::try_new(raw.to_owned()) {
        Ok(v) => Ok(v),
        Err(e) => Err(invalid_value("invalid model description: ", e)),
    }
}

/// Parses a ProjectName from untrusted text.
pub fn parse_project_name(raw: &str) -> (r: Result<ProjectName, BoundaryParseError>)
    ensures
        r is Ok <==> trim(raw@).len() > 0,
        r matches Ok(v) ==> v@ == trim(raw@),
        r matches Err(e) ==> e@ == "invalid project name: "@ + text_error_words(TextError::Empty),
{
    match ProjectName::try_new(raw.to_owned()) {
        Ok(v) => Ok(v),
        Err(e) => Err(invalid_value("invalid project name: ", e)),
    }
}

/// Parses a TransitionTriggerName from untrusted text.
pub fn parse_transition_trigger_name(raw: &str) -> (r: Result<TransitionTriggerName, BoundaryParseError>)
    ensures
        r is Ok <==> trim(raw@).len() > 0,
        r matches Ok(v) ==> v@ == trim(raw@),
        r matches Err(e) ==> e@ == "invalid transition trigger name: "@ + text_error_words(TextError::Empty),
{
    match TransitionTriggerName::try_new(raw.to_owned()) {
        Ok(v) => Ok(v),
        Err(e) => Err(invalid_value("invalid transition trigger name: ", e)),
    }
}

/// Parses a PayloadContractName from untrusted text.
pub fn parse_payload_contract_name(raw: &str) -> (r: Result<PayloadContractName, BoundaryParseError>)
    ensures
        r is Ok <==> trim(raw@).len() > 0,
        r matches Ok(v) ==> v@ == trim(raw@),
        r matches Err(e) ==> e@ == "invalid payload contract name: "@ + text_error_words(TextError::Empty),
{
    match PayloadContractName::try_new(raw.to_owned()) {
        Ok(v) => Ok(v),
        Err(e) => Err(invalid_value("invalid payload contract name: ", e)),
    }
}

/// Parses a TranslationName from untrusted text.
pub fn parse_translation_name(raw: &str) -> (r: Result<TranslationName, BoundaryParseError>)
    ensures
        r is Ok <==> trim(raw@).len() > 0,
        r matches Ok(v) ==> v@ == trim(raw@),
        r matches Err(e) ==> e@ == "invalid translation name: "@ + text_error_words(TextError::Empty),
{
    match TranslationName::try_new(raw.to_owned()) {
        Ok(v) => Ok(v),
        Err(e) => Err(invalid_value("invalid translation name: ", e)),
    }
}

/// Parses a TranslationExternalEventName from untrusted text.
pub fn parse_translation_external_event_name(raw: &str) -> (r: Result<TranslationExternalEventName, BoundaryParseError>)
    ensures
        r is Ok <==> trim(raw@).len() > 0,
        r matches Ok(v) ==> v@ == trim(raw@),
        r matches Err(e) ==> e@ == "invalid translation external event name: "@ + text_error_words(TextError::Empty),
{
    match TranslationExternalEventName::try_new(raw.to_owned()) {
        Ok(v) => Ok(v),
        Err(e) => Err(invalid_value("invalid translation external event name: ", e)),
    }
}

/// Parses a OutcomeLabelName from untrusted text.
pub fn parse_outcome_label_name(raw: &str) -> (r: Result<OutcomeLabelName, BoundaryParseError>)
    ensures
        r is Ok <==> trim(raw@).len() > 0,
        r matches Ok(v) ==> v@ == trim(raw@),
        r matches Err(e) ==> e@ == "invalid outcome label: "@ + text_error_words(TextError::Empty),
{
    match OutcomeLabelName::try_new(raw.to_owned()) {
        Ok(v) => Ok(v),
        Err(e) => Err(invalid_value("invalid outcome label: ", e)),
    }
}

/// Parses a ScenarioName from untrusted text.
pub fn parse_scenario_name(raw: &str) -> (r: Result<ScenarioName, BoundaryParseError>)
    ensures
        r is Ok <==> trim(raw@).len() > 0,
        r matches Ok(v) ==> v@ == trim(raw@),
        r matches Err(e) ==> e@ == "invalid scenario name: "@ + text_error_words(TextError::Empty),
{
    match ScenarioName::try_new(raw.to_owned()) {
        Ok(v) => Ok(v),
        Err(e) => Err(invalid_value("invalid scenario name: ", e)),
    }
}

/// Parses a ScenarioStepText from untrusted text.
pub fn parse_scenario_step_text(raw: &str) -> (r: Result<ScenarioStepText, BoundaryParseError>)
    ensures
        r is Ok <==> trim(raw@).len() > 0,
        r matches Ok(v) ==> v@ == trim(raw@),
        r matches Err(e) ==> e@ == "invalid scenario step text: "@ + text_error_words(TextError::Empty),
{
    match ScenarioStepText::try_new(raw.to_owned()) {
        Ok(v) => Ok(v),
        Err(e) => Err(invalid_value("invalid scenario step text: ", e)),
    }
}

/// Parses a ContractKindName from untrusted text.
pub fn parse_contract_kind_name(raw: &str) -> (r: Result<ContractKindName, BoundaryParseError>)
    ensures
        r is Ok <==> contract_kind_name_terms(trim(raw@)),
        r matches Ok(v) ==> v@ == trim(raw@),
        r matches Err(e) ==> e@ == "invalid contract kind: "@ + text_error_words(if trim(raw@).len() == 0 {
                TextError::Empty
            } else {
                TextError::Unmodeled
            }),
{
    match ContractKindName::try_new(raw.to_owned()) {
        Ok(v) => Ok(v),
        Err(e) => Err(invalid_value("invalid contract kind: ", e)),
    }
}

/// Parses a CoveredDefinitionName from untrusted text.
pub fn parse_covered_definition_name(raw: &str) -> (r: Result<CoveredDefinitionName, BoundaryParseError>)
    ensures
        r is Ok <==> trim(raw@).len() > 0,
        r matches Ok(v) ==> v@ == trim(raw@),
        r matches Err(e) ==> e@ == "invalid covered definition: "@ + text_error_words(TextError::Empty),
{
    match CoveredDefinitionName::try_new(raw.to_owned()) {
        Ok(v) => Ok(v),
        Err(e) => Err(invalid_value("invalid covered definition: ", e)),
    }
}

/// Parses a DatumName from untrusted text.
pub fn parse_datum_name(raw: &str) -> (r: Result<DatumName, BoundaryParseError>)
    ensures
        r is Ok <==> trim(raw@).len() > 0,
        r matches Ok(v) ==> v@ == trim(raw@),
        r matches Err(e) ==> e@ == "invalid datum name: "@ + text_error_words(TextError::Empty),
{
    match DatumName::try_new(raw.to_owned()) {
        Ok(v) => Ok(v),
        Err(e) => Err(invalid_value("invalid datum name: ", e)),
    }
}

/// Parses a DataFlowSource from untrusted text.
pub fn parse_data_flow_source(raw: &str) -> (r: Result<DataFlowSource, BoundaryParseError>)
    ensures
        r is Ok <==> trim(raw@).len() > 0,
        r matches Ok(v) ==> v@ == trim(raw@),
        r matches Err(e) ==> e@ == "invalid data-flow source: "@ + text_error_words(TextError::Empty),
{
    match DataFlowSource::try_new(raw.to_owned()) {
        Ok(v) => Ok(v),
        Err(e) => Err(invalid_value("invalid data-flow source: ", e)),
    }
}

/// Parses a TransformationSemantics from untrusted text.
pub fn parse_transformation_semantics(raw: &str) -> (r: Result<TransformationSemantics, BoundaryParseError>)
    ensures
        r is Ok <==> transformation_semantics_terms(trim(raw@)),
        r matches Ok(v) ==> v@ == trim(raw@),
        r matches Err(e) ==> e@ == "invalid transformation semantics: "@ + text_error_words(if trim(raw@).len() == 0 {
                TextError::Empty
            } else {
                TextError::Unmodeled
            }),
{
    match TransformationSemantics::try_new(raw.to_owned()) {
        Ok(v) => Ok(v),
        Err(e) => Err(invalid_value("invalid transformation semantics: ", e)),
    }
}

/// Parses a DataFlowTarget from untrusted text.
pub fn parse_data_flow_target(raw: &str) -> (r: Result<DataFlowTarget, BoundaryParseError>)
    ensures
        r is Ok <==> trim(raw@).len() > 0,
        r matches Ok(v) ==> v@ == trim(raw@),
        r matches Err(e) ==> e@ == "invalid data-flow target: "@ + text_error_words(TextError::Empty),
{
    match DataFlowTarget::try_new(raw.to_owned()) {
        Ok(v) => Ok(v),
        Err(e) => Err(invalid_value("invalid data-flow target: ", e)),
    }
}

/// Parses a BitEncodingSemantics from untrusted text.
pub fn parse_bit_encoding_semantics(raw: &str) -> (r: Result<BitEncodingSemantics, BoundaryParseError>)
    ensures
        r is Ok <==> trim(raw@).len() > 0,
        r matches Ok(v) ==> v@ == trim(raw@),
        r matches Err(e) ==> e@ == "invalid bit encoding: "@ + text_error_words(TextError::Empty),
{
    match BitEncodingSemantics::try_new(raw.to_owned()) {
        Ok(v) => Ok(v),
        Err(e) => Err(invalid_value("invalid bit encoding: ", e)),
    }
}

/// Parses a BoardElementName from untrusted text.
pub fn parse_board_element_name(raw: &str) -> (r: Result<BoardElementName, BoundaryParseError>)
    ensures
        r is Ok <==> trim(raw@).len() > 0,
        r matches Ok(v) ==> v@ == trim(raw@),
        r matches Err(e) ==> e@ == "invalid board element name: "@ + text_error_words(TextError::Empty),
{
    match BoardElementName::try_new(raw.to_owned()) {
        Ok(v) => Ok(v),
        Err(e) => Err(invalid_value("invalid board element name: ", e)),
    }
}

/// Parses a BoardElementKind from untrusted text.
pub fn parse_board_element_kind(raw: &str) -> (r: Result<BoardElementKind, BoundaryParseError>)
    ensures
        r is Ok <==> board_element_kind_terms(trim(raw@)),
        r matches Ok(v) ==> v@ == trim(raw@),
        r matches Err(e) ==> e@ == "invalid board element kind: "@ + text_error_words(if trim(raw@).len() == 0 {
                TextError::Empty
            } else {
                TextError::Unmodeled
            }),
{
    match BoardElementKind::try_new(raw.to_owned()) {
        Ok(v) => Ok(v),
        Err(e) => Err(invalid_value("invalid board element kind: ", e)),
    }
}

/// Parses a BoardLaneId from untrusted text.
pub fn parse_board_lane_id(raw: &str) -> (r: Result<BoardLaneId, BoundaryParseError>)
    ensures
        r is Ok <==> board_lane_id_terms(trim(raw@)),
        r matches Ok(v) ==> v@ == trim(raw@),
        r matches Err(e) ==> e@ == "invalid board lane id: "@ + text_error_words(if trim(raw@).len() == 0 {
                TextError::Empty
            } else {
                TextError::Unmodeled
            }),
{
    match BoardLaneId::try_new(raw.to_owned()) {
        Ok(v) => Ok(v),
        Err(e) => Err(invalid_value("invalid board lane id: ", e)),
    }
}

/// Parses a BoardElementDeclaredName from untrusted text.
pub fn parse_board_element_declared_name(raw: &str) -> (r: Result<BoardElementDeclaredName, BoundaryParseError>)
    ensures
        r is Ok <==> trim(raw@).len() > 0,
        r matches Ok(v) ==> v@ == trim(raw@),
        r matches Err(e) ==> e@ == "invalid board element declared name: "@ + text_error_words(TextError::Empty),
{
    match BoardElementDeclaredName::try_new(raw.to_owned()) {
        Ok(v) => Ok(v),
        Err(e) => Err(invalid_value("invalid board element declared name: ", e)),
    }
}

/// Parses a BoardConnectionEndpoint from untrusted text.
pub fn parse_board_connection_endpoint(raw: &str) -> (r: Result<BoardConnectionEndpoint, BoundaryParseError>)
    ensures
        r is Ok <==> trim(raw@).len() > 0,
        r matches Ok(v) ==> v@ == trim(raw@),
        r matches Err(e) ==> e@ == "invalid board connection endpoint: "@ + text_error_words(TextError::Empty),
{
    match BoardConnectionEndpoint::try_new(raw.to_owned()) {
        Ok(v) => Ok(v),
        Err(e) => Err(invalid_value("invalid board connection endpoint: ", e)),
    }
}

/// Parses a BoardConnectionEndpointKind from untrusted text.
pub fn parse_board_connection_endpoint_kind(raw: &str) -> (r: Result<BoardConnectionEndpointKind, BoundaryParseError>)
    ensures
        r is Ok <==> board_connection_endpoint_kind_terms(trim(raw@)),
        r matches Ok(v) ==> v@ == trim(raw@),
        r matches Err(e) ==> e@ == "invalid board connection endpoint kind: "@ + text_error_words(if trim(raw@).len() == 0 {
                TextError::Empty
            } else {
                TextError::Unmodeled
            }),
{
    match BoardConnectionEndpointKind::try_new(raw.to_owned()) {
        Ok(v) => Ok(v),
        Err(e) => Err(invalid_value("invalid board connection endpoint kind: ", e)),
    }
}

/// Parses a CommandName from untrusted text.
pub fn parse_command_name(raw: &str) -> (r: Result<CommandName, BoundaryParseError>)
    ensures
        r is Ok <==> trim(raw@).len() > 0,
        r matches Ok(v) ==> v@ == trim(raw@),
        r matches Err(e) ==> e@ == "invalid command name: "@ + text_error_words(TextError::Empty),
{
    match CommandName::try_new(raw.to_owned()) {
        Ok(v) => Ok(v),
        Err(e) => Err(invalid_value("invalid command name: ", e)),
    }
}

/// Parses a CommandErrorName from untrusted text.
pub fn parse_command_error_name(raw: &str) -> (r: Result<CommandErrorName, BoundaryParseError>)
    ensures
        r is Ok <==> trim(raw@).len() > 0,
        r matches Ok(v) ==> v@ == trim(raw@),
        r matches Err(e) ==> e@ == "invalid command error: "@ + text_error_words(TextError::Empty),
{
    match CommandErrorName::try_new(raw.to_owned()) {
        Ok(v) => Ok(v),
        Err(e) => Err(invalid_value("invalid command error: ", e)),
    }
}

/// Parses a CommandErrorRecoveryKind from untrusted text.
pub fn parse_command_error_recovery_kind(raw: &str) -> (r: Result<CommandErrorRecoveryKind, BoundaryParseError>)
    ensures
        r is Ok <==> command_error_recovery_kind_terms(trim(raw@)),
        r matches Ok(v) ==> v@ == trim(raw@),
        r matches Err(e) ==> e@ == "invalid command error recovery kind: "@ + text_error_words(if trim(raw@).len() == 0 {
                TextError::Empty
            } else {
                TextError::Unmodeled
            }),
{
    match CommandErrorRecoveryKind::try_new(raw.to_owned()) {
        Ok(v) => Ok(v),
        Err(e) => Err(invalid_value("invalid command error recovery kind: ", e)),
    }
}

/// Parses a SingletonRepeatBehavior from untrusted text.
pub fn parse_singleton_repeat_behavior(raw: &str) -> (r: Result<SingletonRepeatBehavior, BoundaryParseError>)
    ensures
        r is Ok <==> singleton_repeat_behavior_terms(trim(raw@)),
        r matches Ok(v) ==> v@ == trim(raw@),
        r matches Err(e) ==> e@ == "invalid singleton repeat behavior: "@ + text_error_words(if trim(raw@).len() == 0 {
                TextError::Empty
            } else {
                TextError::Unmodeled
            }),
{
    match SingletonRepeatBehavior::try_new(raw.to_owned()) {
        Ok(v) => Ok(v),
        Err(e) => Err(invalid_value("invalid singleton repeat behavior: ", e)),
    }
}

/// Parses a AutomationName from untrusted text.
pub fn parse_automation_name(raw: &str) -> (r: Result<AutomationName, BoundaryParseError>)
    ensures
        r is Ok <==> trim(raw@).len() > 0,
        r matches Ok(v) ==> v@ == trim(raw@),
        r matches Err(e) ==> e@ == "invalid automation name: "@ + text_error_words(TextError::Empty),
{
    match AutomationName::try_new(raw.to_owned()) {
        Ok(v) => Ok(v),
        Err(e) => Err(invalid_value("invalid automation name: ", e)),
    }
}

/// Parses a AutomationTriggerName from untrusted text.
pub fn parse_automation_trigger_name(raw: &str) -> (r: Result<AutomationTriggerName, BoundaryParseError>)
    ensures
        r is Ok <==> trim(raw@).len() > 0,
        r matches Ok(v) ==> v@ == trim(raw@),
        r matches Err(e) ==> e@ == "invalid automation trigger name: "@ + text_error_words(TextError::Empty),
{
    match AutomationTriggerName::try_new(raw.to_owned()) {
        Ok(v) => Ok(v),
        Err(e) => Err(invalid_value("invalid automation trigger name: ", e)),
    }
}

/// Parses a AutomationReactionDescription from untrusted text.
pub fn parse_automation_reaction_description(raw: &str) -> (r: Result<AutomationReactionDescription, BoundaryParseError>)
    ensures
        r is Ok <==> trim(raw@).len() > 0,
        r matches Ok(v) ==> v@ == trim(raw@),
        r matches Err(e) ==> e@ == "invalid automation reaction description: "@ + text_error_words(TextError::Empty),
{
    match AutomationReactionDescription::try_new(raw.to_owned()) {
        Ok(v) => Ok(v),
        Err(e) => Err(invalid_value("invalid automation reaction description: ", e)),
    }
}

/// Parses a ControlName from untrusted text.
pub fn parse_control_name(raw: &str) -> (r: Result<ControlName, BoundaryParseError>)
    ensures
        r is Ok <==> trim(raw@).len() > 0,
        r matches Ok(v) ==> v@ == trim(raw@),
        r matches Err(e) ==> e@ == "invalid control name: "@ + text_error_words(TextError::Empty),
{
    match ControlName::try_new(raw.to_owned()) {
        Ok(v) => Ok(v),
        Err(e) => Err(invalid_value("invalid control name: ", e)),
    }
}

/// Parses a ControlRecoveryBehavior from untrusted text.
pub fn parse_control_recovery_behavior(raw: &str) -> (r: Result<ControlRecoveryBehavior, BoundaryParseError>)
    ensures
        r is Ok <==> control_recovery_behavior_terms(trim(raw@)),
        r matches Ok(v) ==> v@ == trim(raw@),
        r matches Err(e) ==> e@ == "invalid control recovery behavior: "@ + text_error_words(if trim(raw@).len() == 0 {
                TextError::Empty
            } else {
                TextError::Unmodeled
            }),
{
    match ControlRecoveryBehavior::try_new(raw.to_owned()) {
        Ok(v) => Ok(v),
        Err(e) => Err(invalid_value("invalid control recovery behavior: ", e)),
    }
}

/// Parses a NavigationTargetType from untrusted text.
pub fn parse_navigation_target_type(raw: &str) -> (r: Result<NavigationTargetType, BoundaryParseError>)
    ensures
        r is Ok <==> navigation_target_type_terms(trim(raw@)),
        r matches Ok(v) ==> v@ == trim(raw@),
        r matches Err(e) ==> e@ == "invalid navigation target type: "@ + text_error_words(if trim(raw@).len() == 0 {
                TextError::Empty
            } else {
                TextError::Unmodeled
            }),
{
    match NavigationTargetType::try_new(raw.to_owned()) {
        Ok(v) => Ok(v),
        Err(e) => Err(invalid_value("invalid navigation target type: ", e)),
    }
}

/// Parses a NavigationTargetName from untrusted text.
pub fn parse_navigation_target_name(raw: &str) -> (r: Result<NavigationTargetName, BoundaryParseError>)
    ensures
        r is Ok <==> trim(raw@).len() > 0,
        r matches Ok(v) ==> v@ == trim(raw@),
        r matches Err(e) ==> e@ == "invalid navigation target name: "@ + text_error_words(TextError::Empty),
{
    match NavigationTargetName::try_new(raw.to_owned()) {
        Ok(v) => Ok(v),
        Err(e) => Err(invalid_value("invalid navigation target name: ", e)),
    }
}

/// Parses a CommandInputSourceKind from untrusted text.
pub fn parse_command_input_source_kind(raw: &str) -> (r: Result<CommandInputSourceKind, BoundaryParseError>)
    ensures
        r is Ok <==> command_input_source_kind_terms(trim(raw@)),
        r matches Ok(v) ==> v@ == trim(raw@),
        r matches Err(e) ==> e@ == "invalid command input source: "@ + text_error_words(if trim(raw@).len() == 0 {
                TextError::Empty
            } else {
                TextError::Unmodeled
            }),
{
    match CommandInputSourceKind::try_new(raw.to_owned()) {
        Ok(v) => Ok(v),
        Err(e) => Err(invalid_value("invalid command input source: ", e)),
    }
}

/// Parses a CommandInputSourceDescription from untrusted text.
pub fn parse_command_input_source_description(raw: &str) -> (r: Result<CommandInputSourceDescription, BoundaryParseError>)
    ensures
        r is Ok <==> trim(raw@).len() > 0,
        r matches Ok(v) ==> v@ == trim(raw@),
        r matches Err(e) ==> e@ == "invalid command input source description: "@ + text_error_words(TextError::Empty),
{
    match CommandInputSourceDescription::try_new(raw.to_owned()) {
        Ok(v) => Ok(v),
        Err(e) => Err(invalid_value("invalid command input source description: ", e)),
    }
}

/// Parses a EventName from untrusted text.
pub fn parse_event_name(raw: &str) -> (r: Result<EventName, BoundaryParseError>)
    ensures
        r is Ok <==> trim(raw@).len() > 0,
        r matches Ok(v) ==> v@ == trim(raw@),
        r matches Err(e) ==> e@ == "invalid event name: "@ + text_error_words(TextError::Empty),
{
    match EventName::try_new(raw.to_owned()) {
        Ok(v) => Ok(v),
        Err(e) => Err(invalid_value("invalid event name: ", e)),
    }
}

/// Parses a StreamName from untrusted text.
pub fn parse_stream_name(raw: &str) -> (r: Result<StreamName, BoundaryParseError>)
    ensures
        r is Ok <==> trim(raw@).len() > 0,
        r matches Ok(v) ==> v@ == trim(raw@),
        r matches Err(e) ==> e@ == "invalid stream name: "@ + text_error_words(TextError::Empty),
{
    match StreamName::try_new(raw.to_owned()) {
        Ok(v) => Ok(v),
        Err(e) => Err(invalid_value("invalid stream name: ", e)),
    }
}

/// Parses a EventAttributeName from untrusted text.
pub fn parse_event_attribute_name(raw: &str) -> (r: Result<EventAttributeName, BoundaryParseError>)
    ensures
        r is Ok <==> trim(raw@).len() > 0,
        r matches Ok(v) ==> v@ == trim(raw@),
        r matches Err(e) ==> e@ == "invalid event attribute: "@ + text_error_words(TextError::Empty),
{
    match EventAttributeName::try_new(raw.to_owned()) {
        Ok(v) => Ok(v),
        Err(e) => Err(invalid_value("invalid event attribute: ", e)),
    }
}

/// Parses a EventAttributeSourceKind from untrusted text.
pub fn parse_event_attribute_source_kind(raw: &str) -> (r: Result<EventAttributeSourceKind, BoundaryParseError>)
    ensures
        r is Ok <==> event_attribute_source_kind_terms(trim(raw@)),
        r matches Ok(v) ==> v@ == trim(raw@),
        r matches Err(e) ==> e@ == "invalid event attribute source kind: "@ + text_error_words(if trim(raw@).len() == 0 {
                TextError::Empty
            } else {
                TextError::Unmodeled
            }),
{
    match EventAttributeSourceKind::try_new(raw.to_owned()) {
        Ok(v) => Ok(v),
        Err(e) => Err(invalid_value("invalid event attribute source kind: ", e)),
    }
}

/// Parses a EventAttributeSourceName from untrusted text.
pub fn parse_event_attribute_source_name(raw: &str) -> (r: Result<EventAttributeSourceName, BoundaryParseError>)
    ensures
        r is Ok <==> trim(raw@).len() > 0,
        r matches Ok(v) ==> v@ == trim(raw@),
        r matches Err(e) ==> e@ == "invalid event attribute source name: "@ + text_error_words(TextError::Empty),
{
    match EventAttributeSourceName::try_new(raw.to_owned()) {
        Ok(v) => Ok(v),
        Err(e) => Err(invalid_value("invalid event attribute source name: ", e)),
    }
}

/// Parses a EventAttributeSourceField from untrusted text.
pub fn parse_event_attribute_source_field(raw: &str) -> (r: Result<EventAttributeSourceField, BoundaryParseError>)
    ensures
        r is Ok <==> trim(raw@).len() > 0,
        r matches Ok(v) ==> v@ == trim(raw@),
        r matches Err(e) ==> e@ == "invalid event attribute source field: "@ + text_error_words(TextError::Empty),
{
    match EventAttributeSourceField::try_new(raw.to_owned()) {
        Ok(v) => Ok(v),
        Err(e) => Err(invalid_value("invalid event attribute source field: ", e)),
    }
}

/// Parses a ProvenanceDescription from untrusted text.
pub fn parse_provenance_description(raw: &str) -> (r: Result<ProvenanceDescription, BoundaryParseError>)
    ensures
        r is Ok <==> trim(raw@).len() > 0,
        r matches Ok(v) ==> v@ == trim(raw@),
        r matches Err(e) ==> e@ == "invalid provenance: "@ + text_error_words(TextError::Empty),
{
    match ProvenanceDescription::try_new(raw.to_owned()) {
        Ok(v) => Ok(v),
        Err(e) => Err(invalid_value("invalid provenance: ", e)),
    }
}

/// Parses a ReadModelName from untrusted text.
pub fn parse_read_model_name(raw: &str) -> (r: Result<ReadModelName, BoundaryParseError>)
    ensures
        r is Ok <==> trim(raw@).len() > 0,
        r matches Ok(v) ==> v@ == trim(raw@),
        r matches Err(e) ==> e@ == "invalid read model name: "@ + text_error_words(TextError::Empty),
{
    match ReadModelName::try_new(raw.to_owned()) {
        Ok(v) => Ok(v),
        Err(e) => Err(invalid_value("invalid read model name: ", e)),
    }
}

/// Parses a ReadModelFieldSourceKind from untrusted text.
pub fn parse_read_model_field_source_kind(raw: &str) -> (r: Result<ReadModelFieldSourceKind, BoundaryParseError>)
    ensures
        r is Ok <==> read_model_field_source_kind_terms(trim(raw@)),
        r matches Ok(v) ==> v@ == trim(raw@),
        r matches Err(e) ==> e@ == "invalid read model field source kind: "@ + text_error_words(if trim(raw@).len() == 0 {
                TextError::Empty
            } else {
                TextError::Unmodeled
            }),
{
    match ReadModelFieldSourceKind::try_new(raw.to_owned()) {
        Ok(v) => Ok(v),
        Err(e) => Err(invalid_value("invalid read model field source kind: ", e)),
    }
}

/// Parses a ReadModelDerivationRule from untrusted text.
pub fn parse_read_model_derivation_rule(raw: &str) -> (r: Result<ReadModelDerivationRule, BoundaryParseError>)
    ensures
        r is Ok <==> trim(raw@).len() > 0,
        r matches Ok(v) ==> v@ == trim(raw@),
        r matches Err(e) ==> e@ == "invalid read model derivation rule: "@ + text_error_words(TextError::Empty),
{
    match ReadModelDerivationRule::try_new(raw.to_owned()) {
        Ok(v) => Ok(v),
        Err(e) => Err(invalid_value("invalid read model derivation rule: ", e)),
    }
}

/// Parses a ReadModelTransitiveRule from untrusted text.
pub fn parse_read_model_transitive_rule(raw: &str) -> (r: Result<ReadModelTransitiveRule, BoundaryParseError>)
    ensures
        r is Ok <==> trim(raw@).len() > 0,
        r matches Ok(v) ==> v@ == trim(raw@),
        r matches Err(e) ==> e@ == "invalid read model transitive rule: "@ + text_error_words(TextError::Empty),
{
    match ReadModelTransitiveRule::try_new(raw.to_owned()) {
        Ok(v) => Ok(v),
        Err(e) => Err(invalid_value("invalid read model transitive rule: ", e)),
    }
}

/// Parses a ViewName from untrusted text.
pub fn parse_view_name(raw: &str) -> (r: Result<ViewName, BoundaryParseError>)
    ensures
        r is Ok <==> trim(raw@).len() > 0,
        r matches Ok(v) ==> v@ == trim(raw@),
        r matches Err(e) ==> e@ == "invalid view name: "@ + text_error_words(TextError::Empty),
{
    match ViewName::try_new(raw.to_owned()) {
        Ok(v) => Ok(v),
        Err(e) => Err(invalid_value("invalid view name: ", e)),
    }
}

/// Parses a ViewFieldName from untrusted text.
pub fn parse_view_field_name(raw: &str) -> (r: Result<ViewFieldName, BoundaryParseError>)
    ensures
        r is Ok <==> trim(raw@).len() > 0,
        r matches Ok(v) ==> v@ == trim(raw@),
        r matches Err(e) ==> e@ == "invalid view field name: "@ + text_error_words(TextError::Empty),
{
    match ViewFieldName::try_new(raw.to_owned()) {
        Ok(v) => Ok(v),
        Err(e) => Err(invalid_value("invalid view field name: ", e)),
    }
}

/// Parses a ViewFieldSourceKind from untrusted text.
pub fn parse_view_field_source_kind(raw: &str) -> (r: Result<ViewFieldSourceKind, BoundaryParseError>)
    ensures
        r is Ok <==> view_field_source_kind_terms(trim(raw@)),
        r matches Ok(v) ==> v@ == trim(raw@),
        r matches Err(e) ==> e@ == "invalid view field source kind: "@ + text_error_words(if trim(raw@).len() == 0 {
                TextError::Empty
            } else {
                TextError::Unmodeled
            }),
{
    match ViewFieldSourceKind::try_new(raw.to_owned()) {
        Ok(v) => Ok(v),
        Err(e) => Err(invalid_value("invalid view field source kind: ", e)),
    }
}

/// Parses a SketchToken from untrusted text.
pub fn parse_sketch_token(raw: &str) -> (r: Result<SketchToken, BoundaryParseError>)
    ensures
        r is Ok <==> trim(raw@).len() > 0,
        r matches Ok(v) ==> v@ == trim(raw@),
        r matches Err(e) ==> e@ == "invalid sketch token: "@ + text_error_words(TextError::Empty),
{
    match SketchToken::try_new(raw.to_owned()) {
        Ok(v) => Ok(v),
        Err(e) => Err(invalid_value("invalid sketch token: ", e)),
    }
}

/// Parses a WorkflowTransitionEndpoint from untrusted text.
pub fn parse_workflow_transition_endpoint(raw: &str) -> (r: Result<WorkflowTransitionEndpoint, BoundaryParseError>)
    ensures
        r is Ok <==> trim(raw@).len() > 0,
        r matches Ok(v) ==> v@ == trim(raw@),
        r matches Err(e) ==> e@ == "invalid workflow transition endpoint: "@ + text_error_words(TextError::Empty),
{
    match WorkflowTransitionEndpoint::try_new(raw.to_owned()) {
        Ok(v) => Ok(v),
        Err(e) => Err(invalid_value("invalid workflow transition endpoint: ", e)),
    }
}

/// Parses a WorkflowTransitionKind from untrusted text.
pub fn parse_workflow_transition_kind(raw: &str) -> (r: Result<WorkflowTransitionKind, BoundaryParseError>)
    ensures
        r is Ok <==> workflow_transition_kind_terms(trim(raw@)),
        r matches Ok(v) ==> v@ == trim(raw@),
        r matches Err(e) ==> e@ == "invalid workflow transition kind: "@ + text_error_words(if trim(raw@).len() == 0 {
                TextError::Empty
            } else {
                TextError::Unmodeled
            }),
{
    match WorkflowTransitionKind::try_new(raw.to_owned()) {
        Ok(v) => Ok(v),
        Err(e) => Err(invalid_value("invalid workflow transition kind: ", e)),
    }
}

/// Parses a WorkflowTransitionEvidenceText from untrusted text.
pub fn parse_workflow_transition_evidence_text(raw: &str) -> (r: Result<WorkflowTransitionEvidenceText, BoundaryParseError>)
    ensures
        r is Ok <==> trim(raw@).len() > 0,
        r matches Ok(v) ==> v@ == trim(raw@),
        r matches Err(e) ==> e@ == "invalid workflow transition evidence: "@ + text_error_words(TextError::Empty),
{
    match WorkflowTransitionEvidenceText::try_new(raw.to_owned()) {
        Ok(v) => Ok(v),
        Err(e) => Err(invalid_value("invalid workflow transition evidence: ", e)),
    }
}

/// Parses a WorkflowOwnedDefinitionKind from untrusted text.
pub fn parse_workflow_owned_definition_kind(raw: &str) -> (r: Result<WorkflowOwnedDefinitionKind, BoundaryParseError>)
    ensures
        r is Ok <==> workflow_owned_definition_kind_terms(trim(raw@)),
        r matches Ok(v) ==> v@ == trim(raw@),
        r matches Err(e) ==> e@ == "invalid workflow owned definition kind: "@ + text_error_words(if trim(raw@).len() == 0 {
                TextError::Empty
            } else {
                TextError::Unmodeled
            }),
{
    match WorkflowOwnedDefinitionKind::try_new(raw.to_owned()) {
        Ok(v) => Ok(v),
        Err(e) => Err(invalid_value("invalid workflow owned definition kind: ", e)),
    }
}

/// Parses a WorkflowOwnedDefinitionName from untrusted text.
pub fn parse_workflow_owned_definition_name(raw: &str) -> (r: Result<WorkflowOwnedDefinitionName, BoundaryParseError>)
    ensures
        r is Ok <==> trim(raw@).len() > 0,
        r matches Ok(v) ==> v@ == trim(raw@),
        r matches Err(e) ==> e@ == "invalid workflow owned definition name: "@ + text_error_words(TextError::Empty),
{
    match WorkflowOwnedDefinitionName::try_new(raw.to_owned()) {
        Ok(v) => Ok(v),
        Err(e) => Err(invalid_value("invalid workflow owned definition name: ", e)),
    }
}

/// Parses a LeanModuleName from untrusted text.
pub fn parse_lean_module_name(raw: &str) -> (r: Result<LeanModuleName, BoundaryParseError>)
    ensures
        r is Ok <==> trim(raw@).len() > 0,
        r matches Ok(v) ==> v@ == trim(raw@),
        r matches Err(e) ==> e@ == "invalid Lean module name: "@ + text_error_words(TextError::Empty),
{
    match LeanModuleName::try_new(raw.to_owned()) {
        Ok(v) => Ok(v),
        Err(e) => Err(invalid_value("invalid Lean module name: ", e)),
    }
}

/// Parses a QuintModuleName from untrusted text.
pub fn parse_quint_module_name(raw: &str) -> (r: Result<QuintModuleName, BoundaryParseError>)
    ensures
        r is Ok <==> trim(raw@).len() > 0,
        r matches Ok(v) ==> v@ == trim(raw@),
        r matches Err(e) ==> e@ == "invalid Quint module name: "@ + text_error_words(TextError::Empty),
{
    match QuintModuleName::try_new(raw.to_owned()) {
        Ok(v) => Ok(v),
        Err(e) => Err(invalid_value("invalid Quint module name: ", e)),
    }
}

/// Parses a ModelDigest from untrusted text.
pub fn parse_model_digest(raw: &str) -> (r: Result<ModelDigest, BoundaryParseError>)
    ensures
        r is Ok <==> trim(raw@).len() > 0,
        r matches Ok(v) ==> v@ == trim(raw@),
        r matches Err(e) ==> e@ == "invalid model digest: "@ + text_error_words(TextError::Empty),
{
    match ModelDigest::try_new(raw.to_owned()) {
        Ok(v) => Ok(v),
        Err(e) => Err(invalid_value("invalid model digest: ", e)),
    }
}

/// Parses a ReviewerId from untrusted text.
pub fn parse_reviewer_id(raw: &str) -> (r: Result<ReviewerId, BoundaryParseError>)
    ensures
        r is Ok <==> trim(raw@).len() > 0,
        r matches Ok(v) ==> v@ == trim(raw@),
        r matches Err(e) ==> e@ == "invalid reviewer_id: "@ + text_error_words(TextError::Empty),
{
    match ReviewerId::try_new(raw.to_owned()) {
        Ok(v) => Ok(v),
        Err(e) => Err(invalid_value("invalid reviewer_id: ", e)),
    }
}

/// Parses a ScenarioKind from untrusted text.
pub fn parse_scenario_kind(raw: &str) -> (r: Result<ScenarioKind, BoundaryParseError>)
    ensures
        r is Ok <==> scenario_kind_terms(trim(raw@)),
        r matches Ok(v) ==> v@ == trim(raw@),
        r matches Err(e) ==> e@ == "invalid scenario kind: "@ + text_error_words(if trim(raw@).len() == 0 {
                TextError::Empty
            } else {
                TextError::Unmodeled
            }),
{
    match ScenarioKind::try_new(raw.to_owned()) {
        Ok(v) => Ok(v),
        Err(e) => Err(invalid_value("invalid scenario kind: ", e)),
    }
}

/// Parses a DataFlowSourceKind from untrusted text.
pub fn parse_data_flow_source_kind(raw: &str) -> (r: Result<DataFlowSourceKind, BoundaryParseError>)
    ensures
        r is Ok <==> data_flow_source_kind_terms(trim(raw@)),
        r matches Ok(v) ==> v@ == trim(raw@),
        r matches Err(e) ==> e@ == "invalid data-flow source kind: "@ + text_error_words(if trim(raw@).len() == 0 {
                TextError::Empty
            } else {
                TextError::Unmodeled
            }),
{
    match DataFlowSourceKind::try_new(raw.to_owned()) {
        Ok(v) => Ok(v),
        Err(e) => Err(invalid_value("invalid data-flow source kind: ", e)),
    }
}

/// Parses a WorkflowEntryLifecycleStateName from untrusted text.
pub fn parse_workflow_entry_lifecycle_state_name(raw: &str) -> (r: Result<WorkflowEntryLifecycleStateName, BoundaryParseError>)
    ensures
        r is Ok <==> workflow_entry_lifecycle_state_name_terms(trim(raw@)),
        r matches Ok(v) ==> v@ == trim(raw@),
        r matches Err(e) ==> e@ == "invalid workflow entry lifecycle state: "@ + text_error_words(if trim(raw@).len() == 0 {
                TextError::Empty
            } else {
                TextError::Unmodeled
            }),
{
    match WorkflowEntryLifecycleStateName::try_new(raw.to_owned()) {
        Ok(v) => Ok(v),
        Err(e) => Err(invalid_value("invalid workflow entry lifecycle state: ", e)),
    }
}

/// Parses a WorkflowEventParticipation from untrusted text.
pub fn parse_workflow_event_participation(raw: &str) -> (r: Result<WorkflowEventParticipation, BoundaryParseError>)
    ensures
        r is Ok <==> workflow_event_participation_terms(trim(raw@)),
        r matches Ok(v) ==> v@ == trim(raw@),
        r matches Err(e) ==> e@ == "invalid workflow event participation: "@ + text_error_words(if trim(raw@).len() == 0 {
                TextError::Empty
            } else {
                TextError::Unmodeled
            }),
{
    match WorkflowEventParticipation::try_new(raw.to_owned()) {
        Ok(v) => Ok(v),
        Err(e) => Err(invalid_value("invalid workflow event participation: ", e)),
    }
}

/// Parses a WorkflowViewRole from untrusted text.
pub fn parse_workflow_view_role(raw: &str) -> (r: Result<WorkflowViewRole, BoundaryParseError>)
    ensures
        r is Ok <==> workflow_view_role_terms(trim(raw@)),
        r matches Ok(v) ==> v@ == trim(raw@),
        r matches Err(e) ==> e@ == "invalid workflow view role: "@ + text_error_words(if trim(raw@).len() == 0 {
                TextError::Empty
            } else {
                TextError::Unmodeled
            }),
{
    match WorkflowViewRole::try_new(raw.to_owned()) {
        Ok(v) => Ok(v),
        Err(e) => Err(invalid_value("invalid workflow view role: ", e)),
    }
}

/// Parses a comma-separated list of datum names; at least one is required.
pub fn parse_datum_names(raw: &str) -> (r: Result<Vec<DatumName>, BoundaryParseError>)
    ensures
        r is Ok <==> comma_values(raw@).len() > 0,
        r matches Ok(v) ==> v@.map_values(|n: DatumName| n@) == comma_values(raw@),
        r matches Err(e) ==> e@ == "invalid datum names: expected at least one value"@,
{
    let values = comma_separated(raw);
    if values.len() == 0 {
        return Err(
            BoundaryParseError::new("invalid datum names: expected at least one value".to_owned()),
        );
    }
    proof {
        lemma_trimmed_values_wf(split_on(raw@, ','));
    }
    let ghost all = values@.map_values(|s: String| s@);
    let mut parsed: Vec<DatumName> = Vec::new();
    let mut i: usize = 0;
    while i < values.len()
        invariant
            i <= values@.len(),
            all == values@.map_values(|s: String| s@),
            all == comma_values(raw@),
            forall|j: int| 0 <= j < all.len() ==> #[trigger] all[j].len() > 0 && trim(all[j]) == all[j],
            parsed@.len() == i,
            forall|k: int| 0 <= k < i ==> #[trigger] parsed@[k]@ == all[k],
        decreases values.len() - i,
    {
        assert(values@[i as int]@ == all[i as int]);
        let value = values[i].clone();
        assert(value@ == all[i as int]);
        match DatumName::try_new(value) {
            Ok(n) => {
                assert(n@ == all[i as int]);
                parsed.push(n);
            },
            Err(_e) => {
                assert(false);
                return Err(
                    BoundaryParseError::new("invalid datum names: expected at least one value".to_owned()),
                );
            },
        }
        i = i + 1;
    }
    assert(parsed@.map_values(|n: DatumName| n@) =~= all);
    Ok(parsed)
}

/// Parses a comma-separated list of command error names; at least one is required.
pub fn parse_command_error_names(raw: &str) -> (r: Result<Vec<CommandErrorName>, BoundaryParseError>)
    ensures
        r is Ok <==> comma_values(raw@).len() > 0,
        r matches Ok(v) ==> v@.map_values(|n: CommandErrorName| n@) == comma_values(raw@),
        r matches Err(e) ==> e@ == "invalid command error names: expected at least one value"@,
{
    let values = comma_separated(raw);
    if values.len() == 0 {
        return Err(
            BoundaryParseError::new("invalid command error names: expected at least one value".to_owned()),
        );
    }
    proof {
        lemma_trimmed_values_wf(split_on(raw@, ','));
    }
    let ghost all = values@.map_values(|s: String| s@);
    let mut parsed: Vec<CommandErrorName> = Vec::new();
    let mut i: usize = 0;
    while i < values.len()
        invariant
            i <= values@.len(),
            all == values@.map_values(|s: String| s@),
            all == comma_values(raw@),
            forall|j: int| 0 <= j < all.len() ==> #[trigger] all[j].len() > 0 && trim(all[j]) == all[j],
            parsed@.len() == i,
            forall|k: int| 0 <= k < i ==> #[trigger] parsed@[k]@ == all[k],
        decreases values.len() - i,
    {
        assert(values@[i as int]@ == all[i as int]);
        let value = values[i].clone();
        assert(value@ == all[i as int]);
        match CommandErrorName::try_new(value) {
            Ok(n) => {
                assert(n@ == all[i as int]);
                parsed.push(n);
            },
            Err(_e) => {
                assert(false);
                return Err(
                    BoundaryParseError::new("invalid command error names: expected at least one value".to_owned()),
                );
            },
        }
        i = i + 1;
    }
    assert(parsed@.map_values(|n: CommandErrorName| n@) =~= all);
    Ok(parsed)
}

/// Parses a comma-separated list of event names; at least one is required.
pub fn parse_event_names(raw: &str) -> (r: Result<Vec<EventName>, BoundaryParseError>)
    ensures
        r is Ok <==> comma_values(raw@).len() > 0,
        r matches Ok(v) ==> v@.map_values(|n: EventName| n@) == comma_values(raw@),
        r matches Err(e) ==> e@ == "invalid event names: expected at least one value"@,
{
    let values = comma_separated(raw);
    if values.len() == 0 {
        return Err(
            BoundaryParseError::new("invalid event names: expected at least one value".to_owned()),
        );
    }
    proof {
        lemma_trimmed_values_wf(split_on(raw@, ','));
    }
    let ghost all = values@.map_values(|s: String| s@);
    let mut parsed: Vec<EventName> = Vec::new();
    let mut i: usize = 0;
    while i < values.len()
        invariant
            i <= values@.len(),
            all == values@.map_values(|s: String| s@),
            all == comma_values(raw@),
            forall|j: int| 0 <= j < all.len() ==> #[trigger] all[j].len() > 0 && trim(all[j]) == all[j],
            parsed@.len() == i,
            forall|k: int| 0 <= k < i ==> #[trigger] parsed@[k]@ == all[k],
        decreases values.len() - i,
    {
        assert(values@[i as int]@ == all[i as int]);
        let value = values[i].clone();
        assert(value@ == all[i as int]);
        match EventName::try_new(value) {
            Ok(n) => {
                assert(n@ == all[i as int]);
                parsed.push(n);
            },
            Err(_e) => {
                assert(false);
                return Err(
                    BoundaryParseError::new("invalid event names: expected at least one value".to_owned()),
                );
            },
        }
        i = i + 1;
    }
    assert(parsed@.map_values(|n: EventName| n@) =~= all);
    Ok(parsed)
}

/// Parses a comma-separated list of stream names; at least one is required.
pub fn parse_stream_names(raw: &str) -> (r: Result<Vec<StreamName>, BoundaryParseError>)
    ensures
        r is Ok <==> comma_values(raw@).len() > 0,
        r matches Ok(v) ==> v@.map_values(|n: StreamName| n@) == comma_values(raw@),
        r matches Err(e) ==> e@ == "invalid stream names: expected at least one value"@,
{
    let values = comma_separated(raw);
    if values.len() == 0 {
        return Err(
            BoundaryParseError::new("invalid stream names: expected at least one value".to_owned()),
        );
    }
    proof {
        lemma_trimmed_values_wf(split_on(raw@, ','));
    }
    let ghost all = values@.map_values(|s: String| s@);
    let mut parsed: Vec<StreamName> = Vec::new();
    let mut i: usize = 0;
    while i < values.len()
        invariant
            i <= values@.len(),
            all == values@.map_values(|s: String| s@),
            all == comma_values(raw@),
            forall|j: int| 0 <= j < all.len() ==> #[trigger] all[j].len() > 0 && trim(all[j]) == all[j],
            parsed@.len() == i,
            forall|k: int| 0 <= k < i ==> #[trigger] parsed@[k]@ == all[k],
        decreases values.len() - i,
    {
        assert(values@[i as int]@ == all[i as int]);
        let value = values[i].clone();
        assert(value@ == all[i as int]);
        match StreamName::try_new(value) {
            Ok(n) => {
                assert(n@ == all[i as int]);
                parsed.push(n);
            },
            Err(_e) => {
                assert(false);
                return Err(
                    BoundaryParseError::new("invalid stream names: expected at least one value".to_owned()),
                );
            },
        }
        i = i + 1;
    }
    assert(parsed@.map_values(|n: StreamName| n@) =~= all);
    Ok(parsed)
}

/// Parses a comma-separated list of source chain hops; at least one is required.
pub fn parse_source_chain_hops(raw: &str) -> (r: Result<Vec<SourceChainHop>, BoundaryParseError>)
    ensures
        r is Ok <==> comma_values(raw@).len() > 0,
        r matches Ok(v) ==> v@.map_values(|n: SourceChainHop| n@) == comma_values(raw@),
        r matches Err(e) ==> e@ == "invalid source chain hops: expected at least one value"@,
{
    let values = comma_separated(raw);
    if values.len() == 0 {
        return Err(
            BoundaryParseError::new("invalid source chain hops: expected at least one value".to_owned()),
        );
    }
    proof {
        lemma_trimmed_values_wf(split_on(raw@, ','));
    }
    let ghost all = values@.map_values(|s: String| s@);
    let mut parsed: Vec<SourceChainHop> = Vec::new();
    let mut i: usize = 0;
    while i < values.len()
        invariant
            i <= values@.len(),
            all == values@.map_values(|s: String| s@),
            all == comma_values(raw@),
            forall|j: int| 0 <= j < all.len() ==> #[trigger] all[j].len() > 0 && trim(all[j]) == all[j],
            parsed@.len() == i,
            forall|k: int| 0 <= k < i ==> #[trigger] parsed@[k]@ == all[k],
        decreases values.len() - i,
    {
        assert(values@[i as int]@ == all[i as int]);
        let value = values[i].clone();
        assert(value@ == all[i as int]);
        match SourceChainHop::try_new(value) {
            Ok(n) => {
                assert(n@ == all[i as int]);
                parsed.push(n);
            },
            Err(_e) => {
                assert(false);
                return Err(
                    BoundaryParseError::new("invalid source chain hops: expected at least one value".to_owned()),
                );
            },
        }
        i = i + 1;
    }
    assert(parsed@.map_values(|n: SourceChainHop| n@) =~= all);
    Ok(parsed)
}

} // verus!
