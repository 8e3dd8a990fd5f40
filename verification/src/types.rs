//! Semantic value types that cross the boundary into the core. Each text
//! type trims its input and refuses an empty result; the closed-domain types
//! also refuse any term outside their modeled vocabulary.

use vstd::prelude::*;

use crate::text::{
    chars_eq, chars_of, contains_chars, contains_seq, has_prefix, is_ascii_alnum, is_trimmed,
    is_ws, lemma_no_double_dot_pieces, no_double_dot, split_chars, split_on, starts_with,
    string_from_range, trim, trim_chars, trim_end, trim_start,
};
use vstd::string::StringExecFns;

verus! {

/// Why a raw value could not become a semantic value.
#[derive(Debug, Clone, Copy, PartialEq, Eq, Structural)]
pub enum TextError {
    /// Nothing is left after trimming.
    Empty,
    /// The trimmed value is not one of the modeled terms.
    Unmodeled,
    /// The trimmed value does not have the required shape.
    Malformed,
}

/// Whether the characters of `t` are exactly those of `lit`.
pub fn text_is(t: &Vec<char>, lit: &str) -> (r: bool)
    ensures
        r == (t@ == lit@),
{
    let w = chars_of(lit);
    chars_eq(t, &w)
}

/// The well-formedness shared by every semantic text value.
pub open spec fn text_wf(s: Seq<char>) -> bool {
    s.len() > 0 && is_trimmed(s)
}

/// The text of a semantic value is trimmed and not empty, so reading it
/// again gives the same text.
pub proof fn law_semantic_text_reads_back(s: Seq<char>)
    requires
        text_wf(s),
    ensures
        trim(s) == s,
        trim(s).len() > 0,
{
    assert(trim_start(s) == s);
    assert(trim_end(s) == s);
}

/// Trims `raw` and returns it when something is left.
fn trimmed_nonempty(raw: &str) -> (r: Option<String>)
    ensures
        r is Some <==> trim(raw@).len() > 0,
        r matches Some(t) ==> t@ == trim(raw@) && text_wf(t@),
{
    let t = trim_chars(raw);
    if t.as_str().is_empty() {
        None
    } else {
        Some(t)
    }
}

/// A model or workflow display name.
#[derive(Debug)]
pub struct ModelName {
    text: String,
}

impl View for ModelName {
    type V = Seq<char>;

    closed spec fn view(&self) -> Seq<char> {
        self.text@
    }
}

impl ModelName {
    #[verifier::type_invariant]
    spec fn wf(&self) -> bool {
        text_wf(self.text@)
    }

    /// Trims `raw`; refuses it when nothing is left.
    pub fn try_new(raw: String) -> (r: Result<Self, TextError>)
        ensures
            r is Ok <==> trim(raw@).len() > 0,
            r matches Ok(v) ==> v@ == trim(raw@),
            r matches Err(e) ==> e == TextError::Empty,
    {
        match trimmed_nonempty(raw.as_str()) {
            Some(text) => Ok(ModelName { text }),
            None => Err(TextError::Empty),
        }
    }

    /// The trimmed text.
    pub fn as_str(&self) -> (r: &str)
        ensures
            r@ == self@,
            text_wf(r@),
    {
        proof {
            use_type_invariant(self);
        }
        self.text.as_str()
    }
}

impl Clone for ModelName {
    fn clone(&self) -> (r: Self)
        ensures
            r@ == self@,
    {
        proof {
            use_type_invariant(self);
        }
        ModelName { text: self.text.clone() }
    }
}

/// A workflow's reference to one of its slice files.
#[derive(Debug)]
pub struct WorkflowSliceFileReference {
    text: String,
}

impl View for WorkflowSliceFileReference {
    type V = Seq<char>;

    closed spec fn view(&self) -> Seq<char> {
        self.text@
    }
}

impl WorkflowSliceFileReference {
    #[verifier::type_invariant]
    spec fn wf(&self) -> bool {
        text_wf(self.text@)
    }

    /// Trims `raw`; refuses it when nothing is left.
    pub fn try_new(raw: String) -> (r: Result<Self, TextError>)
        ensures
            r is Ok <==> trim(raw@).len() > 0,
            r matches Ok(v) ==> v@ == trim(raw@),
            r matches Err(e) ==> e == TextError::Empty,
    {
        match trimmed_nonempty(raw.as_str()) {
            Some(text) => Ok(WorkflowSliceFileReference { text }),
            None => Err(TextError::Empty),
        }
    }

    /// The trimmed text.
    pub fn as_str(&self) -> (r: &str)
        ensures
            r@ == self@,
            text_wf(r@),
    {
        proof {
            use_type_invariant(self);
        }
        self.text.as_str()
    }
}

impl Clone for WorkflowSliceFileReference {
    fn clone(&self) -> (r: Self)
        ensures
            r@ == self@,
    {
        proof {
            use_type_invariant(self);
        }
        WorkflowSliceFileReference { text: self.text.clone() }
    }
}

/// A free-text model description.
#[derive(Debug)]
pub struct ModelDescription {
    text: String,
}

impl View for ModelDescription {
    type V = Seq<char>;

    closed spec fn view(&self) -> Seq<char> {
        self.text@
    }
}

impl ModelDescription {
    #[verifier::type_invariant]
    spec fn wf(&self) -> bool {
        text_wf(self.text@)
    }

    /// Trims `raw`; refuses it when nothing is left.
    pub fn try_new(raw: String) -> (r: Result<Self, TextError>)
        ensures
            r is Ok <==> trim(raw@).len() > 0,
            r matches Ok(v) ==> v@ == trim(raw@),
            r matches Err(e) ==> e == TextError::Empty,
    {
        match trimmed_nonempty(raw.as_str()) {
            Some(text) => Ok(ModelDescription { text }),
            None => Err(TextError::Empty),
        }
    }

    /// The trimmed text.
    pub fn as_str(&self) -> (r: &str)
        ensures
            r@ == self@,
            text_wf(r@),
    {
        proof {
            use_type_invariant(self);
        }
        self.text.as_str()
    }
}

impl Clone for ModelDescription {
    fn clone(&self) -> (r: Self)
        ensures
            r@ == self@,
    {
        proof {
            use_type_invariant(self);
        }
        ModelDescription { text: self.text.clone() }
    }
}

/// The name of an EMC project.
#[derive(Debug)]
pub struct ProjectName {
    text: String,
}

impl View for ProjectName {
    type V = Seq<char>;

    closed spec fn view(&self) -> Seq<char> {
        self.text@
    }
}

impl ProjectName {
    #[verifier::type_invariant]
    spec fn wf(&self) -> bool {
        text_wf(self.text@)
    }

    /// Trims `raw`; refuses it when nothing is left.
    pub fn try_new(raw: String) -> (r: Result<Self, TextError>)
        ensures
            r is Ok <==> trim(raw@).len() > 0,
            r matches Ok(v) ==> v@ == trim(raw@),
            r matches Err(e) ==> e == TextError::Empty,
    {
        match trimmed_nonempty(raw.as_str()) {
            Some(text) => Ok(ProjectName { text }),
            None => Err(TextError::Empty),
        }
    }

    /// The trimmed text.
    pub fn as_str(&self) -> (r: &str)
        ensures
            r@ == self@,
            text_wf(r@),
    {
        proof {
            use_type_invariant(self);
        }
        self.text.as_str()
    }
}

impl Clone for ProjectName {
    fn clone(&self) -> (r: Self)
        ensures
            r@ == self@,
    {
        proof {
            use_type_invariant(self);
        }
        ProjectName { text: self.text.clone() }
    }
}

/// The trigger name of a workflow transition.
#[derive(Debug)]
pub struct TransitionTriggerName {
    text: String,
}

impl View for TransitionTriggerName {
    type V = Seq<char>;

    closed spec fn view(&self) -> Seq<char> {
        self.text@
    }
}

impl TransitionTriggerName {
    #[verifier::type_invariant]
    spec fn wf(&self) -> bool {
        text_wf(self.text@)
    }

    /// Trims `raw`; refuses it when nothing is left.
    pub fn try_new(raw: String) -> (r: Result<Self, TextError>)
        ensures
            r is Ok <==> trim(raw@).len() > 0,
            r matches Ok(v) ==> v@ == trim(raw@),
            r matches Err(e) ==> e == TextError::Empty,
    {
        match trimmed_nonempty(raw.as_str()) {
            Some(text) => Ok(TransitionTriggerName { text }),
            None => Err(TextError::Empty),
        }
    }

    /// The trimmed text.
    pub fn as_str(&self) -> (r: &str)
        ensures
            r@ == self@,
            text_wf(r@),
    {
        proof {
            use_type_invariant(self);
        }
        self.text.as_str()
    }
}

impl Clone for TransitionTriggerName {
    fn clone(&self) -> (r: Self)
        ensures
            r@ == self@,
    {
        proof {
            use_type_invariant(self);
        }
        TransitionTriggerName { text: self.text.clone() }
    }
}

/// The name of an external payload contract.
#[derive(Debug)]
pub struct PayloadContractName {
    text: String,
}

impl View for PayloadContractName {
    type V = Seq<char>;

    closed spec fn view(&self) -> Seq<char> {
        self.text@
    }
}

impl PayloadContractName {
    #[verifier::type_invariant]
    spec fn wf(&self) -> bool {
        text_wf(self.text@)
    }

    /// Trims `raw`; refuses it when nothing is left.
    pub fn try_new(raw: String) -> (r: Result<Self, TextError>)
        ensures
            r is Ok <==> trim(raw@).len() > 0,
            r matches Ok(v) ==> v@ == trim(raw@),
            r matches Err(e) ==> e == TextError::Empty,
    {
        match trimmed_nonempty(raw.as_str()) {
            Some(text) => Ok(PayloadContractName { text }),
            None => Err(TextError::Empty),
        }
    }

    /// The trimmed text.
    pub fn as_str(&self) -> (r: &str)
        ensures
            r@ == self@,
            text_wf(r@),
    {
        proof {
            use_type_invariant(self);
        }
        self.text.as_str()
    }
}

impl Clone for PayloadContractName {
    fn clone(&self) -> (r: Self)
        ensures
            r@ == self@,
    {
        proof {
            use_type_invariant(self);
        }
        PayloadContractName { text: self.text.clone() }
    }
}

/// The name of a translation.
#[derive(Debug)]
pub struct TranslationName {
    text: String,
}

impl View for TranslationName {
    type V = Seq<char>;

    closed spec fn view(&self) -> Seq<char> {
        self.text@
    }
}

impl TranslationName {
    #[verifier::type_invariant]
    spec fn wf(&self) -> bool {
        text_wf(self.text@)
    }

    /// Trims `raw`; refuses it when nothing is left.
    pub fn try_new(raw: String) -> (r: Result<Self, TextError>)
        ensures
            r is Ok <==> trim(raw@).len() > 0,
            r matches Ok(v) ==> v@ == trim(raw@),
            r matches Err(e) ==> e == TextError::Empty,
    {
        match trimmed_nonempty(raw.as_str()) {
            Some(text) => Ok(TranslationName { text }),
            None => Err(TextError::Empty),
        }
    }

    /// The trimmed text.
    pub fn as_str(&self) -> (r: &str)
        ensures
            r@ == self@,
            text_wf(r@),
    {
        proof {
            use_type_invariant(self);
        }
        self.text.as_str()
    }
}

impl Clone for TranslationName {
    fn clone(&self) -> (r: Self)
        ensures
            r@ == self@,
    {
        proof {
            use_type_invariant(self);
        }
        TranslationName { text: self.text.clone() }
    }
}

/// The external event a translation observes.
#[derive(Debug)]
pub struct TranslationExternalEventName {
    text: String,
}

impl View for TranslationExternalEventName {
    type V = Seq<char>;

    closed spec fn view(&self) -> Seq<char> {
        self.text@
    }
}

impl TranslationExternalEventName {
    #[verifier::type_invariant]
    spec fn wf(&self) -> bool {
        text_wf(self.text@)
    }

    /// Trims `raw`; refuses it when nothing is left.
    pub fn try_new(raw: String) -> (r: Result<Self, TextError>)
        ensures
            r is Ok <==> trim(raw@).len() > 0,
            r matches Ok(v) ==> v@ == trim(raw@),
            r matches Err(e) ==> e == TextError::Empty,
    {
        match trimmed_nonempty(raw.as_str()) {
            Some(text) => Ok(TranslationExternalEventName { text }),
            None => Err(TextError::Empty),
        }
    }

    /// The trimmed text.
    pub fn as_str(&self) -> (r: &str)
        ensures
            r@ == self@,
            text_wf(r@),
    {
        proof {
            use_type_invariant(self);
        }
        self.text.as_str()
    }
}

impl Clone for TranslationExternalEventName {
    fn clone(&self) -> (r: Self)
        ensures
            r@ == self@,
    {
        proof {
            use_type_invariant(self);
        }
        TranslationExternalEventName { text: self.text.clone() }
    }
}

/// The label of a slice outcome.
#[derive(Debug)]
pub struct OutcomeLabelName {
    text: String,
}

impl View for OutcomeLabelName {
    type V = Seq<char>;

    closed spec fn view(&self) -> Seq<char> {
        self.text@
    }
}

impl OutcomeLabelName {
    #[verifier::type_invariant]
    spec fn wf(&self) -> bool {
        text_wf(self.text@)
    }

    /// Trims `raw`; refuses it when nothing is left.
    pub fn try_new(raw: String) -> (r: Result<Self, TextError>)
        ensures
            r is Ok <==> trim(raw@).len() > 0,
            r matches Ok(v) ==> v@ == trim(raw@),
            r matches Err(e) ==> e == TextError::Empty,
    {
        match trimmed_nonempty(raw.as_str()) {
            Some(text) => Ok(OutcomeLabelName { text }),
            None => Err(TextError::Empty),
        }
    }

    /// The trimmed text.
    pub fn as_str(&self) -> (r: &str)
        ensures
            r@ == self@,
            text_wf(r@),
    {
        proof {
            use_type_invariant(self);
        }
        self.text.as_str()
    }
}

impl Clone for OutcomeLabelName {
    fn clone(&self) -> (r: Self)
        ensures
            r@ == self@,
    {
        proof {
            use_type_invariant(self);
        }
        OutcomeLabelName { text: self.text.clone() }
    }
}

/// The name of a slice scenario.
#[derive(Debug)]
pub struct ScenarioName {
    text: String,
}

impl View for ScenarioName {
    type V = Seq<char>;

    closed spec fn view(&self) -> Seq<char> {
        self.text@
    }
}

impl ScenarioName {
    #[verifier::type_invariant]
    spec fn wf(&self) -> bool {
        text_wf(self.text@)
    }

    /// Trims `raw`; refuses it when nothing is left.
    pub fn try_new(raw: String) -> (r: Result<Self, TextError>)
        ensures
            r is Ok <==> trim(raw@).len() > 0,
            r matches Ok(v) ==> v@ == trim(raw@),
            r matches Err(e) ==> e == TextError::Empty,
    {
        match trimmed_nonempty(raw.as_str()) {
            Some(text) => Ok(ScenarioName { text }),
            None => Err(TextError::Empty),
        }
    }

    /// The trimmed text.
    pub fn as_str(&self) -> (r: &str)
        ensures
            r@ == self@,
            text_wf(r@),
    {
        proof {
            use_type_invariant(self);
        }
        self.text.as_str()
    }
}

impl Clone for ScenarioName {
    fn clone(&self) -> (r: Self)
        ensures
            r@ == self@,
    {
        proof {
            use_type_invariant(self);
        }
        ScenarioName { text: self.text.clone() }
    }
}

/// The text of a scenario step.
#[derive(Debug)]
pub struct ScenarioStepText {
    text: String,
}

impl View for ScenarioStepText {
    type V = Seq<char>;

    closed spec fn view(&self) -> Seq<char> {
        self.text@
    }
}

impl ScenarioStepText {
    #[verifier::type_invariant]
    spec fn wf(&self) -> bool {
        text_wf(self.text@)
    }

    /// Trims `raw`; refuses it when nothing is left.
    pub fn try_new(raw: String) -> (r: Result<Self, TextError>)
        ensures
            r is Ok <==> trim(raw@).len() > 0,
            r matches Ok(v) ==> v@ == trim(raw@),
            r matches Err(e) ==> e == TextError::Empty,
    {
        match trimmed_nonempty(raw.as_str()) {
            Some(text) => Ok(ScenarioStepText { text }),
            None => Err(TextError::Empty),
        }
    }

    /// The trimmed text.
    pub fn as_str(&self) -> (r: &str)
        ensures
            r@ == self@,
            text_wf(r@),
    {
        proof {
            use_type_invariant(self);
        }
        self.text.as_str()
    }
}

impl Clone for ScenarioStepText {
    fn clone(&self) -> (r: Self)
        ensures
            r@ == self@,
    {
        proof {
            use_type_invariant(self);
        }
        ScenarioStepText { text: self.text.clone() }
    }
}

/// A definition covered by a contract scenario.
#[derive(Debug)]
pub struct CoveredDefinitionName {
    text: String,
}

impl View for CoveredDefinitionName {
    type V = Seq<char>;

    closed spec fn view(&self) -> Seq<char> {
        self.text@
    }
}

impl CoveredDefinitionName {
    #[verifier::type_invariant]
    spec fn wf(&self) -> bool {
        text_wf(self.text@)
    }

    /// Trims `raw`; refuses it when nothing is left.
    pub fn try_new(raw: String) -> (r: Result<Self, TextError>)
        ensures
            r is Ok <==> trim(raw@).len() > 0,
            r matches Ok(v) ==> v@ == trim(raw@),
            r matches Err(e) ==> e == TextError::Empty,
    {
        match trimmed_nonempty(raw.as_str()) {
            Some(text) => Ok(CoveredDefinitionName { text }),
            None => Err(TextError::Empty),
        }
    }

    /// The trimmed text.
    pub fn as_str(&self) -> (r: &str)
        ensures
            r@ == self@,
            text_wf(r@),
    {
        proof {
            use_type_invariant(self);
        }
        self.text.as_str()
    }
}

impl Clone for CoveredDefinitionName {
    fn clone(&self) -> (r: Self)
        ensures
            r@ == self@,
    {
        proof {
            use_type_invariant(self);
        }
        CoveredDefinitionName { text: self.text.clone() }
    }
}

/// The name of a datum in a bit-level data flow.
#[derive(Debug)]
pub struct DatumName {
    text: String,
}

impl View for DatumName {
    type V = Seq<char>;

    closed spec fn view(&self) -> Seq<char> {
        self.text@
    }
}

impl DatumName {
    #[verifier::type_invariant]
    spec fn wf(&self) -> bool {
        text_wf(self.text@)
    }

    /// Trims `raw`; refuses it when nothing is left.
    pub fn try_new(raw: String) -> (r: Result<Self, TextError>)
        ensures
            r is Ok <==> trim(raw@).len() > 0,
            r matches Ok(v) ==> v@ == trim(raw@),
            r matches Err(e) ==> e == TextError::Empty,
    {
        match trimmed_nonempty(raw.as_str()) {
            Some(text) => Ok(DatumName { text }),
            None => Err(TextError::Empty),
        }
    }

    /// The trimmed text.
    pub fn as_str(&self) -> (r: &str)
        ensures
            r@ == self@,
            text_wf(r@),
    {
        proof {
            use_type_invariant(self);
        }
        self.text.as_str()
    }
}

impl Clone for DatumName {
    fn clone(&self) -> (r: Self)
        ensures
            r@ == self@,
    {
        proof {
            use_type_invariant(self);
        }
        DatumName { text: self.text.clone() }
    }
}

/// The source of a bit-level data flow.
#[derive(Debug)]
pub struct DataFlowSource {
    text: String,
}

impl View for DataFlowSource {
    type V = Seq<char>;

    closed spec fn view(&self) -> Seq<char> {
        self.text@
    }
}

impl DataFlowSource {
    #[verifier::type_invariant]
    spec fn wf(&self) -> bool {
        text_wf(self.text@)
    }

    /// Trims `raw`; refuses it when nothing is left.
    pub fn try_new(raw: String) -> (r: Result<Self, TextError>)
        ensures
            r is Ok <==> trim(raw@).len() > 0,
            r matches Ok(v) ==> v@ == trim(raw@),
            r matches Err(e) ==> e == TextError::Empty,
    {
        match trimmed_nonempty(raw.as_str()) {
            Some(text) => Ok(DataFlowSource { text }),
            None => Err(TextError::Empty),
        }
    }

    /// The trimmed text.
    pub fn as_str(&self) -> (r: &str)
        ensures
            r@ == self@,
            text_wf(r@),
    {
        proof {
            use_type_invariant(self);
        }
        self.text.as_str()
    }
}

impl Clone for DataFlowSource {
    fn clone(&self) -> (r: Self)
        ensures
            r@ == self@,
    {
        proof {
            use_type_invariant(self);
        }
        DataFlowSource { text: self.text.clone() }
    }
}

/// The target of a bit-level data flow.
#[derive(Debug)]
pub struct DataFlowTarget {
    text: String,
}

impl View for DataFlowTarget {
    type V = Seq<char>;

    closed spec fn view(&self) -> Seq<char> {
        self.text@
    }
}

impl DataFlowTarget {
    #[verifier::type_invariant]
    spec fn wf(&self) -> bool {
        text_wf(self.text@)
    }

    /// Trims `raw`; refuses it when nothing is left.
    pub fn try_new(raw: String) -> (r: Result<Self, TextError>)
        ensures
            r is Ok <==> trim(raw@).len() > 0,
            r matches Ok(v) ==> v@ == trim(raw@),
            r matches Err(e) ==> e == TextError::Empty,
    {
        match trimmed_nonempty(raw.as_str()) {
            Some(text) => Ok(DataFlowTarget { text }),
            None => Err(TextError::Empty),
        }
    }

    /// The trimmed text.
    pub fn as_str(&self) -> (r: &str)
        ensures
            r@ == self@,
            text_wf(r@),
    {
        proof {
            use_type_invariant(self);
        }
        self.text.as_str()
    }
}

impl Clone for DataFlowTarget {
    fn clone(&self) -> (r: Self)
        ensures
            r@ == self@,
    {
        proof {
            use_type_invariant(self);
        }
        DataFlowTarget { text: self.text.clone() }
    }
}

/// The bit-level encoding semantics of a datum.
#[derive(Debug)]
pub struct BitEncodingSemantics {
    text: String,
}

impl View for BitEncodingSemantics {
    type V = Seq<char>;

    closed spec fn view(&self) -> Seq<char> {
        self.text@
    }
}

impl BitEncodingSemantics {
    #[verifier::type_invariant]
    spec fn wf(&self) -> bool {
        text_wf(self.text@)
    }

    /// Trims `raw`; refuses it when nothing is left.
    pub fn try_new(raw: String) -> (r: Result<Self, TextError>)
        ensures
            r is Ok <==> trim(raw@).len() > 0,
            r matches Ok(v) ==> v@ == trim(raw@),
            r matches Err(e) ==> e == TextError::Empty,
    {
        match trimmed_nonempty(raw.as_str()) {
            Some(text) => Ok(BitEncodingSemantics { text }),
            None => Err(TextError::Empty),
        }
    }

    /// The trimmed text.
    pub fn as_str(&self) -> (r: &str)
        ensures
            r@ == self@,
            text_wf(r@),
    {
        proof {
            use_type_invariant(self);
        }
        self.text.as_str()
    }
}

impl Clone for BitEncodingSemantics {
    fn clone(&self) -> (r: Self)
        ensures
            r@ == self@,
    {
        proof {
            use_type_invariant(self);
        }
        BitEncodingSemantics { text: self.text.clone() }
    }
}

/// The name of a board element.
#[derive(Debug)]
pub struct BoardElementName {
    text: String,
}

impl View for BoardElementName {
    type V = Seq<char>;

    closed spec fn view(&self) -> Seq<char> {
        self.text@
    }
}

impl BoardElementName {
    #[verifier::type_invariant]
    spec fn wf(&self) -> bool {
        text_wf(self.text@)
    }

    /// Trims `raw`; refuses it when nothing is left.
    pub fn try_new(raw: String) -> (r: Result<Self, TextError>)
        ensures
            r is Ok <==> trim(raw@).len() > 0,
            r matches Ok(v) ==> v@ == trim(raw@),
            r matches Err(e) ==> e == TextError::Empty,
    {
        match trimmed_nonempty(raw.as_str()) {
            Some(text) => Ok(BoardElementName { text }),
            None => Err(TextError::Empty),
        }
    }

    /// The trimmed text.
    pub fn as_str(&self) -> (r: &str)
        ensures
            r@ == self@,
            text_wf(r@),
    {
        proof {
            use_type_invariant(self);
        }
        self.text.as_str()
    }
}

impl Clone for BoardElementName {
    fn clone(&self) -> (r: Self)
        ensures
            r@ == self@,
    {
        proof {
            use_type_invariant(self);
        }
        BoardElementName { text: self.text.clone() }
    }
}

/// The declared definition name a board element stands for.
#[derive(Debug)]
pub struct BoardElementDeclaredName {
    text: String,
}

impl View for BoardElementDeclaredName {
    type V = Seq<char>;

    closed spec fn view(&self) -> Seq<char> {
        self.text@
    }
}

impl BoardElementDeclaredName {
    #[verifier::type_invariant]
    spec fn wf(&self) -> bool {
        text_wf(self.text@)
    }

    /// Trims `raw`; refuses it when nothing is left.
    pub fn try_new(raw: String) -> (r: Result<Self, TextError>)
        ensures
            r is Ok <==> trim(raw@).len() > 0,
            r matches Ok(v) ==> v@ == trim(raw@),
            r matches Err(e) ==> e == TextError::Empty,
    {
        match trimmed_nonempty(raw.as_str()) {
            Some(text) => Ok(BoardElementDeclaredName { text }),
            None => Err(TextError::Empty),
        }
    }

    /// The trimmed text.
    pub fn as_str(&self) -> (r: &str)
        ensures
            r@ == self@,
            text_wf(r@),
    {
        proof {
            use_type_invariant(self);
        }
        self.text.as_str()
    }
}

impl Clone for BoardElementDeclaredName {
    fn clone(&self) -> (r: Self)
        ensures
            r@ == self@,
    {
        proof {
            use_type_invariant(self);
        }
        BoardElementDeclaredName { text: self.text.clone() }
    }
}

/// An endpoint of a board connection.
#[derive(Debug)]
pub struct BoardConnectionEndpoint {
    text: String,
}

impl View for BoardConnectionEndpoint {
    type V = Seq<char>;

    closed spec fn view(&self) -> Seq<char> {
        self.text@
    }
}

impl BoardConnectionEndpoint {
    #[verifier::type_invariant]
    spec fn wf(&self) -> bool {
        text_wf(self.text@)
    }

    /// Trims `raw`; refuses it when nothing is left.
    pub fn try_new(raw: String) -> (r: Result<Self, TextError>)
        ensures
            r is Ok <==> trim(raw@).len() > 0,
            r matches Ok(v) ==> v@ == trim(raw@),
            r matches Err(e) ==> e == TextError::Empty,
    {
        match trimmed_nonempty(raw.as_str()) {
            Some(text) => Ok(BoardConnectionEndpoint { text }),
            None => Err(TextError::Empty),
        }
    }

    /// The trimmed text.
    pub fn as_str(&self) -> (r: &str)
        ensures
            r@ == self@,
            text_wf(r@),
    {
        proof {
            use_type_invariant(self);
        }
        self.text.as_str()
    }
}

impl Clone for BoardConnectionEndpoint {
    fn clone(&self) -> (r: Self)
        ensures
            r@ == self@,
    {
        proof {
            use_type_invariant(self);
        }
        BoardConnectionEndpoint { text: self.text.clone() }
    }
}

/// The name of a command.
#[derive(Debug)]
pub struct CommandName {
    text: String,
}

impl View for CommandName {
    type V = Seq<char>;

    closed spec fn view(&self) -> Seq<char> {
        self.text@
    }
}

impl CommandName {
    #[verifier::type_invariant]
    spec fn wf(&self) -> bool {
        text_wf(self.text@)
    }

    /// Trims `raw`; refuses it when nothing is left.
    pub fn try_new(raw: String) -> (r: Result<Self, TextError>)
        ensures
            r is Ok <==> trim(raw@).len() > 0,
            r matches Ok(v) ==> v@ == trim(raw@),
            r matches Err(e) ==> e == TextError::Empty,
    {
        match trimmed_nonempty(raw.as_str()) {
            Some(text) => Ok(CommandName { text }),
            None => Err(TextError::Empty),
        }
    }

    /// The trimmed text.
    pub fn as_str(&self) -> (r: &str)
        ensures
            r@ == self@,
            text_wf(r@),
    {
        proof {
            use_type_invariant(self);
        }
        self.text.as_str()
    }
}

impl Clone for CommandName {
    fn clone(&self) -> (r: Self)
        ensures
            r@ == self@,
    {
        proof {
            use_type_invariant(self);
        }
        CommandName { text: self.text.clone() }
    }
}

/// The name of a command error.
#[derive(Debug)]
pub struct CommandErrorName {
    text: String,
}

impl View for CommandErrorName {
    type V = Seq<char>;

    closed spec fn view(&self) -> Seq<char> {
        self.text@
    }
}

impl CommandErrorName {
    #[verifier::type_invariant]
    spec fn wf(&self) -> bool {
        text_wf(self.text@)
    }

    /// Trims `raw`; refuses it when nothing is left.
    pub fn try_new(raw: String) -> (r: Result<Self, TextError>)
        ensures
            r is Ok <==> trim(raw@).len() > 0,
            r matches Ok(v) ==> v@ == trim(raw@),
            r matches Err(e) ==> e == TextError::Empty,
    {
        match trimmed_nonempty(raw.as_str()) {
            Some(text) => Ok(CommandErrorName { text }),
            None => Err(TextError::Empty),
        }
    }

    /// The trimmed text.
    pub fn as_str(&self) -> (r: &str)
        ensures
            r@ == self@,
            text_wf(r@),
    {
        proof {
            use_type_invariant(self);
        }
        self.text.as_str()
    }
}

impl Clone for CommandErrorName {
    fn clone(&self) -> (r: Self)
        ensures
            r@ == self@,
    {
        proof {
            use_type_invariant(self);
        }
        CommandErrorName { text: self.text.clone() }
    }
}

/// The name of an automation.
#[derive(Debug)]
pub struct AutomationName {
    text: String,
}

impl View for AutomationName {
    type V = Seq<char>;

    closed spec fn view(&self) -> Seq<char> {
        self.text@
    }
}

impl AutomationName {
    #[verifier::type_invariant]
    spec fn wf(&self) -> bool {
        text_wf(self.text@)
    }

    /// Trims `raw`; refuses it when nothing is left.
    pub fn try_new(raw: String) -> (r: Result<Self, TextError>)
        ensures
            r is Ok <==> trim(raw@).len() > 0,
            r matches Ok(v) ==> v@ == trim(raw@),
            r matches Err(e) ==> e == TextError::Empty,
    {
        match trimmed_nonempty(raw.as_str()) {
            Some(text) => Ok(AutomationName { text }),
            None => Err(TextError::Empty),
        }
    }

    /// The trimmed text.
    pub fn as_str(&self) -> (r: &str)
        ensures
            r@ == self@,
            text_wf(r@),
    {
        proof {
            use_type_invariant(self);
        }
        self.text.as_str()
    }
}

impl Clone for AutomationName {
    fn clone(&self) -> (r: Self)
        ensures
            r@ == self@,
    {
        proof {
            use_type_invariant(self);
        }
        AutomationName { text: self.text.clone() }
    }
}

/// The trigger of an automation.
#[derive(Debug)]
pub struct AutomationTriggerName {
    text: String,
}

impl View for AutomationTriggerName {
    type V = Seq<char>;

    closed spec fn view(&self) -> Seq<char> {
        self.text@
    }
}

impl AutomationTriggerName {
    #[verifier::type_invariant]
    spec fn wf(&self) -> bool {
        text_wf(self.text@)
    }

    /// Trims `raw`; refuses it when nothing is left.
    pub fn try_new(raw: String) -> (r: Result<Self, TextError>)
        ensures
            r is Ok <==> trim(raw@).len() > 0,
            r matches Ok(v) ==> v@ == trim(raw@),
            r matches Err(e) ==> e == TextError::Empty,
    {
        match trimmed_nonempty(raw.as_str()) {
            Some(text) => Ok(AutomationTriggerName { text }),
            None => Err(TextError::Empty),
        }
    }

    /// The trimmed text.
    pub fn as_str(&self) -> (r: &str)
        ensures
            r@ == self@,
            text_wf(r@),
    {
        proof {
            use_type_invariant(self);
        }
        self.text.as_str()
    }
}

impl Clone for AutomationTriggerName {
    fn clone(&self) -> (r: Self)
        ensures
            r@ == self@,
    {
        proof {
            use_type_invariant(self);
        }
        AutomationTriggerName { text: self.text.clone() }
    }
}

/// What an automation does in reaction to its trigger.
#[derive(Debug)]
pub struct AutomationReactionDescription {
    text: String,
}

impl View for AutomationReactionDescription {
    type V = Seq<char>;

    closed spec fn view(&self) -> Seq<char> {
        self.text@
    }
}

impl AutomationReactionDescription {
    #[verifier::type_invariant]
    spec fn wf(&self) -> bool {
        text_wf(self.text@)
    }

    /// Trims `raw`; refuses it when nothing is left.
    pub fn try_new(raw: String) -> (r: Result<Self, TextError>)
        ensures
            r is Ok <==> trim(raw@).len() > 0,
            r matches Ok(v) ==> v@ == trim(raw@),
            r matches Err(e) ==> e == TextError::Empty,
    {
        match trimmed_nonempty(raw.as_str()) {
            Some(text) => Ok(AutomationReactionDescription { text }),
            None => Err(TextError::Empty),
        }
    }

    /// The trimmed text.
    pub fn as_str(&self) -> (r: &str)
        ensures
            r@ == self@,
            text_wf(r@),
    {
        proof {
            use_type_invariant(self);
        }
        self.text.as_str()
    }
}

impl Clone for AutomationReactionDescription {
    fn clone(&self) -> (r: Self)
        ensures
            r@ == self@,
    {
        proof {
            use_type_invariant(self);
        }
        AutomationReactionDescription { text: self.text.clone() }
    }
}

/// The name of a view control.
#[derive(Debug)]
pub struct ControlName {
    text: String,
}

impl View for ControlName {
    type V = Seq<char>;

    closed spec fn view(&self) -> Seq<char> {
        self.text@
    }
}

impl ControlName {
    #[verifier::type_invariant]
    spec fn wf(&self) -> bool {
        text_wf(self.text@)
    }

    /// Trims `raw`; refuses it when nothing is left.
    pub fn try_new(raw: String) -> (r: Result<Self, TextError>)
        ensures
            r is Ok <==> trim(raw@).len() > 0,
            r matches Ok(v) ==> v@ == trim(raw@),
            r matches Err(e) ==> e == TextError::Empty,
    {
        match trimmed_nonempty(raw.as_str()) {
            Some(text) => Ok(ControlName { text }),
            None => Err(TextError::Empty),
        }
    }

    /// The trimmed text.
    pub fn as_str(&self) -> (r: &str)
        ensures
            r@ == self@,
            text_wf(r@),
    {
        proof {
            use_type_invariant(self);
        }
        self.text.as_str()
    }
}

impl Clone for ControlName {
    fn clone(&self) -> (r: Self)
        ensures
            r@ == self@,
    {
        proof {
            use_type_invariant(self);
        }
        ControlName { text: self.text.clone() }
    }
}

/// The target of a navigation control.
#[derive(Debug)]
pub struct NavigationTargetName {
    text: String,
}

impl View for NavigationTargetName {
    type V = Seq<char>;

    closed spec fn view(&self) -> Seq<char> {
        self.text@
    }
}

impl NavigationTargetName {
    #[verifier::type_invariant]
    spec fn wf(&self) -> bool {
        text_wf(self.text@)
    }

    /// Trims `raw`; refuses it when nothing is left.
    pub fn try_new(raw: String) -> (r: Result<Self, TextError>)
        ensures
            r is Ok <==> trim(raw@).len() > 0,
            r matches Ok(v) ==> v@ == trim(raw@),
            r matches Err(e) ==> e == TextError::Empty,
    {
        match trimmed_nonempty(raw.as_str()) {
            Some(text) => Ok(NavigationTargetName { text }),
            None => Err(TextError::Empty),
        }
    }

    /// The trimmed text.
    pub fn as_str(&self) -> (r: &str)
        ensures
            r@ == self@,
            text_wf(r@),
    {
        proof {
            use_type_invariant(self);
        }
        self.text.as_str()
    }
}

impl Clone for NavigationTargetName {
    fn clone(&self) -> (r: Self)
        ensures
            r@ == self@,
    {
        proof {
            use_type_invariant(self);
        }
        NavigationTargetName { text: self.text.clone() }
    }
}

/// A description of where a command input comes from.
#[derive(Debug)]
pub struct CommandInputSourceDescription {
    text: String,
}

impl View for CommandInputSourceDescription {
    type V = Seq<char>;

    closed spec fn view(&self) -> Seq<char> {
        self.text@
    }
}

impl CommandInputSourceDescription {
    #[verifier::type_invariant]
    spec fn wf(&self) -> bool {
        text_wf(self.text@)
    }

    /// Trims `raw`; refuses it when nothing is left.
    pub fn try_new(raw: String) -> (r: Result<Self, TextError>)
        ensures
            r is Ok <==> trim(raw@).len() > 0,
            r matches Ok(v) ==> v@ == trim(raw@),
            r matches Err(e) ==> e == TextError::Empty,
    {
        match trimmed_nonempty(raw.as_str()) {
            Some(text) => Ok(CommandInputSourceDescription { text }),
            None => Err(TextError::Empty),
        }
    }

    /// The trimmed text.
    pub fn as_str(&self) -> (r: &str)
        ensures
            r@ == self@,
            text_wf(r@),
    {
        proof {
            use_type_invariant(self);
        }
        self.text.as_str()
    }
}

impl Clone for CommandInputSourceDescription {
    fn clone(&self) -> (r: Self)
        ensures
            r@ == self@,
    {
        proof {
            use_type_invariant(self);
        }
        CommandInputSourceDescription { text: self.text.clone() }
    }
}

/// The name of an event.
#[derive(Debug)]
pub struct EventName {
    text: String,
}

impl View for EventName {
    type V = Seq<char>;

    closed spec fn view(&self) -> Seq<char> {
        self.text@
    }
}

impl EventName {
    #[verifier::type_invariant]
    spec fn wf(&self) -> bool {
        text_wf(self.text@)
    }

    /// Trims `raw`; refuses it when nothing is left.
    pub fn try_new(raw: String) -> (r: Result<Self, TextError>)
        ensures
            r is Ok <==> trim(raw@).len() > 0,
            r matches Ok(v) ==> v@ == trim(raw@),
            r matches Err(e) ==> e == TextError::Empty,
    {
        match trimmed_nonempty(raw.as_str()) {
            Some(text) => Ok(EventName { text }),
            None => Err(TextError::Empty),
        }
    }

    /// The trimmed text.
    pub fn as_str(&self) -> (r: &str)
        ensures
            r@ == self@,
            text_wf(r@),
    {
        proof {
            use_type_invariant(self);
        }
        self.text.as_str()
    }
}

impl Clone for EventName {
    fn clone(&self) -> (r: Self)
        ensures
            r@ == self@,
    {
        proof {
            use_type_invariant(self);
        }
        EventName { text: self.text.clone() }
    }
}

/// The name of an event stream.
#[derive(Debug)]
pub struct StreamName {
    text: String,
}

impl View for StreamName {
    type V = Seq<char>;

    closed spec fn view(&self) -> Seq<char> {
        self.text@
    }
}

impl StreamName {
    #[verifier::type_invariant]
    spec fn wf(&self) -> bool {
        text_wf(self.text@)
    }

    /// Trims `raw`; refuses it when nothing is left.
    pub fn try_new(raw: String) -> (r: Result<Self, TextError>)
        ensures
            r is Ok <==> trim(raw@).len() > 0,
            r matches Ok(v) ==> v@ == trim(raw@),
            r matches Err(e) ==> e == TextError::Empty,
    {
        match trimmed_nonempty(raw.as_str()) {
            Some(text) => Ok(StreamName { text }),
            None => Err(TextError::Empty),
        }
    }

    /// The trimmed text.
    pub fn as_str(&self) -> (r: &str)
        ensures
            r@ == self@,
            text_wf(r@),
    {
        proof {
            use_type_invariant(self);
        }
        self.text.as_str()
    }
}

impl Clone for StreamName {
    fn clone(&self) -> (r: Self)
        ensures
            r@ == self@,
    {
        proof {
            use_type_invariant(self);
        }
        StreamName { text: self.text.clone() }
    }
}

/// The name of an event attribute.
#[derive(Debug)]
pub struct EventAttributeName {
    text: String,
}

impl View for EventAttributeName {
    type V = Seq<char>;

    closed spec fn view(&self) -> Seq<char> {
        self.text@
    }
}

impl EventAttributeName {
    #[verifier::type_invariant]
    spec fn wf(&self) -> bool {
        text_wf(self.text@)
    }

    /// Trims `raw`; refuses it when nothing is left.
    pub fn try_new(raw: String) -> (r: Result<Self, TextError>)
        ensures
            r is Ok <==> trim(raw@).len() > 0,
            r matches Ok(v) ==> v@ == trim(raw@),
            r matches Err(e) ==> e == TextError::Empty,
    {
        match trimmed_nonempty(raw.as_str()) {
            Some(text) => Ok(EventAttributeName { text }),
            None => Err(TextError::Empty),
        }
    }

    /// The trimmed text.
    pub fn as_str(&self) -> (r: &str)
        ensures
            r@ == self@,
            text_wf(r@),
    {
        proof {
            use_type_invariant(self);
        }
        self.text.as_str()
    }
}

impl Clone for EventAttributeName {
    fn clone(&self) -> (r: Self)
        ensures
            r@ == self@,
    {
        proof {
            use_type_invariant(self);
        }
        EventAttributeName { text: self.text.clone() }
    }
}

/// The named source of an event attribute.
#[derive(Debug)]
pub struct EventAttributeSourceName {
    text: String,
}

impl View for EventAttributeSourceName {
    type V = Seq<char>;

    closed spec fn view(&self) -> Seq<char> {
        self.text@
    }
}

impl EventAttributeSourceName {
    #[verifier::type_invariant]
    spec fn wf(&self) -> bool {
        text_wf(self.text@)
    }

    /// Trims `raw`; refuses it when nothing is left.
    pub fn try_new(raw: String) -> (r: Result<Self, TextError>)
        ensures
            r is Ok <==> trim(raw@).len() > 0,
            r matches Ok(v) ==> v@ == trim(raw@),
            r matches Err(e) ==> e == TextError::Empty,
    {
        match trimmed_nonempty(raw.as_str()) {
            Some(text) => Ok(EventAttributeSourceName { text }),
            None => Err(TextError::Empty),
        }
    }

    /// The trimmed text.
    pub fn as_str(&self) -> (r: &str)
        ensures
            r@ == self@,
            text_wf(r@),
    {
        proof {
            use_type_invariant(self);
        }
        self.text.as_str()
    }
}

impl Clone for EventAttributeSourceName {
    fn clone(&self) -> (r: Self)
        ensures
            r@ == self@,
    {
        proof {
            use_type_invariant(self);
        }
        EventAttributeSourceName { text: self.text.clone() }
    }
}

/// The source field of an event attribute.
#[derive(Debug)]
pub struct EventAttributeSourceField {
    text: String,
}

impl View for EventAttributeSourceField {
    type V = Seq<char>;

    closed spec fn view(&self) -> Seq<char> {
        self.text@
    }
}

impl EventAttributeSourceField {
    #[verifier::type_invariant]
    spec fn wf(&self) -> bool {
        text_wf(self.text@)
    }

    /// Trims `raw`; refuses it when nothing is left.
    pub fn try_new(raw: String) -> (r: Result<Self, TextError>)
        ensures
            r is Ok <==> trim(raw@).len() > 0,
            r matches Ok(v) ==> v@ == trim(raw@),
            r matches Err(e) ==> e == TextError::Empty,
    {
        match trimmed_nonempty(raw.as_str()) {
            Some(text) => Ok(EventAttributeSourceField { text }),
            None => Err(TextError::Empty),
        }
    }

    /// The trimmed text.
    pub fn as_str(&self) -> (r: &str)
        ensures
            r@ == self@,
            text_wf(r@),
    {
        proof {
            use_type_invariant(self);
        }
        self.text.as_str()
    }
}

impl Clone for EventAttributeSourceField {
    fn clone(&self) -> (r: Self)
        ensures
            r@ == self@,
    {
        proof {
            use_type_invariant(self);
        }
        EventAttributeSourceField { text: self.text.clone() }
    }
}

/// A provenance description.
#[derive(Debug)]
pub struct ProvenanceDescription {
    text: String,
}

impl View for ProvenanceDescription {
    type V = Seq<char>;

    closed spec fn view(&self) -> Seq<char> {
        self.text@
    }
}

impl ProvenanceDescription {
    #[verifier::type_invariant]
    spec fn wf(&self) -> bool {
        text_wf(self.text@)
    }

    /// Trims `raw`; refuses it when nothing is left.
    pub fn try_new(raw: String) -> (r: Result<Self, TextError>)
        ensures
            r is Ok <==> trim(raw@).len() > 0,
            r matches Ok(v) ==> v@ == trim(raw@),
            r matches Err(e) ==> e == TextError::Empty,
    {
        match trimmed_nonempty(raw.as_str()) {
            Some(text) => Ok(ProvenanceDescription { text }),
            None => Err(TextError::Empty),
        }
    }

    /// The trimmed text.
    pub fn as_str(&self) -> (r: &str)
        ensures
            r@ == self@,
            text_wf(r@),
    {
        proof {
            use_type_invariant(self);
        }
        self.text.as_str()
    }
}

impl Clone for ProvenanceDescription {
    fn clone(&self) -> (r: Self)
        ensures
            r@ == self@,
    {
        proof {
            use_type_invariant(self);
        }
        ProvenanceDescription { text: self.text.clone() }
    }
}

/// The name of a read model.
#[derive(Debug)]
pub struct ReadModelName {
    text: String,
}

impl View for ReadModelName {
    type V = Seq<char>;

    closed spec fn view(&self) -> Seq<char> {
        self.text@
    }
}

impl ReadModelName {
    #[verifier::type_invariant]
    spec fn wf(&self) -> bool {
        text_wf(self.text@)
    }

    /// Trims `raw`; refuses it when nothing is left.
    pub fn try_new(raw: String) -> (r: Result<Self, TextError>)
        ensures
            r is Ok <==> trim(raw@).len() > 0,
            r matches Ok(v) ==> v@ == trim(raw@),
            r matches Err(e) ==> e == TextError::Empty,
    {
        match trimmed_nonempty(raw.as_str()) {
            Some(text) => Ok(ReadModelName { text }),
            None => Err(TextError::Empty),
        }
    }

    /// The trimmed text.
    pub fn as_str(&self) -> (r: &str)
        ensures
            r@ == self@,
            text_wf(r@),
    {
        proof {
            use_type_invariant(self);
        }
        self.text.as_str()
    }
}

impl Clone for ReadModelName {
    fn clone(&self) -> (r: Self)
        ensures
            r@ == self@,
    {
        proof {
            use_type_invariant(self);
        }
        ReadModelName { text: self.text.clone() }
    }
}

/// The derivation rule of a read-model field.
#[derive(Debug)]
pub struct ReadModelDerivationRule {
    text: String,
}

impl View for ReadModelDerivationRule {
    type V = Seq<char>;

    closed spec fn view(&self) -> Seq<char> {
        self.text@
    }
}

impl ReadModelDerivationRule {
    #[verifier::type_invariant]
    spec fn wf(&self) -> bool {
        text_wf(self.text@)
    }

    /// Trims `raw`; refuses it when nothing is left.
    pub fn try_new(raw: String) -> (r: Result<Self, TextError>)
        ensures
            r is Ok <==> trim(raw@).len() > 0,
            r matches Ok(v) ==> v@ == trim(raw@),
            r matches Err(e) ==> e == TextError::Empty,
    {
        match trimmed_nonempty(raw.as_str()) {
            Some(text) => Ok(ReadModelDerivationRule { text }),
            None => Err(TextError::Empty),
        }
    }

    /// The trimmed text.
    pub fn as_str(&self) -> (r: &str)
        ensures
            r@ == self@,
            text_wf(r@),
    {
        proof {
            use_type_invariant(self);
        }
        self.text.as_str()
    }
}

impl Clone for ReadModelDerivationRule {
    fn clone(&self) -> (r: Self)
        ensures
            r@ == self@,
    {
        proof {
            use_type_invariant(self);
        }
        ReadModelDerivationRule { text: self.text.clone() }
    }
}

/// The rule of a transitive read model.
#[derive(Debug)]
pub struct ReadModelTransitiveRule {
    text: String,
}

impl View for ReadModelTransitiveRule {
    type V = Seq<char>;

    closed spec fn view(&self) -> Seq<char> {
        self.text@
    }
}

impl ReadModelTransitiveRule {
    #[verifier::type_invariant]
    spec fn wf(&self) -> bool {
        text_wf(self.text@)
    }

    /// Trims `raw`; refuses it when nothing is left.
    pub fn try_new(raw: String) -> (r: Result<Self, TextError>)
        ensures
            r is Ok <==> trim(raw@).len() > 0,
            r matches Ok(v) ==> v@ == trim(raw@),
            r matches Err(e) ==> e == TextError::Empty,
    {
        match trimmed_nonempty(raw.as_str()) {
            Some(text) => Ok(ReadModelTransitiveRule { text }),
            None => Err(TextError::Empty),
        }
    }

    /// The trimmed text.
    pub fn as_str(&self) -> (r: &str)
        ensures
            r@ == self@,
            text_wf(r@),
    {
        proof {
            use_type_invariant(self);
        }
        self.text.as_str()
    }
}

impl Clone for ReadModelTransitiveRule {
    fn clone(&self) -> (r: Self)
        ensures
            r@ == self@,
    {
        proof {
            use_type_invariant(self);
        }
        ReadModelTransitiveRule { text: self.text.clone() }
    }
}

/// The name of a view.
#[derive(Debug)]
pub struct ViewName {
    text: String,
}

impl View for ViewName {
    type V = Seq<char>;

    closed spec fn view(&self) -> Seq<char> {
        self.text@
    }
}

impl ViewName {
    #[verifier::type_invariant]
    spec fn wf(&self) -> bool {
        text_wf(self.text@)
    }

    /// Trims `raw`; refuses it when nothing is left.
    pub fn try_new(raw: String) -> (r: Result<Self, TextError>)
        ensures
            r is Ok <==> trim(raw@).len() > 0,
            r matches Ok(v) ==> v@ == trim(raw@),
            r matches Err(e) ==> e == TextError::Empty,
    {
        match trimmed_nonempty(raw.as_str()) {
            Some(text) => Ok(ViewName { text }),
            None => Err(TextError::Empty),
        }
    }

    /// The trimmed text.
    pub fn as_str(&self) -> (r: &str)
        ensures
            r@ == self@,
            text_wf(r@),
    {
        proof {
            use_type_invariant(self);
        }
        self.text.as_str()
    }
}

impl Clone for ViewName {
    fn clone(&self) -> (r: Self)
        ensures
            r@ == self@,
    {
        proof {
            use_type_invariant(self);
        }
        ViewName { text: self.text.clone() }
    }
}

/// The name of a view field.
#[derive(Debug)]
pub struct ViewFieldName {
    text: String,
}

impl View for ViewFieldName {
    type V = Seq<char>;

    closed spec fn view(&self) -> Seq<char> {
        self.text@
    }
}

impl ViewFieldName {
    #[verifier::type_invariant]
    spec fn wf(&self) -> bool {
        text_wf(self.text@)
    }

    /// Trims `raw`; refuses it when nothing is left.
    pub fn try_new(raw: String) -> (r: Result<Self, TextError>)
        ensures
            r is Ok <==> trim(raw@).len() > 0,
            r matches Ok(v) ==> v@ == trim(raw@),
            r matches Err(e) ==> e == TextError::Empty,
    {
        match trimmed_nonempty(raw.as_str()) {
            Some(text) => Ok(ViewFieldName { text }),
            None => Err(TextError::Empty),
        }
    }

    /// The trimmed text.
    pub fn as_str(&self) -> (r: &str)
        ensures
            r@ == self@,
            text_wf(r@),
    {
        proof {
            use_type_invariant(self);
        }
        self.text.as_str()
    }
}

impl Clone for ViewFieldName {
    fn clone(&self) -> (r: Self)
        ensures
            r@ == self@,
    {
        proof {
            use_type_invariant(self);
        }
        ViewFieldName { text: self.text.clone() }
    }
}

/// A token of a view information sketch.
#[derive(Debug)]
pub struct SketchToken {
    text: String,
}

impl View for SketchToken {
    type V = Seq<char>;

    closed spec fn view(&self) -> Seq<char> {
        self.text@
    }
}

impl SketchToken {
    #[verifier::type_invariant]
    spec fn wf(&self) -> bool {
        text_wf(self.text@)
    }

    /// Trims `raw`; refuses it when nothing is left.
    pub fn try_new(raw: String) -> (r: Result<Self, TextError>)
        ensures
            r is Ok <==> trim(raw@).len() > 0,
            r matches Ok(v) ==> v@ == trim(raw@),
            r matches Err(e) ==> e == TextError::Empty,
    {
        match trimmed_nonempty(raw.as_str()) {
            Some(text) => Ok(SketchToken { text }),
            None => Err(TextError::Empty),
        }
    }

    /// The trimmed text.
    pub fn as_str(&self) -> (r: &str)
        ensures
            r@ == self@,
            text_wf(r@),
    {
        proof {
            use_type_invariant(self);
        }
        self.text.as_str()
    }
}

impl Clone for SketchToken {
    fn clone(&self) -> (r: Self)
        ensures
            r@ == self@,
    {
        proof {
            use_type_invariant(self);
        }
        SketchToken { text: self.text.clone() }
    }
}

/// One hop of a data source chain.
#[derive(Debug)]
pub struct SourceChainHop {
    text: String,
}

impl View for SourceChainHop {
    type V = Seq<char>;

    closed spec fn view(&self) -> Seq<char> {
        self.text@
    }
}

impl SourceChainHop {
    #[verifier::type_invariant]
    spec fn wf(&self) -> bool {
        text_wf(self.text@)
    }

    /// Trims `raw`; refuses it when nothing is left.
    pub fn try_new(raw: String) -> (r: Result<Self, TextError>)
        ensures
            r is Ok <==> trim(raw@).len() > 0,
            r matches Ok(v) ==> v@ == trim(raw@),
            r matches Err(e) ==> e == TextError::Empty,
    {
        match trimmed_nonempty(raw.as_str()) {
            Some(text) => Ok(SourceChainHop { text }),
            None => Err(TextError::Empty),
        }
    }

    /// The trimmed text.
    pub fn as_str(&self) -> (r: &str)
        ensures
            r@ == self@,
            text_wf(r@),
    {
        proof {
            use_type_invariant(self);
        }
        self.text.as_str()
    }
}

impl Clone for SourceChainHop {
    fn clone(&self) -> (r: Self)
        ensures
            r@ == self@,
    {
        proof {
            use_type_invariant(self);
        }
        SourceChainHop { text: self.text.clone() }
    }
}

/// A source or target of a workflow transition.
#[derive(Debug)]
pub struct WorkflowTransitionEndpoint {
    text: String,
}

impl View for WorkflowTransitionEndpoint {
    type V = Seq<char>;

    closed spec fn view(&self) -> Seq<char> {
        self.text@
    }
}

impl WorkflowTransitionEndpoint {
    #[verifier::type_invariant]
    spec fn wf(&self) -> bool {
        text_wf(self.text@)
    }

    /// Trims `raw`; refuses it when nothing is left.
    pub fn try_new(raw: String) -> (r: Result<Self, TextError>)
        ensures
            r is Ok <==> trim(raw@).len() > 0,
            r matches Ok(v) ==> v@ == trim(raw@),
            r matches Err(e) ==> e == TextError::Empty,
    {
        match trimmed_nonempty(raw.as_str()) {
            Some(text) => Ok(WorkflowTransitionEndpoint { text }),
            None => Err(TextError::Empty),
        }
    }

    /// The trimmed text.
    pub fn as_str(&self) -> (r: &str)
        ensures
            r@ == self@,
            text_wf(r@),
    {
        proof {
            use_type_invariant(self);
        }
        self.text.as_str()
    }
}

impl Clone for WorkflowTransitionEndpoint {
    fn clone(&self) -> (r: Self)
        ensures
            r@ == self@,
    {
        proof {
            use_type_invariant(self);
        }
        WorkflowTransitionEndpoint { text: self.text.clone() }
    }
}

/// Evidence text of a workflow transition.
#[derive(Debug)]
pub struct WorkflowTransitionEvidenceText {
    text: String,
}

impl View for WorkflowTransitionEvidenceText {
    type V = Seq<char>;

    closed spec fn view(&self) -> Seq<char> {
        self.text@
    }
}

impl WorkflowTransitionEvidenceText {
    #[verifier::type_invariant]
    spec fn wf(&self) -> bool {
        text_wf(self.text@)
    }

    /// Trims `raw`; refuses it when nothing is left.
    pub fn try_new(raw: String) -> (r: Result<Self, TextError>)
        ensures
            r is Ok <==> trim(raw@).len() > 0,
            r matches Ok(v) ==> v@ == trim(raw@),
            r matches Err(e) ==> e == TextError::Empty,
    {
        match trimmed_nonempty(raw.as_str()) {
            Some(text) => Ok(WorkflowTransitionEvidenceText { text }),
            None => Err(TextError::Empty),
        }
    }

    /// The trimmed text.
    pub fn as_str(&self) -> (r: &str)
        ensures
            r@ == self@,
            text_wf(r@),
    {
        proof {
            use_type_invariant(self);
        }
        self.text.as_str()
    }
}

impl Clone for WorkflowTransitionEvidenceText {
    fn clone(&self) -> (r: Self)
        ensures
            r@ == self@,
    {
        proof {
            use_type_invariant(self);
        }
        WorkflowTransitionEvidenceText { text: self.text.clone() }
    }
}

/// The name of a definition owned by a workflow.
#[derive(Debug)]
pub struct WorkflowOwnedDefinitionName {
    text: String,
}

impl View for WorkflowOwnedDefinitionName {
    type V = Seq<char>;

    closed spec fn view(&self) -> Seq<char> {
        self.text@
    }
}

impl WorkflowOwnedDefinitionName {
    #[verifier::type_invariant]
    spec fn wf(&self) -> bool {
        text_wf(self.text@)
    }

    /// Trims `raw`; refuses it when nothing is left.
    pub fn try_new(raw: String) -> (r: Result<Self, TextError>)
        ensures
            r is Ok <==> trim(raw@).len() > 0,
            r matches Ok(v) ==> v@ == trim(raw@),
            r matches Err(e) ==> e == TextError::Empty,
    {
        match trimmed_nonempty(raw.as_str()) {
            Some(text) => Ok(WorkflowOwnedDefinitionName { text }),
            None => Err(TextError::Empty),
        }
    }

    /// The trimmed text.
    pub fn as_str(&self) -> (r: &str)
        ensures
            r@ == self@,
            text_wf(r@),
    {
        proof {
            use_type_invariant(self);
        }
        self.text.as_str()
    }
}

impl Clone for WorkflowOwnedDefinitionName {
    fn clone(&self) -> (r: Self)
        ensures
            r@ == self@,
    {
        proof {
            use_type_invariant(self);
        }
        WorkflowOwnedDefinitionName { text: self.text.clone() }
    }
}

/// The name of a generated Lean4 module.
#[derive(Debug)]
pub struct LeanModuleName {
    text: String,
}

impl View for LeanModuleName {
    type V = Seq<char>;

    closed spec fn view(&self) -> Seq<char> {
        self.text@
    }
}

impl LeanModuleName {
    #[verifier::type_invariant]
    spec fn wf(&self) -> bool {
        text_wf(self.text@)
    }

    /// Trims `raw`; refuses it when nothing is left.
    pub fn try_new(raw: String) -> (r: Result<Self, TextError>)
        ensures
            r is Ok <==> trim(raw@).len() > 0,
            r matches Ok(v) ==> v@ == trim(raw@),
            r matches Err(e) ==> e == TextError::Empty,
    {
        match trimmed_nonempty(raw.as_str()) {
            Some(text) => Ok(LeanModuleName { text }),
            None => Err(TextError::Empty),
        }
    }

    /// The trimmed text.
    pub fn as_str(&self) -> (r: &str)
        ensures
            r@ == self@,
            text_wf(r@),
    {
        proof {
            use_type_invariant(self);
        }
        self.text.as_str()
    }
}

impl Clone for LeanModuleName {
    fn clone(&self) -> (r: Self)
        ensures
            r@ == self@,
    {
        proof {
            use_type_invariant(self);
        }
        LeanModuleName { text: self.text.clone() }
    }
}

/// The name of a generated Quint module.
#[derive(Debug)]
pub struct QuintModuleName {
    text: String,
}

impl View for QuintModuleName {
    type V = Seq<char>;

    closed spec fn view(&self) -> Seq<char> {
        self.text@
    }
}

impl QuintModuleName {
    #[verifier::type_invariant]
    spec fn wf(&self) -> bool {
        text_wf(self.text@)
    }

    /// Trims `raw`; refuses it when nothing is left.
    pub fn try_new(raw: String) -> (r: Result<Self, TextError>)
        ensures
            r is Ok <==> trim(raw@).len() > 0,
            r matches Ok(v) ==> v@ == trim(raw@),
            r matches Err(e) ==> e == TextError::Empty,
    {
        match trimmed_nonempty(raw.as_str()) {
            Some(text) => Ok(QuintModuleName { text }),
            None => Err(TextError::Empty),
        }
    }

    /// The trimmed text.
    pub fn as_str(&self) -> (r: &str)
        ensures
            r@ == self@,
            text_wf(r@),
    {
        proof {
            use_type_invariant(self);
        }
        self.text.as_str()
    }
}

impl Clone for QuintModuleName {
    fn clone(&self) -> (r: Self)
        ensures
            r@ == self@,
    {
        proof {
            use_type_invariant(self);
        }
        QuintModuleName { text: self.text.clone() }
    }
}

/// A digest of the formal model content.
#[derive(Debug)]
pub struct ModelDigest {
    text: String,
}

impl View for ModelDigest {
    type V = Seq<char>;

    closed spec fn view(&self) -> Seq<char> {
        self.text@
    }
}

impl ModelDigest {
    #[verifier::type_invariant]
    spec fn wf(&self) -> bool {
        text_wf(self.text@)
    }

    /// Trims `raw`; refuses it when nothing is left.
    pub fn try_new(raw: String) -> (r: Result<Self, TextError>)
        ensures
            r is Ok <==> trim(raw@).len() > 0,
            r matches Ok(v) ==> v@ == trim(raw@),
            r matches Err(e) ==> e == TextError::Empty,
    {
        match trimmed_nonempty(raw.as_str()) {
            Some(text) => Ok(ModelDigest { text }),
            None => Err(TextError::Empty),
        }
    }

    /// The trimmed text.
    pub fn as_str(&self) -> (r: &str)
        ensures
            r@ == self@,
            text_wf(r@),
    {
        proof {
            use_type_invariant(self);
        }
        self.text.as_str()
    }
}

impl Clone for ModelDigest {
    fn clone(&self) -> (r: Self)
        ensures
            r@ == self@,
    {
        proof {
            use_type_invariant(self);
        }
        ModelDigest { text: self.text.clone() }
    }
}

/// The identity of the person who signed off a review.
#[derive(Debug)]
pub struct ReviewerId {
    text: String,
}

impl View for ReviewerId {
    type V = Seq<char>;

    closed spec fn view(&self) -> Seq<char> {
        self.text@
    }
}

impl ReviewerId {
    #[verifier::type_invariant]
    spec fn wf(&self) -> bool {
        text_wf(self.text@)
    }

    /// Trims `raw`; refuses it when nothing is left.
    pub fn try_new(raw: String) -> (r: Result<Self, TextError>)
        ensures
            r is Ok <==> trim(raw@).len() > 0,
            r matches Ok(v) ==> v@ == trim(raw@),
            r matches Err(e) ==> e == TextError::Empty,
    {
        match trimmed_nonempty(raw.as_str()) {
            Some(text) => Ok(ReviewerId { text }),
            None => Err(TextError::Empty),
        }
    }

    /// The trimmed text.
    pub fn as_str(&self) -> (r: &str)
        ensures
            r@ == self@,
            text_wf(r@),
    {
        proof {
            use_type_invariant(self);
        }
        self.text.as_str()
    }
}

impl Clone for ReviewerId {
    fn clone(&self) -> (r: Self)
        ensures
            r@ == self@,
    {
        proof {
            use_type_invariant(self);
        }
        ReviewerId { text: self.text.clone() }
    }
}

/// The slug identifying a workflow.
#[derive(Debug)]
pub struct WorkflowSlug {
    text: String,
}

impl View for WorkflowSlug {
    type V = Seq<char>;

    closed spec fn view(&self) -> Seq<char> {
        self.text@
    }
}

impl WorkflowSlug {
    #[verifier::type_invariant]
    spec fn wf(&self) -> bool {
        text_wf(self.text@)
    }

    /// Trims `raw`; refuses it when nothing is left.
    pub fn try_new(raw: String) -> (r: Result<Self, TextError>)
        ensures
            r is Ok <==> trim(raw@).len() > 0,
            r matches Ok(v) ==> v@ == trim(raw@),
            r matches Err(e) ==> e == TextError::Empty,
    {
        match trimmed_nonempty(raw.as_str()) {
            Some(text) => Ok(WorkflowSlug { text }),
            None => Err(TextError::Empty),
        }
    }

    /// The trimmed text.
    pub fn as_str(&self) -> (r: &str)
        ensures
            r@ == self@,
            text_wf(r@),
    {
        proof {
            use_type_invariant(self);
        }
        self.text.as_str()
    }
}

impl Clone for WorkflowSlug {
    fn clone(&self) -> (r: Self)
        ensures
            r@ == self@,
    {
        proof {
            use_type_invariant(self);
        }
        WorkflowSlug { text: self.text.clone() }
    }
}

/// The slug identifying a slice.
#[derive(Debug)]
pub struct SliceSlug {
    text: String,
}

impl View for SliceSlug {
    type V = Seq<char>;

    closed spec fn view(&self) -> Seq<char> {
        self.text@
    }
}

impl SliceSlug {
    #[verifier::type_invariant]
    spec fn wf(&self) -> bool {
        text_wf(self.text@)
    }

    /// Trims `raw`; refuses it when nothing is left.
    pub fn try_new(raw: String) -> (r: Result<Self, TextError>)
        ensures
            r is Ok <==> trim(raw@).len() > 0,
            r matches Ok(v) ==> v@ == trim(raw@),
            r matches Err(e) ==> e == TextError::Empty,
    {
        match trimmed_nonempty(raw.as_str()) {
            Some(text) => Ok(SliceSlug { text }),
            None => Err(TextError::Empty),
        }
    }

    /// The trimmed text.
    pub fn as_str(&self) -> (r: &str)
        ensures
            r@ == self@,
            text_wf(r@),
    {
        proof {
            use_type_invariant(self);
        }
        self.text.as_str()
    }
}

impl Clone for SliceSlug {
    fn clone(&self) -> (r: Self)
        ensures
            r@ == self@,
    {
        proof {
            use_type_invariant(self);
        }
        SliceSlug { text: self.text.clone() }
    }
}

/// The terms a [`WorkflowTransitionKind`] may hold.
pub open spec fn workflow_transition_kind_terms(s: Seq<char>) -> bool {
    s == "command"@ ||
        s == "event"@ ||
        s == "navigation"@ ||
        s == "external_trigger"@ ||
        s == "outcome"@ ||
        s == "workflow_exit:command"@ ||
        s == "workflow_exit:event"@ ||
        s == "workflow_exit:navigation"@ ||
        s == "workflow_exit:external_trigger"@ ||
        s == "workflow_exit:outcome"@
}

/// The modeled kind of a workflow transition; a workflow exit names the kind that triggers it.
#[derive(Debug)]
pub struct WorkflowTransitionKind {
    text: String,
}

impl View for WorkflowTransitionKind {
    type V = Seq<char>;

    closed spec fn view(&self) -> Seq<char> {
        self.text@
    }
}

impl WorkflowTransitionKind {
    #[verifier::type_invariant]
    spec fn wf(&self) -> bool {
        workflow_transition_kind_terms(self.text@)
    }

    /// Trims `raw`; refuses it unless it is one of the modeled terms.
    pub fn try_new(raw: String) -> (r: Result<Self, TextError>)
        ensures
            r is Ok <==> workflow_transition_kind_terms(trim(raw@)),
            r matches Ok(v) ==> v@ == trim(raw@),
            r matches Err(e) ==> e == (if trim(raw@).len() == 0 {
                TextError::Empty
            } else {
                TextError::Unmodeled
            }),
    {
        let t = trim_chars(raw.as_str());
        let v = chars_of(t.as_str());
        if text_is(&v, "command") || text_is(&v, "event") || text_is(&v, "navigation") || text_is(&v, "external_trigger") || text_is(&v, "outcome") || text_is(&v, "workflow_exit:command") || text_is(&v, "workflow_exit:event") || text_is(&v, "workflow_exit:navigation") || text_is(&v, "workflow_exit:external_trigger") || text_is(&v, "workflow_exit:outcome") {
            Ok(WorkflowTransitionKind { text: t })
        } else if t.as_str().is_empty() {
            Err(TextError::Empty)
        } else {
            Err(TextError::Unmodeled)
        }
    }

    /// The modeled term.
    pub fn as_str(&self) -> (r: &str)
        ensures
            r@ == self@,
            workflow_transition_kind_terms(r@),
    {
        proof {
            use_type_invariant(self);
        }
        self.text.as_str()
    }
}

impl Clone for WorkflowTransitionKind {
    fn clone(&self) -> (r: Self)
        ensures
            r@ == self@,
    {
        proof {
            use_type_invariant(self);
        }
        WorkflowTransitionKind { text: self.text.clone() }
    }
}

/// The terms a [`WorkflowOwnedDefinitionKind`] may hold.
pub open spec fn workflow_owned_definition_kind_terms(s: Seq<char>) -> bool {
    s == "command"@ ||
        s == "event"@ ||
        s == "view"@ ||
        s == "control"@ ||
        s == "read_model"@ ||
        s == "outcome"@ ||
        s == "error"@ ||
        s == "automation"@ ||
        s == "translation"@ ||
        s == "external_payload"@
}

/// The kind of a definition owned by a workflow.
#[derive(Debug)]
pub struct WorkflowOwnedDefinitionKind {
    text: String,
}

impl View for WorkflowOwnedDefinitionKind {
    type V = Seq<char>;

    closed spec fn view(&self) -> Seq<char> {
        self.text@
    }
}

impl WorkflowOwnedDefinitionKind {
    #[verifier::type_invariant]
    spec fn wf(&self) -> bool {
        workflow_owned_definition_kind_terms(self.text@)
    }

    /// Trims `raw`; refuses it unless it is one of the modeled terms.
    pub fn try_new(raw: String) -> (r: Result<Self, TextError>)
        ensures
            r is Ok <==> workflow_owned_definition_kind_terms(trim(raw@)),
            r matches Ok(v) ==> v@ == trim(raw@),
            r matches Err(e) ==> e == (if trim(raw@).len() == 0 {
                TextError::Empty
            } else {
                TextError::Unmodeled
            }),
    {
        let t = trim_chars(raw.as_str());
        let v = chars_of(t.as_str());
        if text_is(&v, "command") || text_is(&v, "event") || text_is(&v, "view") || text_is(&v, "control") || text_is(&v, "read_model") || text_is(&v, "outcome") || text_is(&v, "error") || text_is(&v, "automation") || text_is(&v, "translation") || text_is(&v, "external_payload") {
            Ok(WorkflowOwnedDefinitionKind { text: t })
        } else if t.as_str().is_empty() {
            Err(TextError::Empty)
        } else {
            Err(TextError::Unmodeled)
        }
    }

    /// The modeled term.
    pub fn as_str(&self) -> (r: &str)
        ensures
            r@ == self@,
            workflow_owned_definition_kind_terms(r@),
    {
        proof {
            use_type_invariant(self);
        }
        self.text.as_str()
    }
}

impl Clone for WorkflowOwnedDefinitionKind {
    fn clone(&self) -> (r: Self)
        ensures
            r@ == self@,
    {
        proof {
            use_type_invariant(self);
        }
        WorkflowOwnedDefinitionKind { text: self.text.clone() }
    }
}

/// The terms a [`CommandErrorRecoveryKind`] may hold.
pub open spec fn command_error_recovery_kind_terms(s: Seq<char>) -> bool {
    s == "retry"@ ||
        s == "stay_on_screen"@ ||
        s == "navigation"@ ||
        s == "explicit_recovery_action"@
}

/// How a command error is recovered from.
#[derive(Debug)]
pub struct CommandErrorRecoveryKind {
    text: String,
}

impl View for CommandErrorRecoveryKind {
    type V = Seq<char>;

    closed spec fn view(&self) -> Seq<char> {
        self.text@
    }
}

impl CommandErrorRecoveryKind {
    #[verifier::type_invariant]
    spec fn wf(&self) -> bool {
        command_error_recovery_kind_terms(self.text@)
    }

    /// Trims `raw`; refuses it unless it is one of the modeled terms.
    pub fn try_new(raw: String) -> (r: Result<Self, TextError>)
        ensures
            r is Ok <==> command_error_recovery_kind_terms(trim(raw@)),
            r matches Ok(v) ==> v@ == trim(raw@),
            r matches Err(e) ==> e == (if trim(raw@).len() == 0 {
                TextError::Empty
            } else {
                TextError::Unmodeled
            }),
    {
        let t = trim_chars(raw.as_str());
        let v = chars_of(t.as_str());
        if text_is(&v, "retry") || text_is(&v, "stay_on_screen") || text_is(&v, "navigation") || text_is(&v, "explicit_recovery_action") {
            Ok(CommandErrorRecoveryKind { text: t })
        } else if t.as_str().is_empty() {
            Err(TextError::Empty)
        } else {
            Err(TextError::Unmodeled)
        }
    }

    /// The modeled term.
    pub fn as_str(&self) -> (r: &str)
        ensures
            r@ == self@,
            command_error_recovery_kind_terms(r@),
    {
        proof {
            use_type_invariant(self);
        }
        self.text.as_str()
    }
}

impl Clone for CommandErrorRecoveryKind {
    fn clone(&self) -> (r: Self)
        ensures
            r@ == self@,
    {
        proof {
            use_type_invariant(self);
        }
        CommandErrorRecoveryKind { text: self.text.clone() }
    }
}

/// The terms a [`CommandInputSourceKind`] may hold.
pub open spec fn command_input_source_kind_terms(s: Seq<char>) -> bool {
    s == "actor"@ ||
        s == "session"@ ||
        s == "generated"@ ||
        s == "external_payload"@ ||
        s == "event_stream_state"@ ||
        s == "invocation_argument"@
}

/// Where a command input comes from.
#[derive(Debug)]
pub struct CommandInputSourceKind {
    text: String,
}

impl View for CommandInputSourceKind {
    type V = Seq<char>;

    closed spec fn view(&self) -> Seq<char> {
        self.text@
    }
}

impl CommandInputSourceKind {
    #[verifier::type_invariant]
    spec fn wf(&self) -> bool {
        command_input_source_kind_terms(self.text@)
    }

    /// Trims `raw`; refuses it unless it is one of the modeled terms.
    pub fn try_new(raw: String) -> (r: Result<Self, TextError>)
        ensures
            r is Ok <==> command_input_source_kind_terms(trim(raw@)),
            r matches Ok(v) ==> v@ == trim(raw@),
            r matches Err(e) ==> e == (if trim(raw@).len() == 0 {
                TextError::Empty
            } else {
                TextError::Unmodeled
            }),
    {
        let t = trim_chars(raw.as_str());
        let v = chars_of(t.as_str());
        if text_is(&v, "actor") || text_is(&v, "session") || text_is(&v, "generated") || text_is(&v, "external_payload") || text_is(&v, "event_stream_state") || text_is(&v, "invocation_argument") {
            Ok(CommandInputSourceKind { text: t })
        } else if t.as_str().is_empty() {
            Err(TextError::Empty)
        } else {
            Err(TextError::Unmodeled)
        }
    }

    /// The modeled term.
    pub fn as_str(&self) -> (r: &str)
        ensures
            r@ == self@,
            command_input_source_kind_terms(r@),
    {
        proof {
            use_type_invariant(self);
        }
        self.text.as_str()
    }
}

impl Clone for CommandInputSourceKind {
    fn clone(&self) -> (r: Self)
        ensures
            r@ == self@,
    {
        proof {
            use_type_invariant(self);
        }
        CommandInputSourceKind { text: self.text.clone() }
    }
}

/// The terms a [`ControlRecoveryBehavior`] may hold.
pub open spec fn control_recovery_behavior_terms(s: Seq<char>) -> bool {
    s == "retry"@ ||
        s == "stay_on_screen"@ ||
        s == "navigation"@ ||
        s == "explicit_recovery_action"@
}

/// How a view control recovers from a command error.
#[derive(Debug)]
pub struct ControlRecoveryBehavior {
    text: String,
}

impl View for ControlRecoveryBehavior {
    type V = Seq<char>;

    closed spec fn view(&self) -> Seq<char> {
        self.text@
    }
}

impl ControlRecoveryBehavior {
    #[verifier::type_invariant]
    spec fn wf(&self) -> bool {
        control_recovery_behavior_terms(self.text@)
    }

    /// Trims `raw`; refuses it unless it is one of the modeled terms.
    pub fn try_new(raw: String) -> (r: Result<Self, TextError>)
        ensures
            r is Ok <==> control_recovery_behavior_terms(trim(raw@)),
            r matches Ok(v) ==> v@ == trim(raw@),
            r matches Err(e) ==> e == (if trim(raw@).len() == 0 {
                TextError::Empty
            } else {
                TextError::Unmodeled
            }),
    {
        let t = trim_chars(raw.as_str());
        let v = chars_of(t.as_str());
        if text_is(&v, "retry") || text_is(&v, "stay_on_screen") || text_is(&v, "navigation") || text_is(&v, "explicit_recovery_action") {
            Ok(ControlRecoveryBehavior { text: t })
        } else if t.as_str().is_empty() {
            Err(TextError::Empty)
        } else {
            Err(TextError::Unmodeled)
        }
    }

    /// The modeled term.
    pub fn as_str(&self) -> (r: &str)
        ensures
            r@ == self@,
            control_recovery_behavior_terms(r@),
    {
        proof {
            use_type_invariant(self);
        }
        self.text.as_str()
    }
}

impl Clone for ControlRecoveryBehavior {
    fn clone(&self) -> (r: Self)
        ensures
            r@ == self@,
    {
        proof {
            use_type_invariant(self);
        }
        ControlRecoveryBehavior { text: self.text.clone() }
    }
}

/// The terms a [`SingletonRepeatBehavior`] may hold.
pub open spec fn singleton_repeat_behavior_terms(s: Seq<char>) -> bool {
    s == "already_exists_error"@ ||
        s == "idempotent"@
}

/// What a singleton command does when repeated.
#[derive(Debug)]
pub struct SingletonRepeatBehavior {
    text: String,
}

impl View for SingletonRepeatBehavior {
    type V = Seq<char>;

    closed spec fn view(&self) -> Seq<char> {
        self.text@
    }
}

impl SingletonRepeatBehavior {
    #[verifier::type_invariant]
    spec fn wf(&self) -> bool {
        singleton_repeat_behavior_terms(self.text@)
    }

    /// Trims `raw`; refuses it unless it is one of the modeled terms.
    pub fn try_new(raw: String) -> (r: Result<Self, TextError>)
        ensures
            r is Ok <==> singleton_repeat_behavior_terms(trim(raw@)),
            r matches Ok(v) ==> v@ == trim(raw@),
            r matches Err(e) ==> e == (if trim(raw@).len() == 0 {
                TextError::Empty
            } else {
                TextError::Unmodeled
            }),
    {
        let t = trim_chars(raw.as_str());
        let v = chars_of(t.as_str());
        if text_is(&v, "already_exists_error") || text_is(&v, "idempotent") {
            Ok(SingletonRepeatBehavior { text: t })
        } else if t.as_str().is_empty() {
            Err(TextError::Empty)
        } else {
            Err(TextError::Unmodeled)
        }
    }

    /// The modeled term.
    pub fn as_str(&self) -> (r: &str)
        ensures
            r@ == self@,
            singleton_repeat_behavior_terms(r@),
    {
        proof {
            use_type_invariant(self);
        }
        self.text.as_str()
    }
}

impl Clone for SingletonRepeatBehavior {
    fn clone(&self) -> (r: Self)
        ensures
            r@ == self@,
    {
        proof {
            use_type_invariant(self);
        }
        SingletonRepeatBehavior { text: self.text.clone() }
    }
}

/// The terms a [`ReadModelFieldSourceKind`] may hold.
pub open spec fn read_model_field_source_kind_terms(s: Seq<char>) -> bool {
    s == "event_attribute"@ ||
        s == "derivation"@ ||
        s == "absence_default"@
}

/// Where a read-model field comes from.
#[derive(Debug)]
pub struct ReadModelFieldSourceKind {
    text: String,
}

impl View for ReadModelFieldSourceKind {
    type V = Seq<char>;

    closed spec fn view(&self) -> Seq<char> {
        self.text@
    }
}

impl ReadModelFieldSourceKind {
    #[verifier::type_invariant]
    spec fn wf(&self) -> bool {
        read_model_field_source_kind_terms(self.text@)
    }

    /// Trims `raw`; refuses it unless it is one of the modeled terms.
    pub fn try_new(raw: String) -> (r: Result<Self, TextError>)
        ensures
            r is Ok <==> read_model_field_source_kind_terms(trim(raw@)),
            r matches Ok(v) ==> v@ == trim(raw@),
            r matches Err(e) ==> e == (if trim(raw@).len() == 0 {
                TextError::Empty
            } else {
                TextError::Unmodeled
            }),
    {
        let t = trim_chars(raw.as_str());
        let v = chars_of(t.as_str());
        if text_is(&v, "event_attribute") || text_is(&v, "derivation") || text_is(&v, "absence_default") {
            Ok(ReadModelFieldSourceKind { text: t })
        } else if t.as_str().is_empty() {
            Err(TextError::Empty)
        } else {
            Err(TextError::Unmodeled)
        }
    }

    /// The modeled term.
    pub fn as_str(&self) -> (r: &str)
        ensures
            r@ == self@,
            read_model_field_source_kind_terms(r@),
    {
        proof {
            use_type_invariant(self);
        }
        self.text.as_str()
    }
}

impl Clone for ReadModelFieldSourceKind {
    fn clone(&self) -> (r: Self)
        ensures
            r@ == self@,
    {
        proof {
            use_type_invariant(self);
        }
        ReadModelFieldSourceKind { text: self.text.clone() }
    }
}

/// The terms a [`ViewFieldSourceKind`] may hold.
pub open spec fn view_field_source_kind_terms(s: Seq<char>) -> bool {
    s == "read_model"@
}

/// Where a view field comes from.
#[derive(Debug)]
pub struct ViewFieldSourceKind {
    text: String,
}

impl View for ViewFieldSourceKind {
    type V = Seq<char>;

    closed spec fn view(&self) -> Seq<char> {
        self.text@
    }
}

impl ViewFieldSourceKind {
    #[verifier::type_invariant]
    spec fn wf(&self) -> bool {
        view_field_source_kind_terms(self.text@)
    }

    /// Trims `raw`; refuses it unless it is one of the modeled terms.
    pub fn try_new(raw: String) -> (r: Result<Self, TextError>)
        ensures
            r is Ok <==> view_field_source_kind_terms(trim(raw@)),
            r matches Ok(v) ==> v@ == trim(raw@),
            r matches Err(e) ==> e == (if trim(raw@).len() == 0 {
                TextError::Empty
            } else {
                TextError::Unmodeled
            }),
    {
        let t = trim_chars(raw.as_str());
        let v = chars_of(t.as_str());
        if text_is(&v, "read_model") {
            Ok(ViewFieldSourceKind { text: t })
        } else if t.as_str().is_empty() {
            Err(TextError::Empty)
        } else {
            Err(TextError::Unmodeled)
        }
    }

    /// The modeled term.
    pub fn as_str(&self) -> (r: &str)
        ensures
            r@ == self@,
            view_field_source_kind_terms(r@),
    {
        proof {
            use_type_invariant(self);
        }
        self.text.as_str()
    }
}

impl Clone for ViewFieldSourceKind {
    fn clone(&self) -> (r: Self)
        ensures
            r@ == self@,
    {
        proof {
            use_type_invariant(self);
        }
        ViewFieldSourceKind { text: self.text.clone() }
    }
}

/// The terms a [`NavigationTargetType`] may hold.
pub open spec fn navigation_target_type_terms(s: Seq<char>) -> bool {
    s == "modeled_view"@ ||
        s == "local_view_state"@ ||
        s == "external_system"@ ||
        s == "external_workflow"@
}

/// The classification of a navigation target.
#[derive(Debug)]
pub struct NavigationTargetType {
    text: String,
}

impl View for NavigationTargetType {
    type V = Seq<char>;

    closed spec fn view(&self) -> Seq<char> {
        self.text@
    }
}

impl NavigationTargetType {
    #[verifier::type_invariant]
    spec fn wf(&self) -> bool {
        navigation_target_type_terms(self.text@)
    }

    /// Trims `raw`; refuses it unless it is one of the modeled terms.
    pub fn try_new(raw: String) -> (r: Result<Self, TextError>)
        ensures
            r is Ok <==> navigation_target_type_terms(trim(raw@)),
            r matches Ok(v) ==> v@ == trim(raw@),
            r matches Err(e) ==> e == (if trim(raw@).len() == 0 {
                TextError::Empty
            } else {
                TextError::Unmodeled
            }),
    {
        let t = trim_chars(raw.as_str());
        let v = chars_of(t.as_str());
        if text_is(&v, "modeled_view") || text_is(&v, "local_view_state") || text_is(&v, "external_system") || text_is(&v, "external_workflow") {
            Ok(NavigationTargetType { text: t })
        } else if t.as_str().is_empty() {
            Err(TextError::Empty)
        } else {
            Err(TextError::Unmodeled)
        }
    }

    /// The modeled term.
    pub fn as_str(&self) -> (r: &str)
        ensures
            r@ == self@,
            navigation_target_type_terms(r@),
    {
        proof {
            use_type_invariant(self);
        }
        self.text.as_str()
    }
}

impl Clone for NavigationTargetType {
    fn clone(&self) -> (r: Self)
        ensures
            r@ == self@,
    {
        proof {
            use_type_invariant(self);
        }
        NavigationTargetType { text: self.text.clone() }
    }
}

/// The terms a [`EventAttributeSourceKind`] may hold.
pub open spec fn event_attribute_source_kind_terms(s: Seq<char>) -> bool {
    s == "command_input"@ ||
        s == "external_payload"@ ||
        s == "generated"@ ||
        s == "session"@ ||
        s == "derivation"@
}

/// Where an event attribute comes from.
#[derive(Debug)]
pub struct EventAttributeSourceKind {
    text: String,
}

impl View for EventAttributeSourceKind {
    type V = Seq<char>;

    closed spec fn view(&self) -> Seq<char> {
        self.text@
    }
}

impl EventAttributeSourceKind {
    #[verifier::type_invariant]
    spec fn wf(&self) -> bool {
        event_attribute_source_kind_terms(self.text@)
    }

    /// Trims `raw`; refuses it unless it is one of the modeled terms.
    pub fn try_new(raw: String) -> (r: Result<Self, TextError>)
        ensures
            r is Ok <==> event_attribute_source_kind_terms(trim(raw@)),
            r matches Ok(v) ==> v@ == trim(raw@),
            r matches Err(e) ==> e == (if trim(raw@).len() == 0 {
                TextError::Empty
            } else {
                TextError::Unmodeled
            }),
    {
        let t = trim_chars(raw.as_str());
        let v = chars_of(t.as_str());
        if text_is(&v, "command_input") || text_is(&v, "external_payload") || text_is(&v, "generated") || text_is(&v, "session") || text_is(&v, "derivation") {
            Ok(EventAttributeSourceKind { text: t })
        } else if t.as_str().is_empty() {
            Err(TextError::Empty)
        } else {
            Err(TextError::Unmodeled)
        }
    }

    /// The modeled term.
    pub fn as_str(&self) -> (r: &str)
        ensures
            r@ == self@,
            event_attribute_source_kind_terms(r@),
    {
        proof {
            use_type_invariant(self);
        }
        self.text.as_str()
    }
}

impl Clone for EventAttributeSourceKind {
    fn clone(&self) -> (r: Self)
        ensures
            r@ == self@,
    {
        proof {
            use_type_invariant(self);
        }
        EventAttributeSourceKind { text: self.text.clone() }
    }
}

/// The terms a [`BoardLaneId`] may hold.
pub open spec fn board_lane_id_terms(s: Seq<char>) -> bool {
    s == "ux"@ ||
        s == "actions"@ ||
        s == "events"@
}

/// A canonical board lane.
#[derive(Debug)]
pub struct BoardLaneId {
    text: String,
}

impl View for BoardLaneId {
    type V = Seq<char>;

    closed spec fn view(&self) -> Seq<char> {
        self.text@
    }
}

impl BoardLaneId {
    #[verifier::type_invariant]
    spec fn wf(&self) -> bool {
        board_lane_id_terms(self.text@)
    }

    /// Trims `raw`; refuses it unless it is one of the modeled terms.
    pub fn try_new(raw: String) -> (r: Result<Self, TextError>)
        ensures
            r is Ok <==> board_lane_id_terms(trim(raw@)),
            r matches Ok(v) ==> v@ == trim(raw@),
            r matches Err(e) ==> e == (if trim(raw@).len() == 0 {
                TextError::Empty
            } else {
                TextError::Unmodeled
            }),
    {
        let t = trim_chars(raw.as_str());
        let v = chars_of(t.as_str());
        if text_is(&v, "ux") || text_is(&v, "actions") || text_is(&v, "events") {
            Ok(BoardLaneId { text: t })
        } else if t.as_str().is_empty() {
            Err(TextError::Empty)
        } else {
            Err(TextError::Unmodeled)
        }
    }

    /// The modeled term.
    pub fn as_str(&self) -> (r: &str)
        ensures
            r@ == self@,
            board_lane_id_terms(r@),
    {
        proof {
            use_type_invariant(self);
        }
        self.text.as_str()
    }
}

impl Clone for BoardLaneId {
    fn clone(&self) -> (r: Self)
        ensures
            r@ == self@,
    {
        proof {
            use_type_invariant(self);
        }
        BoardLaneId { text: self.text.clone() }
    }
}

/// The terms a [`BoardElementKind`] may hold.
pub open spec fn board_element_kind_terms(s: Seq<char>) -> bool {
    s == "view"@ ||
        s == "automation"@ ||
        s == "external_event"@ ||
        s == "command"@ ||
        s == "read_model"@ ||
        s == "event"@
}

/// The kind of a board element.
#[derive(Debug)]
pub struct BoardElementKind {
    text: String,
}

impl View for BoardElementKind {
    type V = Seq<char>;

    closed spec fn view(&self) -> Seq<char> {
        self.text@
    }
}

impl BoardElementKind {
    #[verifier::type_invariant]
    spec fn wf(&self) -> bool {
        board_element_kind_terms(self.text@)
    }

    /// Trims `raw`; refuses it unless it is one of the modeled terms.
    pub fn try_new(raw: String) -> (r: Result<Self, TextError>)
        ensures
            r is Ok <==> board_element_kind_terms(trim(raw@)),
            r matches Ok(v) ==> v@ == trim(raw@),
            r matches Err(e) ==> e == (if trim(raw@).len() == 0 {
                TextError::Empty
            } else {
                TextError::Unmodeled
            }),
    {
        let t = trim_chars(raw.as_str());
        let v = chars_of(t.as_str());
        if text_is(&v, "view") || text_is(&v, "automation") || text_is(&v, "external_event") || text_is(&v, "command") || text_is(&v, "read_model") || text_is(&v, "event") {
            Ok(BoardElementKind { text: t })
        } else if t.as_str().is_empty() {
            Err(TextError::Empty)
        } else {
            Err(TextError::Unmodeled)
        }
    }

    /// The modeled term.
    pub fn as_str(&self) -> (r: &str)
        ensures
            r@ == self@,
            board_element_kind_terms(r@),
    {
        proof {
            use_type_invariant(self);
        }
        self.text.as_str()
    }
}

impl Clone for BoardElementKind {
    fn clone(&self) -> (r: Self)
        ensures
            r@ == self@,
    {
        proof {
            use_type_invariant(self);
        }
        BoardElementKind { text: self.text.clone() }
    }
}

/// The terms a [`BoardConnectionEndpointKind`] may hold.
pub open spec fn board_connection_endpoint_kind_terms(s: Seq<char>) -> bool {
    s == "view"@ ||
        s == "automation"@ ||
        s == "external_event"@ ||
        s == "workflow_trigger"@ ||
        s == "command"@ ||
        s == "event"@ ||
        s == "read_model"@
}

/// The kind of a board connection endpoint.
#[derive(Debug)]
pub struct BoardConnectionEndpointKind {
    text: String,
}

impl View for BoardConnectionEndpointKind {
    type V = Seq<char>;

    closed spec fn view(&self) -> Seq<char> {
        self.text@
    }
}

impl BoardConnectionEndpointKind {
    #[verifier::type_invariant]
    spec fn wf(&self) -> bool {
        board_connection_endpoint_kind_terms(self.text@)
    }

    /// Trims `raw`; refuses it unless it is one of the modeled terms.
    pub fn try_new(raw: String) -> (r: Result<Self, TextError>)
        ensures
            r is Ok <==> board_connection_endpoint_kind_terms(trim(raw@)),
            r matches Ok(v) ==> v@ == trim(raw@),
            r matches Err(e) ==> e == (if trim(raw@).len() == 0 {
                TextError::Empty
            } else {
                TextError::Unmodeled
            }),
    {
        let t = trim_chars(raw.as_str());
        let v = chars_of(t.as_str());
        if text_is(&v, "view") || text_is(&v, "automation") || text_is(&v, "external_event") || text_is(&v, "workflow_trigger") || text_is(&v, "command") || text_is(&v, "event") || text_is(&v, "read_model") {
            Ok(BoardConnectionEndpointKind { text: t })
        } else if t.as_str().is_empty() {
            Err(TextError::Empty)
        } else {
            Err(TextError::Unmodeled)
        }
    }

    /// The modeled term.
    pub fn as_str(&self) -> (r: &str)
        ensures
            r@ == self@,
            board_connection_endpoint_kind_terms(r@),
    {
        proof {
            use_type_invariant(self);
        }
        self.text.as_str()
    }
}

impl Clone for BoardConnectionEndpointKind {
    fn clone(&self) -> (r: Self)
        ensures
            r@ == self@,
    {
        proof {
            use_type_invariant(self);
        }
        BoardConnectionEndpointKind { text: self.text.clone() }
    }
}

/// The terms a [`TransformationSemantics`] may hold.
pub open spec fn transformation_semantics_terms(s: Seq<char>) -> bool {
    s == "identity"@ ||
        s == "projection"@ ||
        s == "derivation"@ ||
        s == "default"@ ||
        s == "absence"@ ||
        s == "transformation"@
}

/// How a bit-level data flow transforms its source.
#[derive(Debug)]
pub struct TransformationSemantics {
    text: String,
}

impl View for TransformationSemantics {
    type V = Seq<char>;

    closed spec fn view(&self) -> Seq<char> {
        self.text@
    }
}

impl TransformationSemantics {
    #[verifier::type_invariant]
    spec fn wf(&self) -> bool {
        transformation_semantics_terms(self.text@)
    }

    /// Trims `raw`; refuses it unless it is one of the modeled terms.
    pub fn try_new(raw: String) -> (r: Result<Self, TextError>)
        ensures
            r is Ok <==> transformation_semantics_terms(trim(raw@)),
            r matches Ok(v) ==> v@ == trim(raw@),
            r matches Err(e) ==> e == (if trim(raw@).len() == 0 {
                TextError::Empty
            } else {
                TextError::Unmodeled
            }),
    {
        let t = trim_chars(raw.as_str());
        let v = chars_of(t.as_str());
        if text_is(&v, "identity") || text_is(&v, "projection") || text_is(&v, "derivation") || text_is(&v, "default") || text_is(&v, "absence") || text_is(&v, "transformation") {
            Ok(TransformationSemantics { text: t })
        } else if t.as_str().is_empty() {
            Err(TextError::Empty)
        } else {
            Err(TextError::Unmodeled)
        }
    }

    /// The modeled term.
    pub fn as_str(&self) -> (r: &str)
        ensures
            r@ == self@,
            transformation_semantics_terms(r@),
    {
        proof {
            use_type_invariant(self);
        }
        self.text.as_str()
    }
}

impl Clone for TransformationSemantics {
    fn clone(&self) -> (r: Self)
        ensures
            r@ == self@,
    {
        proof {
            use_type_invariant(self);
        }
        TransformationSemantics { text: self.text.clone() }
    }
}

/// The terms a [`ContractKindName`] may hold.
pub open spec fn contract_kind_name_terms(s: Seq<char>) -> bool {
    s == "projector"@ ||
        s == "command"@ ||
        s == "automation"@ ||
        s == "translation"@ ||
        s == "derivation"@ ||
        s == "absence"@ ||
        s == "transitive"@
}

/// The kind of contract a contract scenario covers.
#[derive(Debug)]
pub struct ContractKindName {
    text: String,
}

impl View for ContractKindName {
    type V = Seq<char>;

    closed spec fn view(&self) -> Seq<char> {
        self.text@
    }
}

impl ContractKindName {
    #[verifier::type_invariant]
    spec fn wf(&self) -> bool {
        contract_kind_name_terms(self.text@)
    }

    /// Trims `raw`; refuses it unless it is one of the modeled terms.
    pub fn try_new(raw: String) -> (r: Result<Self, TextError>)
        ensures
            r is Ok <==> contract_kind_name_terms(trim(raw@)),
            r matches Ok(v) ==> v@ == trim(raw@),
            r matches Err(e) ==> e == (if trim(raw@).len() == 0 {
                TextError::Empty
            } else {
                TextError::Unmodeled
            }),
    {
        let t = trim_chars(raw.as_str());
        let v = chars_of(t.as_str());
        if text_is(&v, "projector") || text_is(&v, "command") || text_is(&v, "automation") || text_is(&v, "translation") || text_is(&v, "derivation") || text_is(&v, "absence") || text_is(&v, "transitive") {
            Ok(ContractKindName { text: t })
        } else if t.as_str().is_empty() {
            Err(TextError::Empty)
        } else {
            Err(TextError::Unmodeled)
        }
    }

    /// The modeled term.
    pub fn as_str(&self) -> (r: &str)
        ensures
            r@ == self@,
            contract_kind_name_terms(r@),
    {
        proof {
            use_type_invariant(self);
        }
        self.text.as_str()
    }
}

impl Clone for ContractKindName {
    fn clone(&self) -> (r: Self)
        ensures
            r@ == self@,
    {
        proof {
            use_type_invariant(self);
        }
        ContractKindName { text: self.text.clone() }
    }
}

/// The terms a [`SliceKindName`] may hold.
pub open spec fn slice_kind_name_terms(s: Seq<char>) -> bool {
    s == "state_view"@ ||
        s == "state_change"@ ||
        s == "translation"@ ||
        s == "automation"@
}

/// The kind of a slice in a formal workflow graph.
#[derive(Debug)]
pub struct SliceKindName {
    text: String,
}

impl View for SliceKindName {
    type V = Seq<char>;

    closed spec fn view(&self) -> Seq<char> {
        self.text@
    }
}

impl SliceKindName {
    #[verifier::type_invariant]
    spec fn wf(&self) -> bool {
        slice_kind_name_terms(self.text@)
    }

    /// Trims `raw`; refuses it unless it is one of the modeled terms.
    pub fn try_new(raw: String) -> (r: Result<Self, TextError>)
        ensures
            r is Ok <==> slice_kind_name_terms(trim(raw@)),
            r matches Ok(v) ==> v@ == trim(raw@),
            r matches Err(e) ==> e == (if trim(raw@).len() == 0 {
                TextError::Empty
            } else {
                TextError::Unmodeled
            }),
    {
        let t = trim_chars(raw.as_str());
        let v = chars_of(t.as_str());
        if text_is(&v, "state_view") || text_is(&v, "state_change") || text_is(&v, "translation") || text_is(&v, "automation") {
            Ok(SliceKindName { text: t })
        } else if t.as_str().is_empty() {
            Err(TextError::Empty)
        } else {
            Err(TextError::Unmodeled)
        }
    }

    /// The modeled term.
    pub fn as_str(&self) -> (r: &str)
        ensures
            r@ == self@,
            slice_kind_name_terms(r@),
    {
        proof {
            use_type_invariant(self);
        }
        self.text.as_str()
    }
}

impl Clone for SliceKindName {
    fn clone(&self) -> (r: Self)
        ensures
            r@ == self@,
    {
        proof {
            use_type_invariant(self);
        }
        SliceKindName { text: self.text.clone() }
    }
}

/// The terms a [`WorkflowStepRelationshipName`] may hold.
pub open spec fn workflow_step_relationship_name_terms(s: Seq<char>) -> bool {
    s == "entry"@ ||
        s == "main"@ ||
        s == "branch"@ ||
        s == "alternate"@ ||
        s == "async_lifecycle"@ ||
        s == "supporting"@
}

/// How a workflow step relates to the workflow's main path.
#[derive(Debug)]
pub struct WorkflowStepRelationshipName {
    text: String,
}

impl View for WorkflowStepRelationshipName {
    type V = Seq<char>;

    closed spec fn view(&self) -> Seq<char> {
        self.text@
    }
}

impl WorkflowStepRelationshipName {
    #[verifier::type_invariant]
    spec fn wf(&self) -> bool {
        workflow_step_relationship_name_terms(self.text@)
    }

    /// Trims `raw`; refuses it unless it is one of the modeled terms.
    pub fn try_new(raw: String) -> (r: Result<Self, TextError>)
        ensures
            r is Ok <==> workflow_step_relationship_name_terms(trim(raw@)),
            r matches Ok(v) ==> v@ == trim(raw@),
            r matches Err(e) ==> e == (if trim(raw@).len() == 0 {
                TextError::Empty
            } else {
                TextError::Unmodeled
            }),
    {
        let t = trim_chars(raw.as_str());
        let v = chars_of(t.as_str());
        if text_is(&v, "entry") || text_is(&v, "main") || text_is(&v, "branch") || text_is(&v, "alternate") || text_is(&v, "async_lifecycle") || text_is(&v, "supporting") {
            Ok(WorkflowStepRelationshipName { text: t })
        } else if t.as_str().is_empty() {
            Err(TextError::Empty)
        } else {
            Err(TextError::Unmodeled)
        }
    }

    /// The modeled term.
    pub fn as_str(&self) -> (r: &str)
        ensures
            r@ == self@,
            workflow_step_relationship_name_terms(r@),
    {
        proof {
            use_type_invariant(self);
        }
        self.text.as_str()
    }
}

impl Clone for WorkflowStepRelationshipName {
    fn clone(&self) -> (r: Self)
        ensures
            r@ == self@,
    {
        proof {
            use_type_invariant(self);
        }
        WorkflowStepRelationshipName { text: self.text.clone() }
    }
}

/// The terms a [`ScenarioKind`] may hold.
pub open spec fn scenario_kind_terms(s: Seq<char>) -> bool {
    s == "acceptance"@ ||
        s == "contract"@
}

/// The kind of a slice scenario.
#[derive(Debug)]
pub struct ScenarioKind {
    text: String,
}

impl View for ScenarioKind {
    type V = Seq<char>;

    closed spec fn view(&self) -> Seq<char> {
        self.text@
    }
}

impl ScenarioKind {
    #[verifier::type_invariant]
    spec fn wf(&self) -> bool {
        scenario_kind_terms(self.text@)
    }

    /// Trims `raw`; refuses it unless it is one of the modeled terms.
    pub fn try_new(raw: String) -> (r: Result<Self, TextError>)
        ensures
            r is Ok <==> scenario_kind_terms(trim(raw@)),
            r matches Ok(v) ==> v@ == trim(raw@),
            r matches Err(e) ==> e == (if trim(raw@).len() == 0 {
                TextError::Empty
            } else {
                TextError::Unmodeled
            }),
    {
        let t = trim_chars(raw.as_str());
        let v = chars_of(t.as_str());
        if text_is(&v, "acceptance") || text_is(&v, "contract") {
            Ok(ScenarioKind { text: t })
        } else if t.as_str().is_empty() {
            Err(TextError::Empty)
        } else {
            Err(TextError::Unmodeled)
        }
    }

    /// The modeled term.
    pub fn as_str(&self) -> (r: &str)
        ensures
            r@ == self@,
            scenario_kind_terms(r@),
    {
        proof {
            use_type_invariant(self);
        }
        self.text.as_str()
    }
}

impl Clone for ScenarioKind {
    fn clone(&self) -> (r: Self)
        ensures
            r@ == self@,
    {
        proof {
            use_type_invariant(self);
        }
        ScenarioKind { text: self.text.clone() }
    }
}

/// The terms a [`DataFlowSourceKind`] may hold.
pub open spec fn data_flow_source_kind_terms(s: Seq<char>) -> bool {
    s == "original"@ ||
        s == "modeled_target"@
}

/// The kind of source of a bit-level data flow.
#[derive(Debug)]
pub struct DataFlowSourceKind {
    text: String,
}

impl View for DataFlowSourceKind {
    type V = Seq<char>;

    closed spec fn view(&self) -> Seq<char> {
        self.text@
    }
}

impl DataFlowSourceKind {
    #[verifier::type_invariant]
    spec fn wf(&self) -> bool {
        data_flow_source_kind_terms(self.text@)
    }

    /// Trims `raw`; refuses it unless it is one of the modeled terms.
    pub fn try_new(raw: String) -> (r: Result<Self, TextError>)
        ensures
            r is Ok <==> data_flow_source_kind_terms(trim(raw@)),
            r matches Ok(v) ==> v@ == trim(raw@),
            r matches Err(e) ==> e == (if trim(raw@).len() == 0 {
                TextError::Empty
            } else {
                TextError::Unmodeled
            }),
    {
        let t = trim_chars(raw.as_str());
        let v = chars_of(t.as_str());
        if text_is(&v, "original") || text_is(&v, "modeled_target") {
            Ok(DataFlowSourceKind { text: t })
        } else if t.as_str().is_empty() {
            Err(TextError::Empty)
        } else {
            Err(TextError::Unmodeled)
        }
    }

    /// The modeled term.
    pub fn as_str(&self) -> (r: &str)
        ensures
            r@ == self@,
            data_flow_source_kind_terms(r@),
    {
        proof {
            use_type_invariant(self);
        }
        self.text.as_str()
    }
}

impl Clone for DataFlowSourceKind {
    fn clone(&self) -> (r: Self)
        ensures
            r@ == self@,
    {
        proof {
            use_type_invariant(self);
        }
        DataFlowSourceKind { text: self.text.clone() }
    }
}

/// The terms a [`WorkflowEntryLifecycleStateName`] may hold.
pub open spec fn workflow_entry_lifecycle_state_name_terms(s: Seq<char>) -> bool {
    s == "fresh_uninitialized"@ ||
        s == "initialized_unauthenticated"@ ||
        s == "initialized_authenticated"@ ||
        s == "partially_configured"@ ||
        s == "fully_configured"@
}

/// An application entry lifecycle state a workflow must cover.
#[derive(Debug)]
pub struct WorkflowEntryLifecycleStateName {
    text: String,
}

impl View for WorkflowEntryLifecycleStateName {
    type V = Seq<char>;

    closed spec fn view(&self) -> Seq<char> {
        self.text@
    }
}

impl WorkflowEntryLifecycleStateName {
    #[verifier::type_invariant]
    spec fn wf(&self) -> bool {
        workflow_entry_lifecycle_state_name_terms(self.text@)
    }

    /// Trims `raw`; refuses it unless it is one of the modeled terms.
    pub fn try_new(raw: String) -> (r: Result<Self, TextError>)
        ensures
            r is Ok <==> workflow_entry_lifecycle_state_name_terms(trim(raw@)),
            r matches Ok(v) ==> v@ == trim(raw@),
            r matches Err(e) ==> e == (if trim(raw@).len() == 0 {
                TextError::Empty
            } else {
                TextError::Unmodeled
            }),
    {
        let t = trim_chars(raw.as_str());
        let v = chars_of(t.as_str());
        if text_is(&v, "fresh_uninitialized") || text_is(&v, "initialized_unauthenticated") || text_is(&v, "initialized_authenticated") || text_is(&v, "partially_configured") || text_is(&v, "fully_configured") {
            Ok(WorkflowEntryLifecycleStateName { text: t })
        } else if t.as_str().is_empty() {
            Err(TextError::Empty)
        } else {
            Err(TextError::Unmodeled)
        }
    }

    /// The modeled term.
    pub fn as_str(&self) -> (r: &str)
        ensures
            r@ == self@,
            workflow_entry_lifecycle_state_name_terms(r@),
    {
        proof {
            use_type_invariant(self);
        }
        self.text.as_str()
    }
}

impl Clone for WorkflowEntryLifecycleStateName {
    fn clone(&self) -> (r: Self)
        ensures
            r@ == self@,
    {
        proof {
            use_type_invariant(self);
        }
        WorkflowEntryLifecycleStateName { text: self.text.clone() }
    }
}

/// The terms a [`WorkflowEventParticipation`] may hold.
pub open spec fn workflow_event_participation_terms(s: Seq<char>) -> bool {
    s == "emitted"@ ||
        s == "observed"@
}

/// How a slice participates in a workflow-owned event.
#[derive(Debug)]
pub struct WorkflowEventParticipation {
    text: String,
}

impl View for WorkflowEventParticipation {
    type V = Seq<char>;

    closed spec fn view(&self) -> Seq<char> {
        self.text@
    }
}

impl WorkflowEventParticipation {
    #[verifier::type_invariant]
    spec fn wf(&self) -> bool {
        workflow_event_participation_terms(self.text@)
    }

    /// Trims `raw`; refuses it unless it is one of the modeled terms.
    pub fn try_new(raw: String) -> (r: Result<Self, TextError>)
        ensures
            r is Ok <==> workflow_event_participation_terms(trim(raw@)),
            r matches Ok(v) ==> v@ == trim(raw@),
            r matches Err(e) ==> e == (if trim(raw@).len() == 0 {
                TextError::Empty
            } else {
                TextError::Unmodeled
            }),
    {
        let t = trim_chars(raw.as_str());
        let v = chars_of(t.as_str());
        if text_is(&v, "emitted") || text_is(&v, "observed") {
            Ok(WorkflowEventParticipation { text: t })
        } else if t.as_str().is_empty() {
            Err(TextError::Empty)
        } else {
            Err(TextError::Unmodeled)
        }
    }

    /// The modeled term.
    pub fn as_str(&self) -> (r: &str)
        ensures
            r@ == self@,
            workflow_event_participation_terms(r@),
    {
        proof {
            use_type_invariant(self);
        }
        self.text.as_str()
    }
}

impl Clone for WorkflowEventParticipation {
    fn clone(&self) -> (r: Self)
        ensures
            r@ == self@,
    {
        proof {
            use_type_invariant(self);
        }
        WorkflowEventParticipation { text: self.text.clone() }
    }
}

/// The terms a [`WorkflowViewRole`] may hold.
pub open spec fn workflow_view_role_terms(s: Seq<char>) -> bool {
    s == "entry"@
}

/// The role of a view owned by a workflow.
#[derive(Debug)]
pub struct WorkflowViewRole {
    text: String,
}

impl View for WorkflowViewRole {
    type V = Seq<char>;

    closed spec fn view(&self) -> Seq<char> {
        self.text@
    }
}

impl WorkflowViewRole {
    #[verifier::type_invariant]
    spec fn wf(&self) -> bool {
        workflow_view_role_terms(self.text@)
    }

    /// Trims `raw`; refuses it unless it is one of the modeled terms.
    pub fn try_new(raw: String) -> (r: Result<Self, TextError>)
        ensures
            r is Ok <==> workflow_view_role_terms(trim(raw@)),
            r matches Ok(v) ==> v@ == trim(raw@),
            r matches Err(e) ==> e == (if trim(raw@).len() == 0 {
                TextError::Empty
            } else {
                TextError::Unmodeled
            }),
    {
        let t = trim_chars(raw.as_str());
        let v = chars_of(t.as_str());
        if text_is(&v, "entry") {
            Ok(WorkflowViewRole { text: t })
        } else if t.as_str().is_empty() {
            Err(TextError::Empty)
        } else {
            Err(TextError::Unmodeled)
        }
    }

    /// The modeled term.
    pub fn as_str(&self) -> (r: &str)
        ensures
            r@ == self@,
            workflow_view_role_terms(r@),
    {
        proof {
            use_type_invariant(self);
        }
        self.text.as_str()
    }
}

impl Clone for WorkflowViewRole {
    fn clone(&self) -> (r: Self)
        ensures
            r@ == self@,
    {
        proof {
            use_type_invariant(self);
        }
        WorkflowViewRole { text: self.text.clone() }
    }
}

pub open spec fn is_digit(c: char) -> bool {
    '0' <= c && c <= '9'
}

pub open spec fn digit_value(c: char) -> int {
    c as int - '0' as int
}

/// The two-digit number at `s[i..i + 2]`.
pub open spec fn two_digits(s: Seq<char>, i: int) -> int {
    digit_value(s[i]) * 10 + digit_value(s[i + 1])
}

/// The positions of a review timestamp that hold digits.
pub open spec fn timestamp_digit_position(i: int) -> bool {
    (0 <= i < 4) || i == 5 || i == 6 || i == 8 || i == 9 || i == 11 || i == 12 || i == 14 || i
        == 15 || i == 17 || i == 18 || (20 <= i < 23)
}

/// A UTC instant with millisecond precision: `YYYY-MM-DDTHH:MM:SS.mmmZ`, with
/// month 01-12, day 01-31, hour 00-23, minute and second 00-59.
pub open spec fn review_timestamp_shape(s: Seq<char>) -> bool {
    &&& s.len() == 24
    &&& forall|i: int| 0 <= i < 24 && timestamp_digit_position(i) ==> is_digit(#[trigger] s[i])
    &&& s[4] == '-' && s[7] == '-' && s[10] == 'T' && s[13] == ':' && s[16] == ':' && s[19] == '.'
        && s[23] == 'Z'
    &&& 1 <= two_digits(s, 5) <= 12
    &&& 1 <= two_digits(s, 8) <= 31
    &&& two_digits(s, 11) < 24
    &&& two_digits(s, 14) < 60
    &&& two_digits(s, 17) < 60
}

fn digit_char(c: char) -> (r: bool)
    ensures
        r == is_digit(c),
{
    '0' <= c && c <= '9'
}

fn two_digit_value(v: &Vec<char>, i: usize) -> (r: u32)
    requires
        i + 1 < v.len(),
        is_digit(v@[i as int]),
        is_digit(v@[i + 1]),
    ensures
        r == two_digits(v@, i as int),
{
    let a = (v[i] as u32) - ('0' as u32);
    let b = (v[i + 1] as u32) - ('0' as u32);
    a * 10 + b
}

fn review_timestamp_shaped(v: &Vec<char>) -> (r: bool)
    ensures
        r == review_timestamp_shape(v@),
{
    if v.len() != 24 {
        return false;
    }
    let mut i: usize = 0;
    while i < 24
        invariant
            v@.len() == 24,
            i <= 24,
            forall|j: int| 0 <= j < i && timestamp_digit_position(j) ==> is_digit(#[trigger] v@[j]),
        decreases 24 - i,
    {
        let digit_here = i < 4 || i == 5 || i == 6 || i == 8 || i == 9 || i == 11 || i == 12 || i
            == 14 || i == 15 || i == 17 || i == 18 || (20 <= i && i < 23);
        if digit_here && !digit_char(v[i]) {
            return false;
        }
        i = i + 1;
    }
    if !(v[4] == '-' && v[7] == '-' && v[10] == 'T' && v[13] == ':' && v[16] == ':' && v[19]
        == '.' && v[23] == 'Z') {
        return false;
    }
    assert(timestamp_digit_position(5) && timestamp_digit_position(6));
    assert(is_digit(v@[5]) && is_digit(v@[6]));
    assert(timestamp_digit_position(8) && timestamp_digit_position(9));
    assert(is_digit(v@[8]) && is_digit(v@[9]));
    assert(timestamp_digit_position(11) && timestamp_digit_position(12));
    assert(is_digit(v@[11]) && is_digit(v@[12]));
    assert(timestamp_digit_position(14) && timestamp_digit_position(15));
    assert(is_digit(v@[14]) && is_digit(v@[15]));
    assert(timestamp_digit_position(17) && timestamp_digit_position(18));
    assert(is_digit(v@[17]) && is_digit(v@[18]));
    let month = two_digit_value(v, 5);
    let day = two_digit_value(v, 8);
    let hour = two_digit_value(v, 11);
    let minute = two_digit_value(v, 14);
    let second = two_digit_value(v, 17);
    1 <= month && month <= 12 && 1 <= day && day <= 31 && hour < 24 && minute < 60 && second < 60
}

/// The instant at which a review was recorded.
#[derive(Debug)]
pub struct ReviewTimestamp {
    text: String,
}

impl View for ReviewTimestamp {
    type V = Seq<char>;

    closed spec fn view(&self) -> Seq<char> {
        self.text@
    }
}

impl ReviewTimestamp {
    #[verifier::type_invariant]
    spec fn wf(&self) -> bool {
        review_timestamp_shape(self.text@)
    }

    /// Trims `raw`; refuses it unless it is a UTC millisecond instant.
    pub fn try_new(raw: String) -> (r: Result<Self, TextError>)
        ensures
            r is Ok <==> review_timestamp_shape(trim(raw@)),
            r matches Ok(v) ==> v@ == trim(raw@),
            r matches Err(e) ==> e == (if trim(raw@).len() == 0 {
                TextError::Empty
            } else {
                TextError::Malformed
            }),
    {
        let t = trim_chars(raw.as_str());
        let v = chars_of(t.as_str());
        if review_timestamp_shaped(&v) {
            Ok(ReviewTimestamp { text: t })
        } else if t.as_str().is_empty() {
            Err(TextError::Empty)
        } else {
            Err(TextError::Malformed)
        }
    }

    /// The timestamp text.
    pub fn as_str(&self) -> (r: &str)
        ensures
            r@ == self@,
            review_timestamp_shape(r@),
    {
        proof {
            use_type_invariant(self);
        }
        self.text.as_str()
    }
}

impl Clone for ReviewTimestamp {
    fn clone(&self) -> (r: Self)
        ensures
            r@ == self@,
    {
        proof {
            use_type_invariant(self);
        }
        ReviewTimestamp { text: self.text.clone() }
    }
}

/// A path inside the project: relative (no leading `/`) and free of `..`
/// segments.
pub open spec fn project_path_shape(s: Seq<char>) -> bool {
    &&& s.len() > 0
    &&& s[0] != '/'
    &&& forall|i: int|
        0 <= i < split_on(s, '/').len() ==> #[trigger] split_on(s, '/')[i] != seq!['.', '.']
}

/// The parts of a generated artifact path: a prefix that starts the path
/// and holds no `.`, a module name of ASCII letters and digits, and a suffix
/// that starts with its only `.`.
pub open spec fn generated_path_parts(prefix: Seq<char>, module: Seq<char>, suffix: Seq<char>) -> bool {
    &&& prefix.len() > 0
    &&& prefix[0] != '/'
    &&& !is_ws(prefix[0])
    &&& forall|i: int| 0 <= i < prefix.len() ==> #[trigger] prefix[i] != '.'
    &&& forall|i: int| 0 <= i < module.len() ==> is_ascii_alnum(#[trigger] module[i])
    &&& suffix.len() >= 2
    &&& suffix[0] == '.'
    &&& !is_ws(suffix.last())
    &&& forall|i: int| 1 <= i < suffix.len() ==> #[trigger] suffix[i] != '.'
}

fn no_parent_segment(v: &Vec<char>) -> (r: bool)
    ensures
        r == (forall|i: int|
            0 <= i < split_on(v@, '/').len() ==> #[trigger] split_on(v@, '/')[i] != seq!['.', '.']),
{
    let pieces = split_chars(v, '/');
    let ghost segs = pieces@.map_values(|p: Vec<char>| p@);
    let mut i: usize = 0;
    while i < pieces.len()
        invariant
            i <= pieces@.len(),
            segs == split_on(v@, '/'),
            segs.len() == pieces@.len(),
            forall|j: int| 0 <= j < pieces@.len() ==> #[trigger] segs[j] == pieces@[j]@,
            forall|j: int| 0 <= j < i ==> #[trigger] segs[j] != seq!['.', '.'],
        decreases pieces.len() - i,
    {
        let p = &pieces[i];
        if p.len() == 2 && p[0] == '.' && p[1] == '.' {
            assert(segs[i as int] =~= seq!['.', '.']);
            return false;
        }
        assert(segs[i as int] != seq!['.', '.']);
        i = i + 1;
    }
    true
}

/// A relative path inside the current project.
#[derive(Debug)]
pub struct ProjectPath {
    text: String,
}

impl View for ProjectPath {
    type V = Seq<char>;

    closed spec fn view(&self) -> Seq<char> {
        self.text@
    }
}

impl ProjectPath {
    #[verifier::type_invariant]
    spec fn wf(&self) -> bool {
        project_path_shape(self.text@)
    }

    /// Trims `raw`; refuses absolute paths and parent-directory traversal.
    pub fn try_new(raw: String) -> (r: Result<Self, TextError>)
        ensures
            r is Ok <==> project_path_shape(trim(raw@)),
            r matches Ok(v) ==> v@ == trim(raw@),
            r matches Err(e) ==> e == (if trim(raw@).len() == 0 {
                TextError::Empty
            } else {
                TextError::Malformed
            }),
    {
        let t = trim_chars(raw.as_str());
        let v = chars_of(t.as_str());
        if v.len() == 0 {
            return Err(TextError::Empty);
        }
        if v[0] != '/' && no_parent_segment(&v) {
            Ok(ProjectPath { text: t })
        } else {
            Err(TextError::Malformed)
        }
    }

    /// The path `prefix`, `module`, `suffix` of a generated artifact, where
    /// the module name is made of ASCII letters and digits.
    pub fn generated(prefix: &str, module: &str, suffix: &str) -> (r: Self)
        requires
            generated_path_parts(prefix@, module@, suffix@),
        ensures
            r@ == prefix@ + module@ + suffix@,
    {
        let ghost s = prefix@ + module@ + suffix@;
        let mut text = prefix.to_owned();
        text.append(module);
        text.append(suffix);
        proof {
            assert(text@ == s);
            assert(s[0] == prefix@[0]);
            assert(s.last() == suffix@.last());
            assert(trim_start(s) == s);
            assert(trim_end(s) == s);
            assert(no_double_dot(s)) by {
                assert forall|i: int| 0 <= i < s.len() - 1 implies !(#[trigger] s[i] == '.' && s[i + 1] == '.') by {
                    let p = prefix@.len() as int;
                    let m = module@.len() as int;
                    if i < p {
                        assert(s[i] == prefix@[i]);
                    } else if i < p + m {
                        assert(s[i] == module@[i - p]);
                    } else {
                        assert(s[i + 1] == suffix@[i + 1 - p - m]);
                    }
                }
            }
            lemma_no_double_dot_pieces(s, '/');
        }
        ProjectPath { text }
    }

    /// The path text.
    pub fn as_str(&self) -> (r: &str)
        ensures
            r@ == self@,
            project_path_shape(r@),
    {
        proof {
            use_type_invariant(self);
        }
        self.text.as_str()
    }
}

impl Clone for ProjectPath {
    fn clone(&self) -> (r: Self)
        ensures
            r@ == self@,
    {
        proof {
            use_type_invariant(self);
        }
        ProjectPath { text: self.text.clone() }
    }
}

/// The terms a [`ReviewStatus`] may hold.
pub open spec fn review_status_terms(s: Seq<char>) -> bool {
    s == "clean"@ ||
        s == "changes_requested"@
}

/// The outcome recorded by a review.
#[derive(Debug)]
pub struct ReviewStatus {
    text: String,
}

impl View for ReviewStatus {
    type V = Seq<char>;

    closed spec fn view(&self) -> Seq<char> {
        self.text@
    }
}

impl ReviewStatus {
    #[verifier::type_invariant]
    spec fn wf(&self) -> bool {
        review_status_terms(self.text@)
    }

    /// Trims `raw`; refuses it unless it is one of the modeled terms.
    pub fn try_new(raw: String) -> (r: Result<Self, TextError>)
        ensures
            r is Ok <==> review_status_terms(trim(raw@)),
            r matches Ok(v) ==> v@ == trim(raw@),
            r matches Err(e) ==> e == (if trim(raw@).len() == 0 {
                TextError::Empty
            } else {
                TextError::Unmodeled
            }),
    {
        let t = trim_chars(raw.as_str());
        let v = chars_of(t.as_str());
        if text_is(&v, "clean") || text_is(&v, "changes_requested") {
            Ok(ReviewStatus { text: t })
        } else if t.as_str().is_empty() {
            Err(TextError::Empty)
        } else {
            Err(TextError::Unmodeled)
        }
    }

    /// The modeled term.
    pub fn as_str(&self) -> (r: &str)
        ensures
            r@ == self@,
            review_status_terms(r@),
    {
        proof {
            use_type_invariant(self);
        }
        self.text.as_str()
    }
}

impl Clone for ReviewStatus {
    fn clone(&self) -> (r: Self)
        ensures
            r@ == self@,
    {
        proof {
            use_type_invariant(self);
        }
        ReviewStatus { text: self.text.clone() }
    }
}

/// The terms a [`ReviewRuleName`] may hold.
pub open spec fn review_rule_name_terms(s: Seq<char>) -> bool {
    s == "lifecycle-entry"@ ||
        s == "canonical-lanes"@ ||
        s == "board-connections"@ ||
        s == "fake-intermediates"@ ||
        s == "slice-ownership"@ ||
        s == "source-chains"@ ||
        s == "workflow-reachability"@ ||
        s == "transition-resolution"@ ||
        s == "navigation-targets"@ ||
        s == "branch-shape"@ ||
        s == "outcomes-and-errors"@ ||
        s == "scenario-coverage"@ ||
        s == "timeline-rendering"@
}

/// A category of the review checklist.
#[derive(Debug)]
pub struct ReviewRuleName {
    text: String,
}

impl View for ReviewRuleName {
    type V = Seq<char>;

    closed spec fn view(&self) -> Seq<char> {
        self.text@
    }
}

impl ReviewRuleName {
    #[verifier::type_invariant]
    spec fn wf(&self) -> bool {
        review_rule_name_terms(self.text@)
    }

    /// Trims `raw`; refuses it unless it is one of the modeled terms.
    pub fn try_new(raw: String) -> (r: Result<Self, TextError>)
        ensures
            r is Ok <==> review_rule_name_terms(trim(raw@)),
            r matches Ok(v) ==> v@ == trim(raw@),
            r matches Err(e) ==> e == (if trim(raw@).len() == 0 {
                TextError::Empty
            } else {
                TextError::Unmodeled
            }),
    {
        let t = trim_chars(raw.as_str());
        let v = chars_of(t.as_str());
        if text_is(&v, "lifecycle-entry") || text_is(&v, "canonical-lanes") || text_is(&v, "board-connections") || text_is(&v, "fake-intermediates") || text_is(&v, "slice-ownership") || text_is(&v, "source-chains") || text_is(&v, "workflow-reachability") || text_is(&v, "transition-resolution") || text_is(&v, "navigation-targets") || text_is(&v, "branch-shape") || text_is(&v, "outcomes-and-errors") || text_is(&v, "scenario-coverage") || text_is(&v, "timeline-rendering") {
            Ok(ReviewRuleName { text: t })
        } else if t.as_str().is_empty() {
            Err(TextError::Empty)
        } else {
            Err(TextError::Unmodeled)
        }
    }

    /// The modeled term.
    pub fn as_str(&self) -> (r: &str)
        ensures
            r@ == self@,
            review_rule_name_terms(r@),
    {
        proof {
            use_type_invariant(self);
        }
        self.text.as_str()
    }
}

impl Clone for ReviewRuleName {
    fn clone(&self) -> (r: Self)
        ensures
            r@ == self@,
    {
        proof {
            use_type_invariant(self);
        }
        ReviewRuleName { text: self.text.clone() }
    }
}

/// The terms a [`EventDraftType`] may hold.
pub open spec fn event_draft_type_terms(s: Seq<char>) -> bool {
    s == "ProjectInitialized"@ ||
        s == "WorkflowAdded"@ ||
        s == "WorkflowUpdated"@ ||
        s == "WorkflowRemoved"@ ||
        s == "WorkflowOutcomeAdded"@ ||
        s == "WorkflowCommandErrorAdded"@ ||
        s == "WorkflowOwnedDefinitionAdded"@ ||
        s == "WorkflowTransitionEvidenceAdded"@ ||
        s == "WorkflowEntryLifecycleCoverageRequired"@ ||
        s == "WorkflowEntryLifecycleStateAdded"@ ||
        s == "WorkflowReadinessDeclared"@ ||
        s == "WorkflowConnected"@ ||
        s == "WorkflowTransitionRemoved"@ ||
        s == "SliceAdded"@ ||
        s == "SliceUpdated"@ ||
        s == "SliceRemoved"@ ||
        s == "SliceScenarioAdded"@ ||
        s == "SliceOutcomeAdded"@ ||
        s == "SliceExternalPayloadAdded"@ ||
        s == "SliceEventDefinitionAdded"@ ||
        s == "SliceCommandDefinitionAdded"@ ||
        s == "SliceReadModelAdded"@ ||
        s == "SliceViewAdded"@ ||
        s == "SliceBitLevelDataFlowAdded"@ ||
        s == "SliceTranslationAdded"@ ||
        s == "SliceAutomationAdded"@ ||
        s == "SliceBoardElementAdded"@ ||
        s == "SliceBoardConnectionAdded"@ ||
        s == "ReviewRecorded"@ ||
        s == "ConflictResolved"@
}

/// The type of an exported event.
#[derive(Debug)]
pub struct EventDraftType {
    text: String,
}

impl View for EventDraftType {
    type V = Seq<char>;

    closed spec fn view(&self) -> Seq<char> {
        self.text@
    }
}

impl EventDraftType {
    #[verifier::type_invariant]
    spec fn wf(&self) -> bool {
        event_draft_type_terms(self.text@)
    }

    /// Trims `raw`; refuses it unless it is one of the modeled terms.
    pub fn try_new(raw: String) -> (r: Result<Self, TextError>)
        ensures
            r is Ok <==> event_draft_type_terms(trim(raw@)),
            r matches Ok(v) ==> v@ == trim(raw@),
            r matches Err(e) ==> e == (if trim(raw@).len() == 0 {
                TextError::Empty
            } else {
                TextError::Unmodeled
            }),
    {
        let t = trim_chars(raw.as_str());
        let v = chars_of(t.as_str());
        if text_is(&v, "ProjectInitialized") || text_is(&v, "WorkflowAdded") || text_is(&v, "WorkflowUpdated") || text_is(&v, "WorkflowRemoved") || text_is(&v, "WorkflowOutcomeAdded") || text_is(&v, "WorkflowCommandErrorAdded") || text_is(&v, "WorkflowOwnedDefinitionAdded") || text_is(&v, "WorkflowTransitionEvidenceAdded") || text_is(&v, "WorkflowEntryLifecycleCoverageRequired") || text_is(&v, "WorkflowEntryLifecycleStateAdded") || text_is(&v, "WorkflowReadinessDeclared") || text_is(&v, "WorkflowConnected") || text_is(&v, "WorkflowTransitionRemoved") || text_is(&v, "SliceAdded") || text_is(&v, "SliceUpdated") || text_is(&v, "SliceRemoved") || text_is(&v, "SliceScenarioAdded") || text_is(&v, "SliceOutcomeAdded") || text_is(&v, "SliceExternalPayloadAdded") || text_is(&v, "SliceEventDefinitionAdded") || text_is(&v, "SliceCommandDefinitionAdded") || text_is(&v, "SliceReadModelAdded") || text_is(&v, "SliceViewAdded") || text_is(&v, "SliceBitLevelDataFlowAdded") || text_is(&v, "SliceTranslationAdded") || text_is(&v, "SliceAutomationAdded") || text_is(&v, "SliceBoardElementAdded") || text_is(&v, "SliceBoardConnectionAdded") || text_is(&v, "ReviewRecorded") || text_is(&v, "ConflictResolved") {
            Ok(EventDraftType { text: t })
        } else if t.as_str().is_empty() {
            Err(TextError::Empty)
        } else {
            Err(TextError::Unmodeled)
        }
    }

    /// The modeled term.
    pub fn as_str(&self) -> (r: &str)
        ensures
            r@ == self@,
            event_draft_type_terms(r@),
    {
        proof {
            use_type_invariant(self);
        }
        self.text.as_str()
    }
}

impl Clone for EventDraftType {
    fn clone(&self) -> (r: Self)
        ensures
            r@ == self@,
    {
        proof {
            use_type_invariant(self);
        }
        EventDraftType { text: self.text.clone() }
    }
}

/// Whether `s` can follow a stream prefix: it is non-empty and holds no `::`.
pub open spec fn stream_segment_ok(s: Seq<char>) -> bool {
    s.len() > 0 && !contains_seq(s, "::"@)
}

/// The shapes an [`EventStreamId`] may have: `project`, or one of the
/// prefixes `workflow::`, `slice::` and `review::` followed by a segment.
pub open spec fn event_stream_id_shape(s: Seq<char>) -> bool {
    ||| s == "project"@
    ||| starts_with(s, "workflow::"@) && stream_segment_ok(s.skip(10))
    ||| starts_with(s, "slice::"@) && stream_segment_ok(s.skip(7))
    ||| starts_with(s, "review::"@) && stream_segment_ok(s.skip(8))
}

/// The stream an exported event belongs to.
#[derive(Debug)]
pub struct EventStreamId {
    text: String,
}

impl View for EventStreamId {
    type V = Seq<char>;

    closed spec fn view(&self) -> Seq<char> {
        self.text@
    }
}

/// Whether `v` starts with `prefix` and the rest is a stream segment.
fn prefixed_segment(v: &Vec<char>, prefix: &str) -> (r: bool)
    ensures
        r == (starts_with(v@, prefix@) && stream_segment_ok(v@.skip(prefix@.len() as int))),
{
    let p = chars_of(prefix);
    if !has_prefix(v, &p) {
        return false;
    }
    let rest = chars_of(string_from_range(v, p.len(), v.len()).as_str());
    assert(rest@ =~= v@.skip(prefix@.len() as int));
    rest.len() > 0 && !contains_chars(&rest, &chars_of("::"))
}

impl EventStreamId {
    #[verifier::type_invariant]
    spec fn wf(&self) -> bool {
        event_stream_id_shape(self.text@)
    }

    /// Trims `raw`; refuses it unless it has one of the modeled shapes.
    pub fn try_new(raw: String) -> (r: Result<Self, TextError>)
        ensures
            r is Ok <==> event_stream_id_shape(trim(raw@)),
            r matches Ok(v) ==> v@ == trim(raw@),
            r matches Err(e) ==> e == (if trim(raw@).len() == 0 {
                TextError::Empty
            } else {
                TextError::Malformed
            }),
    {
        let t = trim_chars(raw.as_str());
        let v = chars_of(t.as_str());
        proof {
            reveal_strlit("workflow::");
            reveal_strlit("slice::");
            reveal_strlit("review::");
        }
        if text_is(&v, "project") || prefixed_segment(&v, "workflow::") || prefixed_segment(
            &v,
            "slice::",
        ) || prefixed_segment(&v, "review::") {
            Ok(EventStreamId { text: t })
        } else if t.as_str().is_empty() {
            Err(TextError::Empty)
        } else {
            Err(TextError::Malformed)
        }
    }

    /// The stream id's text.
    pub fn as_str(&self) -> (r: &str)
        ensures
            r@ == self@,
            event_stream_id_shape(r@),
    {
        proof {
            use_type_invariant(self);
        }
        self.text.as_str()
    }
}

impl Clone for EventStreamId {
    fn clone(&self) -> (r: Self)
        ensures
            r@ == self@,
    {
        proof {
            use_type_invariant(self);
        }
        EventStreamId { text: self.text.clone() }
    }
}

} // verus!
