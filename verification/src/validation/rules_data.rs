//! Rules on where data comes from: the sources of event attributes, command
//! inputs and read model fields.

use vstd::prelude::*;

use crate::validation::find::{
    first_issue_with, first_issue_with2, first_issue_with3, first_with, into_result, issue_of,
    issue_view, lemma_first_with_step, msg3, msg5, msg9,
};
use crate::validation::lists::{event_def, event_definition};
use crate::validation::model::{
    CommandDefinition, CommandInputSource, CommandInputSourceKind, CommandReadModelReads,
    EventAttribute, EventAttributeSource, EventDefinition, EventModelDocument, ExternalInputSchema,
    ReadModelDefinition, ReadModelField, ReadModelFieldAbsenceDefault, ReadModelFieldDerivation,
    ReadModelFieldSource, ReadModelTransitiveDerivation,
};
use crate::validation::names::{contains_name, has_name, DefinitionName, ValidationIssue};

verus! {

// ---- what the producing commands declare ----

/// Whether a command that produces event `e` takes the input `input`.
pub open spec fn producer_has_input(doc: EventModelDocument, e: Seq<char>, input: Seq<char>) -> bool {
    exists|i: int|
        0 <= i < doc.command_definitions@.len() && has_name(
            (#[trigger] doc.command_definitions@[i]).produces@,
            e,
        ) && has_name(doc.command_definitions@[i].inputs@, input)
}

/// Whether a command that produces event `e` takes the external payload `p`.
pub open spec fn producer_has_external_input(doc: EventModelDocument, e: Seq<char>, p: Seq<char>) -> bool {
    exists|i: int|
        0 <= i < doc.command_definitions@.len() && has_name(
            (#[trigger] doc.command_definitions@[i]).produces@,
            e,
        ) && has_name(doc.command_definitions@[i].external_inputs@, p)
}

pub open spec fn schema_named() -> spec_fn(Seq<char>, ExternalInputSchema) -> Option<ExternalInputSchema> {
    |p: Seq<char>, s: ExternalInputSchema|
        if s.name@ == p {
            Some(s)
        } else {
            None
        }
}

/// Whether the first schema of the command for payload `p` declares field `f`.
pub open spec fn external_field_declared(command: CommandDefinition, p: Seq<char>, f: Seq<char>) -> bool {
    match first_with(p, command.external_input_schemas@, schema_named()) {
        Some(schema) => has_name(schema.fields@, f),
        None => false,
    }
}

/// Whether a command that produces event `e` declares field `f` of payload `p`.
pub open spec fn producer_has_external_field(
    doc: EventModelDocument,
    e: Seq<char>,
    p: Seq<char>,
    f: Seq<char>,
) -> bool {
    exists|i: int|
        0 <= i < doc.command_definitions@.len() && has_name(
            (#[trigger] doc.command_definitions@[i]).produces@,
            e,
        ) && external_field_declared(doc.command_definitions@[i], p, f)
}

pub fn external_field_is_declared(command: &CommandDefinition, p: &DefinitionName, f: &DefinitionName) -> (r:
    bool)
    ensures
        r == external_field_declared(*command, p@, f@),
{
    let schemas = &command.external_input_schemas;
    let mut i: usize = 0;
    assert(schemas@.subrange(0, schemas@.len() as int) =~= schemas@);
    while i < schemas.len()
        invariant
            i <= schemas@.len(),
            schemas@ == command.external_input_schemas@,
            first_with(p@, schemas@, schema_named()) == first_with(
                p@,
                schemas@.subrange(i as int, schemas@.len() as int),
                schema_named(),
            ),
        decreases schemas.len() - i,
    {
        proof {
            lemma_first_with_step(p@, schemas@, schema_named(), i as int);
        }
        if schemas[i].name.same_as(p) {
            return contains_name(&schemas[i].fields, f);
        }
        i = i + 1;
    }
    assert(schemas@.subrange(i as int, schemas@.len() as int) =~= Seq::<ExternalInputSchema>::empty());
    false
}

/// What a command must hold for an event attribute sourced from it.
#[derive(Debug, Clone, Copy, PartialEq, Eq, Structural)]
enum ProducerNeed {
    Input,
    ExternalInput,
    ExternalField,
}

spec fn producer_meets(
    command: CommandDefinition,
    need: ProducerNeed,
    e: Seq<char>,
    a: Seq<char>,
    b: Seq<char>,
) -> bool {
    has_name(command.produces@, e) && match need {
        ProducerNeed::Input => has_name(command.inputs@, a),
        ProducerNeed::ExternalInput => has_name(command.external_inputs@, a),
        ProducerNeed::ExternalField => external_field_declared(command, a, b),
    }
}

fn some_producer_meets(
    doc: &EventModelDocument,
    need: ProducerNeed,
    e: &DefinitionName,
    a: &DefinitionName,
    b: &DefinitionName,
) -> (r: bool)
    ensures
        r == exists|i: int|
            0 <= i < doc.command_definitions@.len() && producer_meets(
                #[trigger] doc.command_definitions@[i],
                need,
                e@,
                a@,
                b@,
            ),
{
    let commands = &doc.command_definitions;
    let mut i: usize = 0;
    while i < commands.len()
        invariant
            i <= commands@.len(),
            commands@ == doc.command_definitions@,
            forall|j: int| 0 <= j < i ==> !producer_meets(#[trigger] commands@[j], need, e@, a@, b@),
        decreases commands.len() - i,
    {
        let c = &commands[i];
        let meets = contains_name(&c.produces, e) && match need {
            ProducerNeed::Input => contains_name(&c.inputs, a),
            ProducerNeed::ExternalInput => contains_name(&c.external_inputs, a),
            ProducerNeed::ExternalField => external_field_is_declared(c, a, b),
        };
        if meets {
            assert(producer_meets(commands@[i as int], need, e@, a@, b@));
            return true;
        }
        i = i + 1;
    }
    false
}

// ---- event attribute sources ----

/// Ways the source of an event attribute can be invalid.
#[derive(Debug, Clone, Copy, PartialEq, Eq, Structural)]
pub enum AttributeFault {
    /// `command.<input>` where no producing command takes the input.
    CommandInput,
    /// `external.<payload>.<field>` where no producing command takes the payload.
    ExternalInput,
    /// `external.<payload>.<field>` where no producing command declares the field.
    ExternalField,
    /// Any `read_model.<model>.<field>` source.
    ReadModelSource,
    /// An empty `generated.` source.
    Generated,
}

pub open spec fn attribute_fault_message(
    doc: EventModelDocument,
    event: EventDefinition,
    attr: EventAttribute,
    fault: AttributeFault,
) -> Option<Seq<char>> {
    let head = "event '"@ + event.name@ + "' attribute '"@ + attr.name@;
    match fault {
        AttributeFault::CommandInput => match attr.source {
            EventAttributeSource::CommandInput(input) => if producer_has_input(
                doc,
                event.name@,
                input@,
            ) {
                None
            } else {
                Some(head + "' has invalid source 'command."@ + input@ + "'"@)
            },
            _ => None,
        },
        AttributeFault::ExternalInput => match attr.source {
            EventAttributeSource::ExternalField(p, f) => if producer_has_external_input(
                doc,
                event.name@,
                p@,
            ) {
                None
            } else {
                Some(head + "' has invalid source 'external."@ + p@ + "."@ + f@ + "'"@)
            },
            _ => None,
        },
        AttributeFault::ExternalField => match attr.source {
            EventAttributeSource::ExternalField(p, f) => if producer_has_external_field(
                doc,
                event.name@,
                p@,
                f@,
            ) {
                None
            } else {
                Some(head + "' references undeclared external input field '"@ + f@ + "'"@)
            },
            _ => None,
        },
        AttributeFault::ReadModelSource => match attr.source {
            EventAttributeSource::ReadModelField(m, f) => Some(
                head + "' has invalid source 'read_model."@ + m@ + "."@ + f@ + "'"@,
            ),
            _ => None,
        },
        AttributeFault::Generated => match attr.source {
            EventAttributeSource::GeneratedEmpty => Some(head + "' has invalid source 'generated.'"@),
            _ => None,
        },
    }
}

pub open spec fn faulty_attribute() -> spec_fn((EventModelDocument, EventDefinition, AttributeFault), EventAttribute) -> Option<
    Seq<char>,
> {
    |c: (EventModelDocument, EventDefinition, AttributeFault), attr: EventAttribute|
        attribute_fault_message(c.0, c.1, attr, c.2)
}

pub open spec fn event_faulty_attribute() -> spec_fn((EventModelDocument, AttributeFault), EventDefinition) -> Option<
    Seq<char>,
> {
    |c: (EventModelDocument, AttributeFault), event: EventDefinition|
        first_with((c.0, event, c.1), event.attributes@, faulty_attribute())
}

/// The first attribute, over the document's events, with the given fault.
pub open spec fn attribute_fault_issue(doc: EventModelDocument, fault: AttributeFault) -> Option<
    Seq<char>,
> {
    first_with((doc, fault), doc.event_definitions@, event_faulty_attribute())
}

fn check_attribute(
    doc: &EventModelDocument,
    event: &EventDefinition,
    fault: &AttributeFault,
    attr: &EventAttribute,
) -> (r: Option<ValidationIssue>)
    ensures
        issue_view(r) == faulty_attribute()((*doc, *event, *fault), *attr),
{
    let en = event.name.as_str();
    let an = attr.name.as_str();
    match *fault {
        AttributeFault::CommandInput => match &attr.source {
            EventAttributeSource::CommandInput(input) => {
                if some_producer_meets(doc, ProducerNeed::Input, &event.name, input, input) {
                    None
                } else {
                    Some(
                        msg7p(
                            en,
                            an,
                            "' has invalid source 'command.",
                            input.as_str(),
                            "'",
                        ),
                    )
                }
            },
            _ => None,
        },
        AttributeFault::ExternalInput => match &attr.source {
            EventAttributeSource::ExternalField(p, f) => {
                if some_producer_meets(doc, ProducerNeed::ExternalInput, &event.name, p, f) {
                    None
                } else {
                    Some(
                        msg9p(
                            en,
                            an,
                            "' has invalid source 'external.",
                            p.as_str(),
                            ".",
                            f.as_str(),
                            "'",
                        ),
                    )
                }
            },
            _ => None,
        },
        AttributeFault::ExternalField => match &attr.source {
            EventAttributeSource::ExternalField(p, f) => {
                if some_producer_meets(doc, ProducerNeed::ExternalField, &event.name, p, f) {
                    None
                } else {
                    Some(
                        msg7p(
                            en,
                            an,
                            "' references undeclared external input field '",
                            f.as_str(),
                            "'",
                        ),
                    )
                }
            },
            _ => None,
        },
        AttributeFault::ReadModelSource => match &attr.source {
            EventAttributeSource::ReadModelField(m, f) => Some(
                msg9p(en, an, "' has invalid source 'read_model.", m.as_str(), ".", f.as_str(), "'"),
            ),
            _ => None,
        },
        AttributeFault::Generated => match &attr.source {
            EventAttributeSource::GeneratedEmpty => Some(
                msg5("event '", en, "' attribute '", an, "' has invalid source 'generated.'"),
            ),
            _ => None,
        },
    }
}

/// An attribute issue: `event '<e>' attribute '<a>` then `x y z`.
fn msg7p(e: &str, a: &str, x: &str, y: &str, z: &str) -> (r: ValidationIssue)
    ensures
        r@ == "event '"@ + e@ + "' attribute '"@ + a@ + x@ + y@ + z@,
{
    let mut m = "event '".to_owned();
    m.append(e);
    m.append("' attribute '");
    m.append(a);
    m.append(x);
    m.append(y);
    m.append(z);
    ValidationIssue::new(m)
}

/// An attribute issue: `event '<e>' attribute '<a>` then `x y z w v`.
fn msg9p(e: &str, a: &str, x: &str, y: &str, z: &str, w: &str, v: &str) -> (r: ValidationIssue)
    ensures
        r@ == "event '"@ + e@ + "' attribute '"@ + a@ + x@ + y@ + z@ + w@ + v@,
{
    let mut m = "event '".to_owned();
    m.append(e);
    m.append("' attribute '");
    m.append(a);
    m.append(x);
    m.append(y);
    m.append(z);
    m.append(w);
    m.append(v);
    ValidationIssue::new(m)
}

fn check_event_attributes(doc: &EventModelDocument, fault: &AttributeFault, event: &EventDefinition) -> (r:
    Option<ValidationIssue>)
    ensures
        issue_view(r) == event_faulty_attribute()((*doc, *fault), *event),
{
    first_issue_with3(doc, event, fault, &event.attributes, check_attribute, Ghost(faulty_attribute()))
}

fn first_attribute_fault(doc: &EventModelDocument, fault: AttributeFault) -> (r: Result<
    (),
    ValidationIssue,
>)
    ensures
        issue_of(r) == attribute_fault_issue(*doc, fault),
{
    into_result(
        first_issue_with2(
            doc,
            &fault,
            &doc.event_definitions,
            check_event_attributes,
            Ghost(event_faulty_attribute()),
        ),
    )
}

pub fn validate_command_sourced_event_attributes(doc: &EventModelDocument) -> (r: Result<
    (),
    ValidationIssue,
>)
    ensures
        issue_of(r) == attribute_fault_issue(*doc, AttributeFault::CommandInput),
{
    first_attribute_fault(doc, AttributeFault::CommandInput)
}

/// Attributes sourced from external payloads: first the payloads, then the
/// fields of the payloads.
pub open spec fn external_source_issue(doc: EventModelDocument) -> Option<Seq<char>> {
    match attribute_fault_issue(doc, AttributeFault::ExternalInput) {
        Some(m) => Some(m),
        None => attribute_fault_issue(doc, AttributeFault::ExternalField),
    }
}

pub fn validate_external_sourced_event_attributes(doc: &EventModelDocument) -> (r: Result<
    (),
    ValidationIssue,
>)
    ensures
        issue_of(r) == external_source_issue(*doc),
{
    let r = first_attribute_fault(doc, AttributeFault::ExternalInput);
    if r.is_err() {
        return r;
    }
    validate_external_sourced_event_attribute_fields(doc)
}

pub fn validate_external_sourced_event_attribute_fields(doc: &EventModelDocument) -> (r: Result<
    (),
    ValidationIssue,
>)
    ensures
        issue_of(r) == attribute_fault_issue(*doc, AttributeFault::ExternalField),
{
    first_attribute_fault(doc, AttributeFault::ExternalField)
}

pub fn validate_read_model_sourced_event_attributes(doc: &EventModelDocument) -> (r: Result<
    (),
    ValidationIssue,
>)
    ensures
        issue_of(r) == attribute_fault_issue(*doc, AttributeFault::ReadModelSource),
{
    first_attribute_fault(doc, AttributeFault::ReadModelSource)
}

pub fn validate_generated_event_attribute_sources(doc: &EventModelDocument) -> (r: Result<
    (),
    ValidationIssue,
>)
    ensures
        issue_of(r) == attribute_fault_issue(*doc, AttributeFault::Generated),
{
    first_attribute_fault(doc, AttributeFault::Generated)
}

// ---- commands ----

pub open spec fn legacy_reads() -> spec_fn(EventModelDocument, CommandDefinition) -> Option<
    CommandDefinition,
> {
    |doc: EventModelDocument, command: CommandDefinition|
        if command.read_model_reads == CommandReadModelReads::Present {
            Some(command)
        } else {
            None
        }
}

/// The first command with legacy read-model reads, when it is named.
pub open spec fn legacy_reads_issue(doc: EventModelDocument) -> Option<Seq<char>> {
    match first_with(doc, doc.command_definitions@, legacy_reads()) {
        Some(command) => match command.name {
            Some(n) => Some("command '"@ + n@ + "' uses legacy read-model reads"@),
            None => None,
        },
        None => None,
    }
}

pub fn validate_command_legacy_read_model_reads(doc: &EventModelDocument) -> (r: Result<
    (),
    ValidationIssue,
>)
    ensures
        issue_of(r) == legacy_reads_issue(*doc),
{
    let commands = &doc.command_definitions;
    let mut i: usize = 0;
    assert(commands@.subrange(0, commands@.len() as int) =~= commands@);
    while i < commands.len()
        invariant
            i <= commands@.len(),
            commands@ == doc.command_definitions@,
            first_with(*doc, commands@, legacy_reads()) == first_with(
                *doc,
                commands@.subrange(i as int, commands@.len() as int),
                legacy_reads(),
            ),
        decreases commands.len() - i,
    {
        proof {
            lemma_first_with_step(*doc, commands@, legacy_reads(), i as int);
        }
        if commands[i].read_model_reads == CommandReadModelReads::Present {
            return match &commands[i].name {
                Some(n) => Err(msg3("command '", n.as_str(), "' uses legacy read-model reads")),
                None => Ok(()),
            };
        }
        i = i + 1;
    }
    assert(commands@.subrange(i as int, commands@.len() as int) =~= Seq::<CommandDefinition>::empty());
    Ok(())
}

pub open spec fn input_undeclared_field() -> spec_fn(CommandDefinition, CommandInputSource) -> Option<
    Seq<char>,
> {
    |command: CommandDefinition, input: CommandInputSource|
        match input.source {
            CommandInputSourceKind::ExternalField(p, f) => if external_field_declared(
                command,
                p@,
                f@,
            ) {
                None
            } else {
                Some(
                    "command input '"@ + input.name@
                        + "' references undeclared external input field '"@ + f@ + "'"@,
                )
            },
            _ => None,
        }
}

pub open spec fn command_undeclared_field() -> spec_fn(EventModelDocument, CommandDefinition) -> Option<
    Seq<char>,
> {
    |doc: EventModelDocument, command: CommandDefinition|
        first_with(command, command.input_sources@, input_undeclared_field())
}

pub open spec fn input_field_issue(doc: EventModelDocument) -> Option<Seq<char>> {
    first_with(doc, doc.command_definitions@, command_undeclared_field())
}

fn check_input_field(command: &CommandDefinition, input: &CommandInputSource) -> (r: Option<
    ValidationIssue,
>)
    ensures
        issue_view(r) == input_undeclared_field()(*command, *input),
{
    match &input.source {
        CommandInputSourceKind::ExternalField(p, f) => {
            if external_field_is_declared(command, p, f) {
                None
            } else {
                Some(
                    msg5(
                        "command input '",
                        input.name.as_str(),
                        "' references undeclared external input field '",
                        f.as_str(),
                        "'",
                    ),
                )
            }
        },
        _ => None,
    }
}

fn check_command_inputs(doc: &EventModelDocument, command: &CommandDefinition) -> (r: Option<
    ValidationIssue,
>)
    ensures
        issue_view(r) == command_undeclared_field()(*doc, *command),
{
    first_issue_with(command, &command.input_sources, check_input_field, Ghost(input_undeclared_field()))
}

pub fn validate_command_input_external_source_fields(doc: &EventModelDocument) -> (r: Result<
    (),
    ValidationIssue,
>)
    ensures
        issue_of(r) == input_field_issue(*doc),
{
    into_result(
        first_issue_with(
            doc,
            &doc.command_definitions,
            check_command_inputs,
            Ghost(command_undeclared_field()),
        ),
    )
}

// ---- read model fields ----

/// Whether the first event named `e` has an attribute named `a`.
pub open spec fn event_attribute_exists(doc: EventModelDocument, e: Seq<char>, a: Seq<char>) -> bool {
    match event_def(doc, e) {
        Some(event) => exists|i: int|
            0 <= i < event.attributes@.len() && (#[trigger] event.attributes@[i]).name@ == a,
        None => false,
    }
}

fn event_has_attribute(doc: &EventModelDocument, e: &DefinitionName, a: &DefinitionName) -> (r: bool)
    ensures
        r == event_attribute_exists(*doc, e@, a@),
{
    match event_definition(doc, e) {
        Some(event) => {
            let attrs = &event.attributes;
            let mut i: usize = 0;
            while i < attrs.len()
                invariant
                    i <= attrs@.len(),
                    attrs@ == event.attributes@,
                    event_def(*doc, e@) == Some(*event),
                    forall|j: int| 0 <= j < i ==> (#[trigger] attrs@[j]).name@ != a@,
                decreases attrs.len() - i,
            {
                if attrs[i].name.same_as(a) {
                    return true;
                }
                i = i + 1;
            }
            false
        },
        None => false,
    }
}

pub open spec fn field_unknown_attribute() -> spec_fn((EventModelDocument, ReadModelDefinition), ReadModelField) -> Option<
    Seq<char>,
> {
    |c: (EventModelDocument, ReadModelDefinition), field: ReadModelField|
        match field.source {
            ReadModelFieldSource::EventAttribute(e, a) => if event_attribute_exists(c.0, e@, a@) {
                None
            } else {
                Some(
                    "read model '"@ + c.1.name@ + "' field '"@ + field.name@
                        + "' references unknown event attribute '"@ + e@ + "."@ + a@ + "'"@,
                )
            },
            _ => None,
        }
}

pub open spec fn read_model_unknown_attribute() -> spec_fn(EventModelDocument, ReadModelDefinition) -> Option<
    Seq<char>,
> {
    |doc: EventModelDocument, m: ReadModelDefinition|
        first_with((doc, m), m.fields@, field_unknown_attribute())
}

pub open spec fn field_source_issue(doc: EventModelDocument) -> Option<Seq<char>> {
    first_with(doc, doc.read_model_definitions@, read_model_unknown_attribute())
}

fn check_field_source(doc: &EventModelDocument, m: &ReadModelDefinition, field: &ReadModelField) -> (r:
    Option<ValidationIssue>)
    ensures
        issue_view(r) == field_unknown_attribute()((*doc, *m), *field),
{
    match &field.source {
        ReadModelFieldSource::EventAttribute(e, a) => {
            if event_has_attribute(doc, e, a) {
                None
            } else {
                Some(
                    msg9(
                        "read model '",
                        m.name.as_str(),
                        "' field '",
                        field.name.as_str(),
                        "' references unknown event attribute '",
                        e.as_str(),
                        ".",
                        a.as_str(),
                        "'",
                    ),
                )
            }
        },
        _ => None,
    }
}

fn check_read_model_sources(doc: &EventModelDocument, m: &ReadModelDefinition) -> (r: Option<
    ValidationIssue,
>)
    ensures
        issue_view(r) == read_model_unknown_attribute()(*doc, *m),
{
    first_issue_with2(doc, m, &m.fields, check_field_source, Ghost(field_unknown_attribute()))
}

pub fn validate_read_model_field_event_sources(doc: &EventModelDocument) -> (r: Result<
    (),
    ValidationIssue,
>)
    ensures
        issue_of(r) == field_source_issue(*doc),
{
    into_result(
        first_issue_with(
            doc,
            &doc.read_model_definitions,
            check_read_model_sources,
            Ghost(read_model_unknown_attribute()),
        ),
    )
}

/// Ways a derived or defaulted read model field can be incompletely declared.
#[derive(Debug, Clone, Copy, PartialEq, Eq, Structural)]
pub enum FieldFault {
    DerivationWithoutProvenance,
    DerivationWithoutScenarios,
    DefaultWithoutAbsenceEvent,
    DefaultWithoutScenarios,
}

pub open spec fn field_fault_message(field: ReadModelField, fault: FieldFault) -> Option<Seq<char>> {
    match fault {
        FieldFault::DerivationWithoutProvenance => if field.derivation
            == ReadModelFieldDerivation::DerivedWithoutProvenance {
            Some(
                "derived read model field '"@ + field.name@
                    + "' must declare source fields and derivation"@,
            )
        } else {
            None
        },
        FieldFault::DerivationWithoutScenarios => if field.derivation
            == ReadModelFieldDerivation::DerivedWithoutScenarios {
            Some("derived read model field '"@ + field.name@ + "' must have a derivation scenario"@)
        } else {
            None
        },
        FieldFault::DefaultWithoutAbsenceEvent => if field.absence_default
            == ReadModelFieldAbsenceDefault::DefaultedWithoutAbsenceEvent {
            Some(
                "absence/default field '"@ + field.name@
                    + "' must declare the event absence it derives from"@,
            )
        } else {
            None
        },
        FieldFault::DefaultWithoutScenarios => if field.absence_default
            == ReadModelFieldAbsenceDefault::DefaultedWithoutScenarios {
            Some("absence/default field '"@ + field.name@ + "' must have an absence scenario"@)
        } else {
            None
        },
    }
}

pub open spec fn faulty_field() -> spec_fn(FieldFault, ReadModelField) -> Option<Seq<char>> {
    |fault: FieldFault, field: ReadModelField| field_fault_message(field, fault)
}

pub open spec fn read_model_faulty_field() -> spec_fn(FieldFault, ReadModelDefinition) -> Option<
    Seq<char>,
> {
    |fault: FieldFault, m: ReadModelDefinition| first_with(fault, m.fields@, faulty_field())
}

/// The first field, over the document's read models, with the given fault.
pub open spec fn field_fault_issue(doc: EventModelDocument, fault: FieldFault) -> Option<Seq<char>> {
    first_with(fault, doc.read_model_definitions@, read_model_faulty_field())
}

fn check_field_fault(fault: &FieldFault, field: &ReadModelField) -> (r: Option<ValidationIssue>)
    ensures
        issue_view(r) == faulty_field()(*fault, *field),
{
    let n = field.name.as_str();
    match *fault {
        FieldFault::DerivationWithoutProvenance => {
            if field.derivation == ReadModelFieldDerivation::DerivedWithoutProvenance {
                Some(msg3("derived read model field '", n, "' must declare source fields and derivation"))
            } else {
                None
            }
        },
        FieldFault::DerivationWithoutScenarios => {
            if field.derivation == ReadModelFieldDerivation::DerivedWithoutScenarios {
                Some(msg3("derived read model field '", n, "' must have a derivation scenario"))
            } else {
                None
            }
        },
        FieldFault::DefaultWithoutAbsenceEvent => {
            if field.absence_default == ReadModelFieldAbsenceDefault::DefaultedWithoutAbsenceEvent {
                Some(msg3("absence/default field '", n, "' must declare the event absence it derives from"))
            } else {
                None
            }
        },
        FieldFault::DefaultWithoutScenarios => {
            if field.absence_default == ReadModelFieldAbsenceDefault::DefaultedWithoutScenarios {
                Some(msg3("absence/default field '", n, "' must have an absence scenario"))
            } else {
                None
            }
        },
    }
}

fn check_read_model_fields(fault: &FieldFault, m: &ReadModelDefinition) -> (r: Option<ValidationIssue>)
    ensures
        issue_view(r) == read_model_faulty_field()(*fault, *m),
{
    first_issue_with(fault, &m.fields, check_field_fault, Ghost(faulty_field()))
}

fn first_field_fault(doc: &EventModelDocument, fault: FieldFault) -> (r: Result<(), ValidationIssue>)
    ensures
        issue_of(r) == field_fault_issue(*doc, fault),
{
    into_result(
        first_issue_with(&fault, &doc.read_model_definitions, check_read_model_fields, Ghost(read_model_faulty_field())),
    )
}

pub fn validate_derived_read_model_field_provenance(doc: &EventModelDocument) -> (r: Result<
    (),
    ValidationIssue,
>)
    ensures
        issue_of(r) == field_fault_issue(*doc, FieldFault::DerivationWithoutProvenance),
{
    first_field_fault(doc, FieldFault::DerivationWithoutProvenance)
}

pub fn validate_derived_read_model_field_scenarios(doc: &EventModelDocument) -> (r: Result<
    (),
    ValidationIssue,
>)
    ensures
        issue_of(r) == field_fault_issue(*doc, FieldFault::DerivationWithoutScenarios),
{
    first_field_fault(doc, FieldFault::DerivationWithoutScenarios)
}

pub fn validate_absence_default_read_model_field_events(doc: &EventModelDocument) -> (r: Result<
    (),
    ValidationIssue,
>)
    ensures
        issue_of(r) == field_fault_issue(*doc, FieldFault::DefaultWithoutAbsenceEvent),
{
    first_field_fault(doc, FieldFault::DefaultWithoutAbsenceEvent)
}

pub fn validate_absence_default_read_model_field_scenarios(doc: &EventModelDocument) -> (r: Result<
    (),
    ValidationIssue,
>)
    ensures
        issue_of(r) == field_fault_issue(*doc, FieldFault::DefaultWithoutScenarios),
{
    first_field_fault(doc, FieldFault::DefaultWithoutScenarios)
}

pub open spec fn transitive_without_rule() -> spec_fn(EventModelDocument, ReadModelDefinition) -> Option<
    Seq<char>,
> {
    |doc: EventModelDocument, m: ReadModelDefinition|
        if m.transitive_derivation == ReadModelTransitiveDerivation::TransitiveWithoutRule {
            Some(
                "transitive read model '"@ + m.name@
                    + "' must declare source fields, derivation rule, and scenarios"@,
            )
        } else {
            None
        }
}

pub open spec fn transitive_issue(doc: EventModelDocument) -> Option<Seq<char>> {
    first_with(doc, doc.read_model_definitions@, transitive_without_rule())
}

fn check_transitive(doc: &EventModelDocument, m: &ReadModelDefinition) -> (r: Option<ValidationIssue>)
    ensures
        issue_view(r) == transitive_without_rule()(*doc, *m),
{
    if m.transitive_derivation == ReadModelTransitiveDerivation::TransitiveWithoutRule {
        Some(
            msg3(
                "transitive read model '",
                m.name.as_str(),
                "' must declare source fields, derivation rule, and scenarios",
            ),
        )
    } else {
        None
    }
}

pub fn validate_transitive_read_model_derivation(doc: &EventModelDocument) -> (r: Result<
    (),
    ValidationIssue,
>)
    ensures
        issue_of(r) == transitive_issue(*doc),
{
    into_result(
        first_issue_with(doc, &doc.read_model_definitions, check_transitive, Ghost(transitive_without_rule())),
    )
}

} // verus!
