use emc::json::{JsonMember, JsonValue};
use emc::workflow_document::WorkflowDocument;

fn text(s: &str) -> JsonValue {
    JsonValue::Text(s.to_owned())
}

fn object(members: Vec<(&str, JsonValue)>) -> JsonValue {
    JsonValue::Object(
        members
            .into_iter()
            .map(|(key, value)| JsonMember { key: key.to_owned(), value })
            .collect(),
    )
}

fn document(value: JsonValue) -> WorkflowDocument {
    WorkflowDocument::from_value(value).unwrap()
}

fn step(slice: &str, transitions: Vec<JsonValue>) -> JsonValue {
    object(vec![
        ("slice", text(slice)),
        ("name", text("Capture ticket")),
        ("type", text("state_change")),
        ("description", text("Captures a ticket.")),
        ("transitions", JsonValue::Array(transitions)),
    ])
}

#[test]
fn workflow_documents_must_be_objects() {
    let error = WorkflowDocument::from_value(JsonValue::Array(vec![])).unwrap_err();
    assert_eq!(error.message(), "workflow document must be a JSON object");
    assert!(WorkflowDocument::from_value_optional(JsonValue::Null).unwrap().is_none());
    assert!(WorkflowDocument::from_value_optional(object(vec![])).unwrap().is_some());
}

#[test]
fn workflow_document_name_and_description_are_trimmed() {
    let doc = document(object(vec![
        ("name", text(" Open ticket ")),
        ("description", text(" Opens tickets. ")),
    ]));
    assert_eq!(doc.name().unwrap().as_str(), "Open ticket");
    assert_eq!(doc.description().unwrap().as_str(), "Opens tickets.");
}

#[test]
fn workflow_document_fields_that_are_missing_or_blank_are_refused() {
    let doc = document(object(vec![("name", text("   ")), ("description", JsonValue::Bool(true))]));
    assert_eq!(doc.name().unwrap_err().message(), "invalid workflow name: must not be empty");
    assert_eq!(doc.description().unwrap_err().message(), "workflow document is missing description");
    assert_eq!(doc.slice_details().unwrap_err().message(), "workflow document is missing steps");
    assert_eq!(doc.transitions().unwrap_err().message(), "workflow document is missing steps");
}

#[test]
fn workflow_steps_become_slice_details_with_main_as_the_default_relationship() {
    let doc = document(object(vec![(
        "steps",
        JsonValue::Array(vec![
            step("capture-ticket", vec![]),
            object(vec![
                ("slice", text("review-ticket")),
                ("name", text("Review ticket")),
                ("type", text("state_view")),
                ("description", text("Reviews a ticket.")),
                ("relationship", text("branch")),
            ]),
        ]),
    )]));
    let details = doc.slice_details().unwrap();
    assert_eq!(details.len(), 2);
    assert_eq!(details[0].slug.as_str(), "capture-ticket");
    assert_eq!(details[0].kind.as_str(), "state_change");
    assert_eq!(details[0].relationship.as_str(), "main");
    assert_eq!(details[1].name.as_str(), "Review ticket");
    assert_eq!(details[1].relationship.as_str(), "branch");
}

#[test]
fn the_first_invalid_step_field_is_reported() {
    let doc = document(object(vec![(
        "steps",
        JsonValue::Array(vec![
            object(vec![("slice", text("a")), ("name", text("A"))]),
            object(vec![("name", text("B"))]),
        ]),
    )]));
    assert_eq!(doc.slice_details().unwrap_err().message(), "workflow step is missing type");

    let doc = document(object(vec![(
        "steps",
        JsonValue::Array(vec![object(vec![
            ("slice", text("a")),
            ("name", text("A")),
            ("type", text("spreadsheet")),
            ("description", text("A.")),
        ])]),
    )]));
    assert_eq!(doc.slice_details().unwrap_err().message(), "invalid slice kind: is not a modeled term");

    let doc = document(object(vec![(
        "steps",
        JsonValue::Array(vec![object(vec![
            ("slice", text("a")),
            ("name", text("A")),
            ("type", text("automation")),
            ("description", text("A.")),
            ("relationship", text("optional")),
        ])]),
    )]));
    assert_eq!(
        doc.slice_details().unwrap_err().message(),
        "invalid workflow step relationship: is not a modeled term"
    );
}

#[test]
fn transitions_take_the_first_trigger_and_exits_keep_their_reason() {
    let doc = document(object(vec![(
        "steps",
        JsonValue::Array(vec![
            step(
                "capture-ticket",
                vec![
                    object(vec![
                        ("to", text("review-ticket")),
                        ("via_outcome", text("Captured")),
                        ("via_command", text("SubmitTicket")),
                        ("payload_contract", text("TicketPayload")),
                    ]),
                    object(vec![("to", text("nowhere"))]),
                    object(vec![
                        ("to_workflow", text("close-ticket")),
                        ("via_navigation", text("Close")),
                        ("exit_reason", text("Ticket is done.")),
                        ("payload_contract", text("Ignored")),
                    ]),
                ],
            ),
            object(vec![("transitions", JsonValue::Array(vec![object(vec![
                ("to", text("x")),
                ("via_event", text("E")),
            ])]))]),
        ]),
    )]));
    let transitions = doc.transitions().unwrap();
    assert_eq!(transitions.len(), 2);
    assert_eq!(transitions[0].source.as_str(), "capture-ticket");
    assert_eq!(transitions[0].target.as_str(), "review-ticket");
    assert_eq!(transitions[0].kind.as_str(), "command");
    assert_eq!(transitions[0].trigger.as_str(), "SubmitTicket");
    assert_eq!(transitions[0].payload_contract.as_ref().unwrap().as_str(), "TicketPayload");
    assert!(transitions[0].rationale.is_none());
    assert_eq!(transitions[1].target.as_str(), "close-ticket");
    assert_eq!(transitions[1].kind.as_str(), "workflow_exit:navigation");
    assert_eq!(transitions[1].rationale.as_ref().unwrap().as_str(), "Ticket is done.");
    assert!(transitions[1].payload_contract.is_none());
}

#[test]
fn an_exit_reason_on_a_step_transition_is_not_a_modeled_kind() {
    let doc = document(object(vec![(
        "steps",
        JsonValue::Array(vec![step(
            "capture-ticket",
            vec![object(vec![("to", text("review-ticket")), ("exit_reason", text("Because."))])],
        )]),
    )]));
    assert_eq!(
        doc.transitions().unwrap_err().message(),
        "invalid workflow transition kind: is not a modeled term"
    );
}

#[test]
fn blank_transition_values_are_refused_in_order() {
    let doc = document(object(vec![(
        "steps",
        JsonValue::Array(vec![step(
            "capture-ticket",
            vec![object(vec![("to", text(" ")), ("via_command", text(" "))])],
        )]),
    )]));
    assert_eq!(
        doc.transitions().unwrap_err().message(),
        "invalid workflow transition target: must not be empty"
    );
    let doc = document(object(vec![(
        "steps",
        JsonValue::Array(vec![step(
            "capture-ticket",
            vec![object(vec![
                ("to", text("b")),
                ("via_command", text("Go")),
                ("payload_contract", text("  ")),
            ])],
        )]),
    )]));
    assert_eq!(doc.transitions().unwrap_err().message(), "invalid payload contract: must not be empty");
}

#[test]
fn workflow_document_text_is_read_as_json_first() {
    let error = WorkflowDocument::parse("{ not json").unwrap_err();
    assert!(error.message().starts_with("invalid workflow JSON: "));
    assert_eq!(
        WorkflowDocument::parse("[1, 2]").unwrap_err().message(),
        "workflow document must be a JSON object"
    );
    let doc = WorkflowDocument::parse(r#"{"name": " Open ticket ", "steps": [{"slice": "a", "transitions": [{"to": "b", "via_event": "E"}]}], "n": 1.5}"#).unwrap();
    assert_eq!(doc.name().unwrap().as_str(), "Open ticket");
    assert_eq!(doc.transitions().unwrap()[0].kind.as_str(), "event");
    assert!(WorkflowDocument::parse_optional("null").unwrap().is_none());
    assert!(WorkflowDocument::parse_optional("{}").unwrap().is_some());
    assert!(WorkflowDocument::parse_optional("").unwrap_err().message().starts_with("invalid workflow JSON: "));
}

#[test]
fn slice_files_are_the_string_items_of_the_list() {
    let doc = document(object(vec![(
        "slice_files",
        JsonValue::Array(vec![text(" slices/capture.eventmodel.json "), JsonValue::Null, text("slices/review.eventmodel.json")]),
    )]));
    let files = doc.slice_files().unwrap();
    assert_eq!(files.len(), 2);
    assert_eq!(files[0].as_str(), "slices/capture.eventmodel.json");
    assert_eq!(files[1].as_str(), "slices/review.eventmodel.json");
    assert_eq!(doc.optional_slice_files().unwrap().unwrap().len(), 2);
}

#[test]
fn missing_or_blank_slice_files_are_reported() {
    let doc = document(object(vec![("slice_files", text("not a list"))]));
    assert!(doc.optional_slice_files().unwrap().is_none());
    assert_eq!(doc.slice_files().unwrap_err().message(), "workflow document is missing slice_files");
    let doc = document(object(vec![("slice_files", JsonValue::Array(vec![text("a"), text("  ")]))]));
    assert_eq!(
        doc.slice_files().unwrap_err().message(),
        "invalid workflow slice file reference: must not be empty"
    );
}
