use emc::event_model_files::{
    event_model_file_kind, event_model_files, invalid_referenced_slice_file, is_event_model_file_name,
    issue_in_target, missing_referenced_slice_file,
};
use emc::validation::model::EventModelFileKind;

#[test]
fn files_in_a_slices_directory_are_slice_files() {
    assert_eq!(event_model_file_kind("model/slices/capture.eventmodel.json"), EventModelFileKind::Slice);
    assert_eq!(event_model_file_kind("slices/capture.eventmodel.json"), EventModelFileKind::Slice);
    assert_eq!(event_model_file_kind("/srv/model/slices//capture.json"), EventModelFileKind::Slice);
    assert_eq!(event_model_file_kind("./slices/./capture.json"), EventModelFileKind::Slice);
}

#[test]
fn other_files_are_workflow_files() {
    assert_eq!(event_model_file_kind("model/open-ticket.eventmodel.json"), EventModelFileKind::Workflow);
    assert_eq!(event_model_file_kind("open-ticket.eventmodel.json"), EventModelFileKind::Workflow);
    assert_eq!(event_model_file_kind(""), EventModelFileKind::Workflow);
    assert_eq!(event_model_file_kind("slices"), EventModelFileKind::Workflow);
    assert_eq!(event_model_file_kind("model/slices-old/a.json"), EventModelFileKind::Workflow);
    assert_eq!(event_model_file_kind("slices/../a.json"), EventModelFileKind::Workflow);
}

#[test]
fn event_model_files_are_picked_out_of_a_listing_in_order() {
    let names: Vec<String> = ["z.eventmodel.json", "notes.md", "a.eventmodel.json", "b.eventmodel.json.bak", "m.eventmodel.json"]
        .iter()
        .map(|s| (*s).to_owned())
        .collect();
    assert_eq!(event_model_files(&names), vec!["a.eventmodel.json", "m.eventmodel.json", "z.eventmodel.json"]);
    assert!(is_event_model_file_name(".eventmodel.json"));
    assert!(!is_event_model_file_name("eventmodel.json"));
}

#[test]
fn problems_are_reported_with_where_they_were_found() {
    assert_eq!(issue_in_target("missing explicit board", "model"), "missing explicit board in model");
    assert_eq!(
        missing_referenced_slice_file("model/slices/a.eventmodel.json", "model/w.eventmodel.json"),
        "missing referenced slice file model/slices/a.eventmodel.json in model/w.eventmodel.json"
    );
    assert_eq!(
        invalid_referenced_slice_file("s.json", "missing explicit board"),
        "referenced slice file s.json is invalid: missing explicit board"
    );
}
