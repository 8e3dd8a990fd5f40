//! Rules on views: the command errors their controls handle and where their
//! navigation leads.

use vstd::prelude::*;

use crate::validation::find::{
    first_issue_with, first_with, into_result, issue_of, issue_view, msg1, msg3, msg5,
};
use crate::validation::lists::{command_def, command_definition};
use crate::validation::model::{
    BoardReadModelCommandDependency, ControlCommandErrorHandling, ControlErrorRecoveryBehavior,
    EventModelDocument, NavigationType, SliceDefinition, SliceType, ViewControlDefinition,
    ViewDefinition,
};
use crate::validation::names::{contains_name, has_name, DefinitionName, ValidationIssue};

verus! {

// ---- controls handle the errors of the commands they invoke ----

/// Whether the control declares handling for the error `e`.
pub open spec fn handles_error(control: ViewControlDefinition, e: Seq<char>) -> bool {
    exists|i: int|
        0 <= i < control.command_error_handling@.len()
            && (#[trigger] control.command_error_handling@[i]).error_name@ == e
}

fn control_handles_command_error(control: &ViewControlDefinition, e: &DefinitionName) -> (r: bool)
    ensures
        r == handles_error(*control, e@),
{
    let handling = &control.command_error_handling;
    let mut i: usize = 0;
    while i < handling.len()
        invariant
            i <= handling@.len(),
            handling@ == control.command_error_handling@,
            forall|j: int| 0 <= j < i ==> (#[trigger] handling@[j]).error_name@ != e@,
        decreases handling.len() - i,
    {
        if handling[i].error_name.same_as(e) {
            return true;
        }
        i = i + 1;
    }
    false
}

pub open spec fn control_unhandled_error() -> spec_fn(ViewControlDefinition, DefinitionName) -> Option<
    Seq<char>,
> {
    |control: ViewControlDefinition, e: DefinitionName|
        if handles_error(control, e@) {
            None
        } else {
            Some(
                "control '"@ + control.label@ + "' does not handle command error '"@ + e@ + "'"@,
            )
        }
}

pub open spec fn control_with_unhandled_error() -> spec_fn(EventModelDocument, ViewControlDefinition) -> Option<
    Seq<char>,
> {
    |doc: EventModelDocument, control: ViewControlDefinition|
        match control.command {
            Some(command) => match command_def(doc, command@) {
                Some(def) => first_with(control, def.errors@, control_unhandled_error()),
                None => None,
            },
            None => None,
        }
}

pub open spec fn view_with_unhandled_error() -> spec_fn(EventModelDocument, ViewDefinition) -> Option<
    Seq<char>,
> {
    |doc: EventModelDocument, view: ViewDefinition|
        first_with(doc, view.controls@, control_with_unhandled_error())
}

pub open spec fn control_error_handling_issue(doc: EventModelDocument) -> Option<Seq<char>> {
    first_with(doc, doc.view_definitions@, view_with_unhandled_error())
}

fn check_control_error(control: &ViewControlDefinition, e: &DefinitionName) -> (r: Option<
    ValidationIssue,
>)
    ensures
        issue_view(r) == control_unhandled_error()(*control, *e),
{
    if control_handles_command_error(control, e) {
        None
    } else {
        Some(
            msg5(
                "control '",
                control.label.as_str(),
                "' does not handle command error '",
                e.as_str(),
                "'",
            ),
        )
    }
}

fn check_control_errors(doc: &EventModelDocument, control: &ViewControlDefinition) -> (r: Option<
    ValidationIssue,
>)
    ensures
        issue_view(r) == control_with_unhandled_error()(*doc, *control),
{
    match &control.command {
        Some(command) => match command_definition(doc, command) {
            Some(def) => first_issue_with(
                control,
                &def.errors,
                check_control_error,
                Ghost(control_unhandled_error()),
            ),
            None => None,
        },
        None => None,
    }
}

fn check_view_errors(doc: &EventModelDocument, view: &ViewDefinition) -> (r: Option<ValidationIssue>)
    ensures
        issue_view(r) == view_with_unhandled_error()(*doc, *view),
{
    first_issue_with(doc, &view.controls, check_control_errors, Ghost(control_with_unhandled_error()))
}

pub fn validate_control_command_error_handling(doc: &EventModelDocument) -> (r: Result<
    (),
    ValidationIssue,
>)
    ensures
        issue_of(r) == control_error_handling_issue(*doc),
{
    into_result(
        first_issue_with(doc, &doc.view_definitions, check_view_errors, Ghost(view_with_unhandled_error())),
    )
}

// ---- error handling describes recovery ----

pub open spec fn handling_without_recovery() -> spec_fn(EventModelDocument, ControlCommandErrorHandling) -> Option<
    Seq<char>,
> {
    |doc: EventModelDocument, handling: ControlCommandErrorHandling|
        if handling.recovery_behavior == ControlErrorRecoveryBehavior::Missing {
            Some(
                "error handling for '"@ + handling.error_name@ + "' must describe recovery behavior"@,
            )
        } else {
            None
        }
}

pub open spec fn control_without_recovery() -> spec_fn(EventModelDocument, ViewControlDefinition) -> Option<
    Seq<char>,
> {
    |doc: EventModelDocument, control: ViewControlDefinition|
        first_with(doc, control.command_error_handling@, handling_without_recovery())
}

pub open spec fn view_without_recovery() -> spec_fn(EventModelDocument, ViewDefinition) -> Option<
    Seq<char>,
> {
    |doc: EventModelDocument, view: ViewDefinition|
        first_with(doc, view.controls@, control_without_recovery())
}

pub open spec fn recovery_issue(doc: EventModelDocument) -> Option<Seq<char>> {
    first_with(doc, doc.view_definitions@, view_without_recovery())
}

fn check_handling_recovery(doc: &EventModelDocument, handling: &ControlCommandErrorHandling) -> (r:
    Option<ValidationIssue>)
    ensures
        issue_view(r) == handling_without_recovery()(*doc, *handling),
{
    if handling.recovery_behavior == ControlErrorRecoveryBehavior::Missing {
        Some(
            msg3(
                "error handling for '",
                handling.error_name.as_str(),
                "' must describe recovery behavior",
            ),
        )
    } else {
        None
    }
}

fn check_control_recovery(doc: &EventModelDocument, control: &ViewControlDefinition) -> (r: Option<
    ValidationIssue,
>)
    ensures
        issue_view(r) == control_without_recovery()(*doc, *control),
{
    first_issue_with(
        doc,
        &control.command_error_handling,
        check_handling_recovery,
        Ghost(handling_without_recovery()),
    )
}

fn check_view_recovery(doc: &EventModelDocument, view: &ViewDefinition) -> (r: Option<ValidationIssue>)
    ensures
        issue_view(r) == view_without_recovery()(*doc, *view),
{
    first_issue_with(doc, &view.controls, check_control_recovery, Ghost(control_without_recovery()))
}

pub fn validate_control_error_handling_recovery(doc: &EventModelDocument) -> (r: Result<
    (),
    ValidationIssue,
>)
    ensures
        issue_of(r) == recovery_issue(*doc),
{
    into_result(
        first_issue_with(doc, &doc.view_definitions, check_view_recovery, Ghost(view_without_recovery())),
    )
}

// ---- navigation declarations are complete ----

/// Ways a control's navigation can be incompletely declared.
#[derive(Debug, Clone, Copy, PartialEq, Eq, Structural)]
pub enum NavigationFault {
    /// A navigation target without a navigation type.
    Unclassified,
    /// External workflow navigation without a target workflow.
    NoWorkflowTarget,
    /// External system navigation without the system or the payload contract.
    NoExternalSystem,
}

pub open spec fn has_fault(control: ViewControlDefinition, fault: NavigationFault) -> bool {
    match fault {
        NavigationFault::Unclassified => control.navigation_target is Some && control.navigation_type
            == NavigationType::Absent,
        NavigationFault::NoWorkflowTarget => control.navigation_type
            == NavigationType::ExternalWorkflow && control.workflow_target is None,
        NavigationFault::NoExternalSystem => control.navigation_type
            == NavigationType::ExternalSystem && (control.external_system is None
            || control.payload_contract is None),
    }
}

pub open spec fn fault_message(fault: NavigationFault) -> Seq<char> {
    match fault {
        NavigationFault::Unclassified => "navigation target must be classified as modeled_view, local_view_state, external_system, or external_workflow"@,
        NavigationFault::NoWorkflowTarget => "external workflow navigation must name the target workflow"@,
        NavigationFault::NoExternalSystem => "external system navigation must name the external system and returned payload contract"@,
    }
}

fn control_has_fault(control: &ViewControlDefinition, fault: NavigationFault) -> (r: bool)
    ensures
        r == has_fault(*control, fault),
{
    match fault {
        NavigationFault::Unclassified => control.navigation_target.is_some()
            && control.navigation_type == NavigationType::Absent,
        NavigationFault::NoWorkflowTarget => control.navigation_type
            == NavigationType::ExternalWorkflow && control.workflow_target.is_none(),
        NavigationFault::NoExternalSystem => control.navigation_type
            == NavigationType::ExternalSystem && (control.external_system.is_none()
            || control.payload_contract.is_none()),
    }
}

fn fault_text(fault: NavigationFault) -> (r: &'static str)
    ensures
        r@ == fault_message(fault),
{
    match fault {
        NavigationFault::Unclassified => "navigation target must be classified as modeled_view, local_view_state, external_system, or external_workflow",
        NavigationFault::NoWorkflowTarget => "external workflow navigation must name the target workflow",
        NavigationFault::NoExternalSystem => "external system navigation must name the external system and returned payload contract",
    }
}

pub open spec fn faulty_control() -> spec_fn(NavigationFault, ViewControlDefinition) -> Option<
    Seq<char>,
> {
    |fault: NavigationFault, control: ViewControlDefinition|
        if has_fault(control, fault) {
            Some(fault_message(fault))
        } else {
            None
        }
}

pub open spec fn view_with_faulty_control() -> spec_fn(NavigationFault, ViewDefinition) -> Option<
    Seq<char>,
> {
    |fault: NavigationFault, view: ViewDefinition| first_with(fault, view.controls@, faulty_control())
}

/// The first control, over the document's views, with the navigation fault.
pub open spec fn navigation_fault_issue(doc: EventModelDocument, fault: NavigationFault) -> Option<
    Seq<char>,
> {
    first_with(fault, doc.view_definitions@, view_with_faulty_control())
}

fn check_control_fault(fault: &NavigationFault, control: &ViewControlDefinition) -> (r: Option<
    ValidationIssue,
>)
    ensures
        issue_view(r) == faulty_control()(*fault, *control),
{
    if control_has_fault(control, *fault) {
        Some(msg1(fault_text(*fault)))
    } else {
        None
    }
}

fn check_view_fault(fault: &NavigationFault, view: &ViewDefinition) -> (r: Option<ValidationIssue>)
    ensures
        issue_view(r) == view_with_faulty_control()(*fault, *view),
{
    first_issue_with(fault, &view.controls, check_control_fault, Ghost(faulty_control()))
}

fn first_navigation_fault(doc: &EventModelDocument, fault: NavigationFault) -> (r: Result<
    (),
    ValidationIssue,
>)
    ensures
        issue_of(r) == navigation_fault_issue(*doc, fault),
{
    into_result(
        first_issue_with(&fault, &doc.view_definitions, check_view_fault, Ghost(view_with_faulty_control())),
    )
}

pub fn validate_navigation_controls_declare_type(doc: &EventModelDocument) -> (r: Result<
    (),
    ValidationIssue,
>)
    ensures
        issue_of(r) == navigation_fault_issue(*doc, NavigationFault::Unclassified),
{
    first_navigation_fault(doc, NavigationFault::Unclassified)
}

pub fn validate_external_workflow_navigation_targets(doc: &EventModelDocument) -> (r: Result<
    (),
    ValidationIssue,
>)
    ensures
        issue_of(r) == navigation_fault_issue(*doc, NavigationFault::NoWorkflowTarget),
{
    first_navigation_fault(doc, NavigationFault::NoWorkflowTarget)
}

pub fn validate_external_system_navigation_targets(doc: &EventModelDocument) -> (r: Result<
    (),
    ValidationIssue,
>)
    ensures
        issue_of(r) == navigation_fault_issue(*doc, NavigationFault::NoExternalSystem),
{
    first_navigation_fault(doc, NavigationFault::NoExternalSystem)
}

// ---- navigation targets exist ----

/// Whether the document defines a view named `n`.
pub open spec fn view_exists(doc: EventModelDocument, n: Seq<char>) -> bool {
    exists|i: int| 0 <= i < doc.view_definitions@.len() && (#[trigger] doc.view_definitions@[i]).name@ == n
}

pub fn view_is_defined(doc: &EventModelDocument, n: &DefinitionName) -> (r: bool)
    ensures
        r == view_exists(*doc, n@),
{
    let views = &doc.view_definitions;
    let mut i: usize = 0;
    while i < views.len()
        invariant
            i <= views@.len(),
            views@ == doc.view_definitions@,
            forall|j: int| 0 <= j < i ==> (#[trigger] views@[j]).name@ != n@,
        decreases views.len() - i,
    {
        if views[i].name.same_as(n) {
            return true;
        }
        i = i + 1;
    }
    false
}

pub open spec fn unknown_modeled_target() -> spec_fn(EventModelDocument, ViewControlDefinition) -> Option<
    Seq<char>,
> {
    |doc: EventModelDocument, control: ViewControlDefinition|
        if control.navigation_type == NavigationType::ModeledView {
            match control.navigation_target {
                Some(t) => if view_exists(doc, t@) {
                    None
                } else {
                    Some("references unknown modeled view navigation target '"@ + t@ + "'"@)
                },
                None => None,
            }
        } else {
            None
        }
}

pub open spec fn view_with_unknown_target() -> spec_fn(EventModelDocument, ViewDefinition) -> Option<
    Seq<char>,
> {
    |doc: EventModelDocument, view: ViewDefinition| first_with(doc, view.controls@, unknown_modeled_target())
}

pub open spec fn modeled_target_issue(doc: EventModelDocument) -> Option<Seq<char>> {
    first_with(doc, doc.view_definitions@, view_with_unknown_target())
}

fn check_modeled_target(doc: &EventModelDocument, control: &ViewControlDefinition) -> (r: Option<
    ValidationIssue,
>)
    ensures
        issue_view(r) == unknown_modeled_target()(*doc, *control),
{
    if control.navigation_type == NavigationType::ModeledView {
        match &control.navigation_target {
            Some(t) => {
                if view_is_defined(doc, t) {
                    None
                } else {
                    Some(msg3("references unknown modeled view navigation target '", t.as_str(), "'"))
                }
            },
            None => None,
        }
    } else {
        None
    }
}

fn check_view_modeled_targets(doc: &EventModelDocument, view: &ViewDefinition) -> (r: Option<
    ValidationIssue,
>)
    ensures
        issue_view(r) == view_with_unknown_target()(*doc, *view),
{
    first_issue_with(doc, &view.controls, check_modeled_target, Ghost(unknown_modeled_target()))
}

pub fn validate_modeled_view_navigation_targets(doc: &EventModelDocument) -> (r: Result<
    (),
    ValidationIssue,
>)
    ensures
        issue_of(r) == modeled_target_issue(*doc),
{
    into_result(
        first_issue_with(
            doc,
            &doc.view_definitions,
            check_view_modeled_targets,
            Ghost(view_with_unknown_target()),
        ),
    )
}

pub open spec fn undeclared_local_state() -> spec_fn(ViewDefinition, ViewControlDefinition) -> Option<
    Seq<char>,
> {
    |view: ViewDefinition, control: ViewControlDefinition|
        if control.navigation_type == NavigationType::LocalViewState {
            match control.navigation_target {
                Some(t) => if has_name(view.local_states@, t@) {
                    None
                } else {
                    Some(
                        "local view state navigation target '"@ + t@ + "' is not declared by view '"@
                            + view.name@ + "'"@,
                    )
                },
                None => None,
            }
        } else {
            None
        }
}

pub open spec fn view_with_undeclared_local_state() -> spec_fn(EventModelDocument, ViewDefinition) -> Option<
    Seq<char>,
> {
    |doc: EventModelDocument, view: ViewDefinition| first_with(view, view.controls@, undeclared_local_state())
}

pub open spec fn local_state_issue(doc: EventModelDocument) -> Option<Seq<char>> {
    first_with(doc, doc.view_definitions@, view_with_undeclared_local_state())
}

fn check_local_state(view: &ViewDefinition, control: &ViewControlDefinition) -> (r: Option<
    ValidationIssue,
>)
    ensures
        issue_view(r) == undeclared_local_state()(*view, *control),
{
    if control.navigation_type == NavigationType::LocalViewState {
        match &control.navigation_target {
            Some(t) => {
                if contains_name(&view.local_states, t) {
                    None
                } else {
                    Some(
                        msg5(
                            "local view state navigation target '",
                            t.as_str(),
                            "' is not declared by view '",
                            view.name.as_str(),
                            "'",
                        ),
                    )
                }
            },
            None => None,
        }
    } else {
        None
    }
}

fn check_view_local_states(doc: &EventModelDocument, view: &ViewDefinition) -> (r: Option<
    ValidationIssue,
>)
    ensures
        issue_view(r) == view_with_undeclared_local_state()(*doc, *view),
{
    first_issue_with(view, &view.controls, check_local_state, Ghost(undeclared_local_state()))
}

pub fn validate_local_view_state_navigation_targets(doc: &EventModelDocument) -> (r: Result<
    (),
    ValidationIssue,
>)
    ensures
        issue_of(r) == local_state_issue(*doc),
{
    into_result(
        first_issue_with(
            doc,
            &doc.view_definitions,
            check_view_local_states,
            Ghost(view_with_undeclared_local_state()),
        ),
    )
}

// ---- board read-model-to-command steps go through automations ----

/// Whether an automation slice of the document is named `n`.
pub open spec fn automation_slice_named(doc: EventModelDocument, n: Seq<char>) -> bool {
    exists|i: int|
        0 <= i < doc.slice_definitions@.len() && (#[trigger] doc.slice_definitions@[i]).slice_type
            == SliceType::Automation && doc.slice_definitions@[i].name@ == n
}

pub fn automation_slice_exists(doc: &EventModelDocument, n: &DefinitionName) -> (r: bool)
    ensures
        r == automation_slice_named(*doc, n@),
{
    let slices = &doc.slice_definitions;
    let mut i: usize = 0;
    while i < slices.len()
        invariant
            i <= slices@.len(),
            slices@ == doc.slice_definitions@,
            forall|j: int|
                0 <= j < i ==> !((#[trigger] slices@[j]).slice_type == SliceType::Automation
                    && slices@[j].name@ == n@),
        decreases slices.len() - i,
    {
        if slices[i].slice_type == SliceType::Automation && slices[i].name.same_as(n) {
            return true;
        }
        i = i + 1;
    }
    false
}

pub open spec fn dependency_without_automation() -> spec_fn(EventModelDocument, BoardReadModelCommandDependency) -> Option<
    Seq<char>,
> {
    |doc: EventModelDocument, dep: BoardReadModelCommandDependency|
        if automation_slice_named(doc, dep.intermediate_automation@) {
            None
        } else {
            Some(
                "board element between read model '"@ + dep.read_model@ + "' and command '"@
                    + dep.command@ + "' is not a declared automation"@,
            )
        }
}

pub open spec fn intermediate_issue(doc: EventModelDocument) -> Option<Seq<char>> {
    first_with(doc, doc.board_read_model_command_dependencies@, dependency_without_automation())
}

fn check_dependency(doc: &EventModelDocument, dep: &BoardReadModelCommandDependency) -> (r: Option<
    ValidationIssue,
>)
    ensures
        issue_view(r) == dependency_without_automation()(*doc, *dep),
{
    if automation_slice_exists(doc, &dep.intermediate_automation) {
        None
    } else {
        Some(
            msg5(
                "board element between read model '",
                dep.read_model.as_str(),
                "' and command '",
                dep.command.as_str(),
                "' is not a declared automation",
            ),
        )
    }
}

pub fn validate_board_read_model_to_command_intermediates(doc: &EventModelDocument) -> (r: Result<
    (),
    ValidationIssue,
>)
    ensures
        issue_of(r) == intermediate_issue(*doc),
{
    into_result(
        first_issue_with(
            doc,
            &doc.board_read_model_command_dependencies,
            check_dependency,
            Ghost(dependency_without_automation()),
        ),
    )
}

} // verus!
