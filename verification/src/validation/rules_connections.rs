//! Rules on how board elements are connected: causal connection kinds,
//! triggers of commands, and connections backed by the model.

use vstd::prelude::*;

use crate::validation::board::{
    board_element_by_id, board_element_definition_name, board_element_kind_by_id,
    board_element_kind_label, board_linked, board_slice_has_slug, element_by_id, element_name,
    has_slug, kind_by_id, kind_label, linked,
};
use crate::validation::find::{
    first_issue_with2, first_issue_with3, first_with, into_result, issue_of, issue_view, msg3, msg5, msg9,
};
use crate::validation::lists::{command_def, command_definition, read_model_def, read_model_definition, view_def, view_definition};
use crate::validation::model::{
    BoardElement, BoardElementKind, BoardGraphConnection, BoardSliceGraph, CommandDefinition,
    EventModelDocument, ReadModelDefinition, ReadModelField, ReadModelFieldSource,
    ViewControlDefinition, ViewDefinition, WorkflowStepTrigger,
};
use crate::validation::names::{contains_name, has_name, DefinitionName, ValidationIssue};
use crate::validation::rules_board::{declared_external_event, declared_external_event_name};

verus! {

// ---- facts about a board slice and the model ----

/// Whether connections from `from` to `to` kinds follow cause to effect.
pub open spec fn causal(from: BoardElementKind, to: BoardElementKind) -> bool {
    match (from, to) {
        (BoardElementKind::Automation, BoardElementKind::Command) => true,
        (BoardElementKind::Command, BoardElementKind::Event) => true,
        (BoardElementKind::Event, BoardElementKind::Automation) => true,
        (BoardElementKind::Event, BoardElementKind::ReadModel) => true,
        (BoardElementKind::ExternalEvent, BoardElementKind::Command) => true,
        (BoardElementKind::ReadModel, BoardElementKind::Automation) => true,
        (BoardElementKind::ReadModel, BoardElementKind::View) => true,
        (BoardElementKind::View, BoardElementKind::Command) => true,
        _ => false,
    }
}

fn board_connection_kind_is_causal(from: BoardElementKind, to: BoardElementKind) -> (r: bool)
    ensures
        r == causal(from, to),
{
    match (from, to) {
        (BoardElementKind::Automation, BoardElementKind::Command) => true,
        (BoardElementKind::Command, BoardElementKind::Event) => true,
        (BoardElementKind::Event, BoardElementKind::Automation) => true,
        (BoardElementKind::Event, BoardElementKind::ReadModel) => true,
        (BoardElementKind::ExternalEvent, BoardElementKind::Command) => true,
        (BoardElementKind::ReadModel, BoardElementKind::Automation) => true,
        (BoardElementKind::ReadModel, BoardElementKind::View) => true,
        (BoardElementKind::View, BoardElementKind::Command) => true,
        _ => false,
    }
}

/// Whether a workflow step with a trigger composes the board slice.
pub open spec fn has_workflow_trigger(doc: EventModelDocument, board: BoardSliceGraph) -> bool {
    exists|i: int|
        0 <= i < doc.workflow_steps@.len() && (#[trigger] doc.workflow_steps@[i]).trigger
            == WorkflowStepTrigger::Present && has_slug(board, doc.workflow_steps@[i].slice@)
}

fn board_slice_has_explicit_workflow_trigger(doc: &EventModelDocument, board: &BoardSliceGraph) -> (r:
    bool)
    ensures
        r == has_workflow_trigger(*doc, *board),
{
    let steps = &doc.workflow_steps;
    let mut i: usize = 0;
    while i < steps.len()
        invariant
            i <= steps@.len(),
            steps@ == doc.workflow_steps@,
            forall|j: int|
                0 <= j < i ==> !((#[trigger] steps@[j]).trigger == WorkflowStepTrigger::Present
                    && has_slug(*board, steps@[j].slice@)),
        decreases steps.len() - i,
    {
        if steps[i].trigger == WorkflowStepTrigger::Present && board_slice_has_slug(board, &steps[i].slice) {
            return true;
        }
        i = i + 1;
    }
    false
}

/// Whether an automation, external event or view leads into element `id`.
pub open spec fn has_trigger_link(board: BoardSliceGraph, id: Seq<char>) -> bool {
    linked(board, id, BoardElementKind::Automation, true) || linked(
        board,
        id,
        BoardElementKind::ExternalEvent,
        true,
    ) || linked(board, id, BoardElementKind::View, true)
}

/// Whether the command named `c` declares that it produces the event `e`.
pub open spec fn command_produces(doc: EventModelDocument, c: Seq<char>, e: Seq<char>) -> bool {
    match command_def(doc, c) {
        Some(def) => has_name(def.produces@, e),
        None => false,
    }
}

fn command_produces_event(doc: &EventModelDocument, c: &DefinitionName, e: &DefinitionName) -> (r: bool)
    ensures
        r == command_produces(*doc, c@, e@),
{
    match command_definition(doc, c) {
        Some(def) => contains_name(&def.produces, e),
        None => false,
    }
}

pub open spec fn field_sources_event(field: ReadModelField, e: Seq<char>) -> bool {
    match field.source {
        ReadModelFieldSource::EventAttribute(source_event, _) => source_event@ == e,
        _ => false,
    }
}

/// Whether the read model named `m` has a field sourced from event `e`.
pub open spec fn read_model_projects(doc: EventModelDocument, m: Seq<char>, e: Seq<char>) -> bool {
    match read_model_def(doc, m) {
        Some(def) => exists|i: int|
            0 <= i < def.fields@.len() && field_sources_event(#[trigger] def.fields@[i], e),
        None => false,
    }
}

fn read_model_projects_event(doc: &EventModelDocument, m: &DefinitionName, e: &DefinitionName) -> (r:
    bool)
    ensures
        r == read_model_projects(*doc, m@, e@),
{
    match read_model_definition(doc, m) {
        Some(def) => {
            let fields = &def.fields;
            let mut i: usize = 0;
            while i < fields.len()
                invariant
                    i <= fields@.len(),
                    fields@ == def.fields@,
                    read_model_def(*doc, m@) == Some(*def),
                    forall|j: int| 0 <= j < i ==> !field_sources_event(#[trigger] fields@[j], e@),
                decreases fields.len() - i,
            {
                let hit = match &fields[i].source {
                    ReadModelFieldSource::EventAttribute(source_event, _) => source_event.same_as(e),
                    _ => false,
                };
                if hit {
                    assert(field_sources_event(fields@[i as int], e@));
                    return true;
                }
                i = i + 1;
            }
            false
        },
        None => false,
    }
}

pub open spec fn control_invokes(control: ViewControlDefinition, c: Seq<char>) -> bool {
    match control.command {
        Some(x) => x@ == c,
        None => false,
    }
}

/// Whether a control of the view invokes the command `c`.
pub open spec fn view_invokes(view: ViewDefinition, c: Seq<char>) -> bool {
    exists|i: int| 0 <= i < view.controls@.len() && control_invokes(#[trigger] view.controls@[i], c)
}

pub fn view_invokes_command(view: &ViewDefinition, c: &DefinitionName) -> (r: bool)
    ensures
        r == view_invokes(*view, c@),
{
    let controls = &view.controls;
    let mut i: usize = 0;
    while i < controls.len()
        invariant
            i <= controls@.len(),
            controls@ == view.controls@,
            forall|j: int| 0 <= j < i ==> !control_invokes(#[trigger] controls@[j], c@),
        decreases controls.len() - i,
    {
        let hit = match &controls[i].command {
            Some(x) => x.same_as(c),
            None => false,
        };
        if hit {
            return true;
        }
        i = i + 1;
    }
    false
}

/// Whether the view named `v` has a control invoking command `c`.
pub open spec fn view_named_invokes(doc: EventModelDocument, v: Seq<char>, c: Seq<char>) -> bool {
    match view_def(doc, v) {
        Some(view) => view_invokes(view, c),
        None => false,
    }
}

fn view_invokes_board_command(doc: &EventModelDocument, v: &DefinitionName, c: &DefinitionName) -> (r:
    bool)
    ensures
        r == view_named_invokes(*doc, v@, c@),
{
    match view_definition(doc, v) {
        Some(view) => view_invokes_command(view, c),
        None => false,
    }
}

// ---- rules over the elements of each board slice ----

/// Ways an element of a board slice can be unsupported by its connections.
#[derive(Debug, Clone, Copy, PartialEq, Eq, Structural)]
pub enum LinkFault {
    /// An undeclared external event bridging a read model to a command.
    UndeclaredBridge,
    /// A command with no incoming trigger.
    UntriggeredCommand,
    /// A read model feeding a view with no incoming event.
    ReadModelWithoutUpdate,
}

pub open spec fn link_fault_message(
    doc: EventModelDocument,
    board: BoardSliceGraph,
    e: BoardElement,
    fault: LinkFault,
) -> Option<Seq<char>> {
    match fault {
        LinkFault::UndeclaredBridge => if e.kind == BoardElementKind::ExternalEvent
            && !declared_external_event(doc, element_name(e)) && linked(
            board,
            e.id@,
            BoardElementKind::ReadModel,
            true,
        ) && linked(board, e.id@, BoardElementKind::Command, false) {
            Some("board element '"@ + e.id@ + "' is not declared"@)
        } else {
            None
        },
        LinkFault::UntriggeredCommand => if e.kind == BoardElementKind::Command
            && !has_workflow_trigger(doc, board) && !has_trigger_link(board, e.id@) {
            Some("command board element '"@ + e.id@ + "' has no incoming trigger"@)
        } else {
            None
        },
        LinkFault::ReadModelWithoutUpdate => if e.kind == BoardElementKind::ReadModel && linked(
            board,
            e.id@,
            BoardElementKind::View,
            false,
        ) && !linked(board, e.id@, BoardElementKind::Event, true) {
            Some("read_model board element '"@ + e.id@ + "' has no incoming event/update"@)
        } else {
            None
        },
    }
}

pub open spec fn faulty_link() -> spec_fn((EventModelDocument, BoardSliceGraph, LinkFault), BoardElement) -> Option<
    Seq<char>,
> {
    |c: (EventModelDocument, BoardSliceGraph, LinkFault), e: BoardElement|
        link_fault_message(c.0, c.1, e, c.2)
}

pub open spec fn board_faulty_link() -> spec_fn((EventModelDocument, LinkFault), BoardSliceGraph) -> Option<
    Seq<char>,
> {
    |c: (EventModelDocument, LinkFault), board: BoardSliceGraph|
        first_with((c.0, board, c.1), board.elements@, faulty_link())
}

/// The first element, over the board slices, with the given fault.
pub open spec fn link_fault_issue(doc: EventModelDocument, fault: LinkFault) -> Option<Seq<char>> {
    first_with((doc, fault), doc.board_slices@, board_faulty_link())
}

fn check_link_fault(doc: &EventModelDocument, board: &BoardSliceGraph, fault: &LinkFault, e: &BoardElement) -> (r:
    Option<ValidationIssue>)
    ensures
        issue_view(r) == faulty_link()((*doc, *board, *fault), *e),
{
    match *fault {
        LinkFault::UndeclaredBridge => {
            if e.kind == BoardElementKind::ExternalEvent && !declared_external_event_name(
                doc,
                board_element_definition_name(e),
            ) && board_linked(board, &e.id, BoardElementKind::ReadModel, true) && board_linked(
                board,
                &e.id,
                BoardElementKind::Command,
                false,
            ) {
                Some(msg3("board element '", e.id.as_str(), "' is not declared"))
            } else {
                None
            }
        },
        LinkFault::UntriggeredCommand => {
            if e.kind == BoardElementKind::Command && !board_slice_has_explicit_workflow_trigger(
                doc,
                board,
            ) && !(board_linked(board, &e.id, BoardElementKind::Automation, true) || board_linked(
                board,
                &e.id,
                BoardElementKind::ExternalEvent,
                true,
            ) || board_linked(board, &e.id, BoardElementKind::View, true)) {
                Some(msg3("command board element '", e.id.as_str(), "' has no incoming trigger"))
            } else {
                None
            }
        },
        LinkFault::ReadModelWithoutUpdate => {
            if e.kind == BoardElementKind::ReadModel && board_linked(
                board,
                &e.id,
                BoardElementKind::View,
                false,
            ) && !board_linked(board, &e.id, BoardElementKind::Event, true) {
                Some(
                    msg3(
                        "read_model board element '",
                        e.id.as_str(),
                        "' has no incoming event/update",
                    ),
                )
            } else {
                None
            }
        },
    }
}

fn check_board_links(doc: &EventModelDocument, fault: &LinkFault, board: &BoardSliceGraph) -> (r: Option<
    ValidationIssue,
>)
    ensures
        issue_view(r) == board_faulty_link()((*doc, *fault), *board),
{
    first_issue_with3(doc, board, fault, &board.elements, check_link_fault, Ghost(faulty_link()))
}

fn first_link_fault(doc: &EventModelDocument, fault: LinkFault) -> (r: Result<(), ValidationIssue>)
    ensures
        issue_of(r) == link_fault_issue(*doc, fault),
{
    into_result(first_issue_with2(doc, &fault, &doc.board_slices, check_board_links, Ghost(board_faulty_link())))
}

pub fn validate_undeclared_external_event_bridges(doc: &EventModelDocument) -> (r: Result<
    (),
    ValidationIssue,
>)
    ensures
        issue_of(r) == link_fault_issue(*doc, LinkFault::UndeclaredBridge),
{
    first_link_fault(doc, LinkFault::UndeclaredBridge)
}

pub fn validate_command_board_triggers(doc: &EventModelDocument) -> (r: Result<(), ValidationIssue>)
    ensures
        issue_of(r) == link_fault_issue(*doc, LinkFault::UntriggeredCommand),
{
    first_link_fault(doc, LinkFault::UntriggeredCommand)
}

pub fn validate_read_model_view_board_connections(doc: &EventModelDocument) -> (r: Result<
    (),
    ValidationIssue,
>)
    ensures
        issue_of(r) == link_fault_issue(*doc, LinkFault::ReadModelWithoutUpdate),
{
    first_link_fault(doc, LinkFault::ReadModelWithoutUpdate)
}

// ---- rules over the connections of each board slice ----

/// Ways a connection between two elements of a board slice can be wrong.
#[derive(Debug, Clone, Copy, PartialEq, Eq, Structural)]
pub enum ConnectionFault {
    /// The connection does not lead from cause to effect.
    NotCausal,
    /// A command connected to an event it does not produce.
    EventNotProduced,
    /// An event connected to a read model that does not project it.
    EventNotProjected,
    /// A view connected to a command that none of its controls invokes.
    CommandNotInvoked,
}

pub open spec fn connection_fault_message(
    doc: EventModelDocument,
    board: BoardSliceGraph,
    conn: BoardGraphConnection,
    fault: ConnectionFault,
) -> Option<Seq<char>> {
    match (element_by_id(board, conn.from@), element_by_id(board, conn.to@)) {
        (Some(a), Some(b)) => match fault {
            ConnectionFault::NotCausal => if causal(a.kind, b.kind) {
                None
            } else {
                Some(
                    "invalid board connection '"@ + conn.from@ + "' ("@ + kind_label(a.kind)
                        + ") -> '"@ + conn.to@ + "' ("@ + kind_label(b.kind) + ")"@,
                )
            },
            ConnectionFault::EventNotProduced => if a.kind == BoardElementKind::Command && b.kind
                == BoardElementKind::Event && !command_produces(
                doc,
                element_name(a),
                element_name(b),
            ) {
                Some(
                    "board connects command '"@ + element_name(a) + "' to event '"@ + element_name(b)
                        + "' that it does not produce"@,
                )
            } else {
                None
            },
            ConnectionFault::EventNotProjected => if a.kind == BoardElementKind::Event && b.kind
                == BoardElementKind::ReadModel && !read_model_projects(
                doc,
                element_name(b),
                element_name(a),
            ) {
                Some(
                    "board connects event '"@ + element_name(a) + "' to read model '"@
                        + element_name(b) + "' but the read model does not project that event"@,
                )
            } else {
                None
            },
            ConnectionFault::CommandNotInvoked => if a.kind == BoardElementKind::View && b.kind
                == BoardElementKind::Command && !view_named_invokes(
                doc,
                element_name(a),
                element_name(b),
            ) {
                Some(
                    "board connects view '"@ + element_name(a) + "' to command '"@ + element_name(b)
                        + "' without an owned control"@,
                )
            } else {
                None
            },
        },
        _ => None,
    }
}

pub open spec fn faulty_connection() -> spec_fn((EventModelDocument, BoardSliceGraph, ConnectionFault), BoardGraphConnection) -> Option<
    Seq<char>,
> {
    |c: (EventModelDocument, BoardSliceGraph, ConnectionFault), conn: BoardGraphConnection|
        connection_fault_message(c.0, c.1, conn, c.2)
}

pub open spec fn board_faulty_connection() -> spec_fn((EventModelDocument, ConnectionFault), BoardSliceGraph) -> Option<
    Seq<char>,
> {
    |c: (EventModelDocument, ConnectionFault), board: BoardSliceGraph|
        first_with((c.0, board, c.1), board.connections@, faulty_connection())
}

/// The first connection, over the board slices, with the given fault.
pub open spec fn connection_fault_issue(doc: EventModelDocument, fault: ConnectionFault) -> Option<
    Seq<char>,
> {
    first_with((doc, fault), doc.board_slices@, board_faulty_connection())
}

fn check_connection_fault(
    doc: &EventModelDocument,
    board: &BoardSliceGraph,
    fault: &ConnectionFault,
    conn: &BoardGraphConnection,
) -> (r: Option<ValidationIssue>)
    ensures
        issue_view(r) == faulty_connection()((*doc, *board, *fault), *conn),
{
    let a = match board_element_by_id(board, &conn.from) {
        Some(a) => a,
        None => {
            return None;
        },
    };
    let b = match board_element_by_id(board, &conn.to) {
        Some(b) => b,
        None => {
            return None;
        },
    };
    let an = board_element_definition_name(a);
    let bn = board_element_definition_name(b);
    match *fault {
        ConnectionFault::NotCausal => {
            if board_connection_kind_is_causal(a.kind, b.kind) {
                None
            } else {
                Some(
                    msg9(
                        "invalid board connection '",
                        conn.from.as_str(),
                        "' (",
                        board_element_kind_label(a.kind),
                        ") -> '",
                        conn.to.as_str(),
                        "' (",
                        board_element_kind_label(b.kind),
                        ")",
                    ),
                )
            }
        },
        ConnectionFault::EventNotProduced => {
            if a.kind == BoardElementKind::Command && b.kind == BoardElementKind::Event
                && !command_produces_event(doc, an, bn) {
                Some(
                    msg5(
                        "board connects command '",
                        an.as_str(),
                        "' to event '",
                        bn.as_str(),
                        "' that it does not produce",
                    ),
                )
            } else {
                None
            }
        },
        ConnectionFault::EventNotProjected => {
            if a.kind == BoardElementKind::Event && b.kind == BoardElementKind::ReadModel
                && !read_model_projects_event(doc, bn, an) {
                Some(
                    msg5(
                        "board connects event '",
                        an.as_str(),
                        "' to read model '",
                        bn.as_str(),
                        "' but the read model does not project that event",
                    ),
                )
            } else {
                None
            }
        },
        ConnectionFault::CommandNotInvoked => {
            if a.kind == BoardElementKind::View && b.kind == BoardElementKind::Command
                && !view_invokes_board_command(doc, an, bn) {
                Some(
                    msg5(
                        "board connects view '",
                        an.as_str(),
                        "' to command '",
                        bn.as_str(),
                        "' without an owned control",
                    ),
                )
            } else {
                None
            }
        },
    }
}

fn check_board_connections(doc: &EventModelDocument, fault: &ConnectionFault, board: &BoardSliceGraph) -> (r:
    Option<ValidationIssue>)
    ensures
        issue_view(r) == board_faulty_connection()((*doc, *fault), *board),
{
    first_issue_with3(doc, board, fault, &board.connections, check_connection_fault, Ghost(faulty_connection()))
}

fn first_connection_fault(doc: &EventModelDocument, fault: ConnectionFault) -> (r: Result<
    (),
    ValidationIssue,
>)
    ensures
        issue_of(r) == connection_fault_issue(*doc, fault),
{
    into_result(
        first_issue_with2(
            doc,
            &fault,
            &doc.board_slices,
            check_board_connections,
            Ghost(board_faulty_connection()),
        ),
    )
}

pub fn validate_board_connection_kinds(doc: &EventModelDocument) -> (r: Result<(), ValidationIssue>)
    ensures
        issue_of(r) == connection_fault_issue(*doc, ConnectionFault::NotCausal),
{
    first_connection_fault(doc, ConnectionFault::NotCausal)
}

pub fn validate_command_event_board_connections(doc: &EventModelDocument) -> (r: Result<
    (),
    ValidationIssue,
>)
    ensures
        issue_of(r) == connection_fault_issue(*doc, ConnectionFault::EventNotProduced),
{
    first_connection_fault(doc, ConnectionFault::EventNotProduced)
}

pub fn validate_event_read_model_board_connections(doc: &EventModelDocument) -> (r: Result<
    (),
    ValidationIssue,
>)
    ensures
        issue_of(r) == connection_fault_issue(*doc, ConnectionFault::EventNotProjected),
{
    first_connection_fault(doc, ConnectionFault::EventNotProjected)
}

pub fn validate_view_command_board_connections(doc: &EventModelDocument) -> (r: Result<
    (),
    ValidationIssue,
>)
    ensures
        issue_of(r) == connection_fault_issue(*doc, ConnectionFault::CommandNotInvoked),
{
    first_connection_fault(doc, ConnectionFault::CommandNotInvoked)
}

} // verus!
