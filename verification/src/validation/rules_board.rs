//! Rules on the board: its lanes, the elements on them, what they reference,
//! and how they are connected.

use vstd::prelude::*;

use crate::validation::board::{
    board_element_by_id, board_element_definition_name, board_element_kind_by_id,
    board_element_kind_label, board_linked, board_slice_has_slug, element_by_id, element_name,
    has_slug, kind_by_id, kind_label, linked,
};
use crate::validation::find::{
    first_issue_with, first_issue_with2, first_with, into_result, issue_of, issue_view,
    lemma_first_with_step, msg1, msg3, msg5, msg7, msg8, or_else,
};
use crate::validation::lists::{
    command_def, command_definition, read_model_def, read_model_definition, view_def,
    view_definition,
};
use crate::validation::model::{
    BoardElement, BoardElementKind, BoardGraphConnection, BoardLane, BoardLanes, BoardSliceGraph,
    DefinitionKind, EventModelDocument, NamedDefinition, ReadModelFieldSource, SliceType,
    WorkflowStepTrigger,
};
use crate::validation::names::{contains_name, has_name, DefinitionName, ValidationIssue};
use crate::validation::rules_views::{automation_slice_named, automation_slice_exists};

verus! {

// ---- lanes ----

pub open spec fn canonical_lane_id(id: Seq<char>) -> bool {
    id == "ux"@ || id == "actions"@ || id == "events"@
}

pub open spec fn canonical_lane_name(id: Seq<char>) -> Option<Seq<char>> {
    if id == "ux"@ {
        Some("People, Views, and Translations"@)
    } else if id == "actions"@ {
        Some("Commands and Projections"@)
    } else if id == "events"@ {
        Some("Stored Facts"@)
    } else {
        None
    }
}

pub open spec fn has_lane(lanes: Seq<BoardLane>, id: Seq<char>) -> bool {
    exists|i: int| 0 <= i < lanes.len() && (#[trigger] lanes[i]).id@ == id
}

pub open spec fn repeats_lane(lanes: Seq<BoardLane>, i: int) -> bool {
    exists|j: int| 0 <= j < i && (#[trigger] lanes[j]).id@ == lanes[i].id@
}

/// The id of the first lane, from position `i` on, that repeats an earlier id.
pub open spec fn first_repeated_lane(lanes: Seq<BoardLane>, i: nat) -> Option<Seq<char>>
    decreases lanes.len() - i,
{
    if i >= lanes.len() {
        None
    } else if repeats_lane(lanes, i as int) {
        Some(lanes[i as int].id@)
    } else {
        first_repeated_lane(lanes, i + 1)
    }
}

pub open spec fn lane_missing(lanes: Seq<BoardLane>, id: Seq<char>) -> Option<Seq<char>> {
    if has_lane(lanes, id) {
        None
    } else {
        Some("board lanes must include canonical lane '"@ + id + "'"@)
    }
}

pub open spec fn misnamed_lane() -> spec_fn(EventModelDocument, BoardLane) -> Option<Seq<char>> {
    |doc: EventModelDocument, lane: BoardLane|
        match canonical_lane_name(lane.id@) {
            Some(c) => match lane.name {
                Some(n) => if n@ != c {
                    Some("board lane '"@ + lane.id@ + "' must be named '"@ + c + "'"@)
                } else {
                    None
                },
                None => None,
            },
            None => None,
        }
}

/// The lane rules: ids are canonical, unique and complete, and canonical
/// lanes carry their canonical names.
pub open spec fn lanes_issue(doc: EventModelDocument, lanes: Seq<BoardLane>) -> Option<Seq<char>> {
    if exists|i: int| 0 <= i < lanes.len() && !canonical_lane_id(#[trigger] lanes[i].id@) {
        Some("board lanes must be exactly ux, actions, and events"@)
    } else {
        match first_repeated_lane(lanes, 0) {
            Some(id) => Some("board lane id '"@ + id + "' is duplicated"@),
            None => or_else(
                lane_missing(lanes, "ux"@),
                or_else(
                    lane_missing(lanes, "actions"@),
                    or_else(lane_missing(lanes, "events"@), first_with(doc, lanes, misnamed_lane())),
                ),
            ),
        }
    }
}

pub open spec fn board_lane_issue(doc: EventModelDocument) -> Option<Seq<char>> {
    match doc.board_lanes {
        BoardLanes::Present(lanes) => lanes_issue(doc, lanes@),
        BoardLanes::Absent => None,
    }
}

fn lane_present(lanes: &Vec<BoardLane>, id: &str) -> (r: bool)
    ensures
        r == has_lane(lanes@, id@),
{
    let mut i: usize = 0;
    while i < lanes.len()
        invariant
            i <= lanes@.len(),
            forall|j: int| 0 <= j < i ==> (#[trigger] lanes@[j]).id@ != id@,
        decreases lanes.len() - i,
    {
        if lanes[i].id.is_text(id) {
            return true;
        }
        i = i + 1;
    }
    false
}

fn check_lane_present(lanes: &Vec<BoardLane>, id: &str) -> (r: Option<ValidationIssue>)
    ensures
        issue_view(r) == lane_missing(lanes@, id@),
{
    if lane_present(lanes, id) {
        None
    } else {
        Some(msg3("board lanes must include canonical lane '", id, "'"))
    }
}

fn canonical_board_lane_name(id: &DefinitionName) -> (r: Option<&'static str>)
    ensures
        match r {
            Some(c) => canonical_lane_name(id@) == Some(c@),
            None => canonical_lane_name(id@) is None,
        },
{
    if id.is_text("ux") {
        Some("People, Views, and Translations")
    } else if id.is_text("actions") {
        Some("Commands and Projections")
    } else if id.is_text("events") {
        Some("Stored Facts")
    } else {
        None
    }
}

fn check_lane_name(doc: &EventModelDocument, lane: &BoardLane) -> (r: Option<ValidationIssue>)
    ensures
        issue_view(r) == misnamed_lane()(*doc, *lane),
{
    match canonical_board_lane_name(&lane.id) {
        Some(c) => match &lane.name {
            Some(n) => {
                if !n.is_text(c) {
                    Some(msg5("board lane '", lane.id.as_str(), "' must be named '", c, "'"))
                } else {
                    None
                }
            },
            None => None,
        },
        None => None,
    }
}

fn lanes_repeat_at(lanes: &Vec<BoardLane>, i: usize) -> (r: bool)
    requires
        i < lanes@.len(),
    ensures
        r == repeats_lane(lanes@, i as int),
{
    let mut j: usize = 0;
    while j < i
        invariant
            i < lanes@.len(),
            j <= i,
            forall|k: int| 0 <= k < j ==> (#[trigger] lanes@[k]).id@ != lanes@[i as int].id@,
        decreases i - j,
    {
        if lanes[j].id.same_as(&lanes[i].id) {
            return true;
        }
        j = j + 1;
    }
    false
}

fn duplicated_board_lane_id(lanes: &Vec<BoardLane>) -> (r: Option<&DefinitionName>)
    ensures
        match r {
            Some(id) => first_repeated_lane(lanes@, 0) == Some(id@),
            None => first_repeated_lane(lanes@, 0) is None,
        },
{
    let mut i: usize = 0;
    while i < lanes.len()
        invariant
            i <= lanes@.len(),
            first_repeated_lane(lanes@, 0) == first_repeated_lane(lanes@, i as nat),
        decreases lanes.len() - i,
    {
        if lanes_repeat_at(lanes, i) {
            assert(first_repeated_lane(lanes@, i as nat) == Some(lanes@[i as int].id@));
            return Some(&lanes[i].id);
        }
        i = i + 1;
    }
    None
}

fn check_lanes(doc: &EventModelDocument, lanes: &Vec<BoardLane>) -> (r: Result<(), ValidationIssue>)
    ensures
        issue_of(r) == lanes_issue(*doc, lanes@),
{
    let mut i: usize = 0;
    while i < lanes.len()
        invariant
            i <= lanes@.len(),
            forall|j: int| 0 <= j < i ==> canonical_lane_id(#[trigger] lanes@[j].id@),
        decreases lanes.len() - i,
    {
        let id = &lanes[i].id;
        if !(id.is_text("ux") || id.is_text("actions") || id.is_text("events")) {
            return Err(msg1("board lanes must be exactly ux, actions, and events"));
        }
        i = i + 1;
    }
    match duplicated_board_lane_id(lanes) {
        Some(id) => {
            return Err(msg3("board lane id '", id.as_str(), "' is duplicated"));
        },
        None => {},
    }
    let o = check_lane_present(lanes, "ux");
    if o.is_some() {
        return into_result(o);
    }
    let o = check_lane_present(lanes, "actions");
    if o.is_some() {
        return into_result(o);
    }
    let o = check_lane_present(lanes, "events");
    if o.is_some() {
        return into_result(o);
    }
    into_result(first_issue_with(doc, lanes, check_lane_name, Ghost(misnamed_lane())))
}

pub fn validate_board_lane_ids(doc: &EventModelDocument) -> (r: Result<(), ValidationIssue>)
    ensures
        issue_of(r) == board_lane_issue(*doc),
{
    match &doc.board_lanes {
        BoardLanes::Present(lanes) => check_lanes(doc, lanes),
        BoardLanes::Absent => Ok(()),
    }
}

// ---- elements sit on the lane of their kind ----

pub open spec fn expected_lane(kind: BoardElementKind) -> Option<Seq<char>> {
    match kind {
        BoardElementKind::Automation | BoardElementKind::ExternalEvent | BoardElementKind::View => Some(
            "ux"@,
        ),
        BoardElementKind::Command | BoardElementKind::ReadModel => Some("actions"@),
        BoardElementKind::Event => Some("events"@),
        BoardElementKind::Other => None,
    }
}

fn expected_board_element_lane(kind: BoardElementKind) -> (r: Option<&'static str>)
    ensures
        match r {
            Some(l) => expected_lane(kind) == Some(l@),
            None => expected_lane(kind) is None,
        },
{
    match kind {
        BoardElementKind::Automation | BoardElementKind::ExternalEvent | BoardElementKind::View => Some(
            "ux",
        ),
        BoardElementKind::Command | BoardElementKind::ReadModel => Some("actions"),
        BoardElementKind::Event => Some("events"),
        BoardElementKind::Other => None,
    }
}

pub open spec fn element_off_lane() -> spec_fn(EventModelDocument, BoardElement) -> Option<Seq<char>> {
    |doc: EventModelDocument, e: BoardElement|
        match expected_lane(e.kind) {
            Some(x) => match e.lane {
                Some(l) => if l@ != x {
                    Some(
                        "board element '"@ + e.id@ + "' of kind '"@ + kind_label(e.kind)
                            + "' must be on lane '"@ + x + "'"@,
                    )
                } else {
                    None
                },
                None => None,
            },
            None => None,
        }
}

pub open spec fn board_off_lane() -> spec_fn(EventModelDocument, BoardSliceGraph) -> Option<Seq<char>> {
    |doc: EventModelDocument, board: BoardSliceGraph| first_with(doc, board.elements@, element_off_lane())
}

pub open spec fn element_lane_issue(doc: EventModelDocument) -> Option<Seq<char>> {
    first_with(doc, doc.board_slices@, board_off_lane())
}

fn check_element_lane(doc: &EventModelDocument, e: &BoardElement) -> (r: Option<ValidationIssue>)
    ensures
        issue_view(r) == element_off_lane()(*doc, *e),
{
    match expected_board_element_lane(e.kind) {
        Some(x) => match &e.lane {
            Some(l) => {
                if !l.is_text(x) {
                    Some(
                        msg7(
                            "board element '",
                            e.id.as_str(),
                            "' of kind '",
                            board_element_kind_label(e.kind),
                            "' must be on lane '",
                            x,
                            "'",
                        ),
                    )
                } else {
                    None
                }
            },
            None => None,
        },
        None => None,
    }
}

fn check_board_lanes(doc: &EventModelDocument, board: &BoardSliceGraph) -> (r: Option<ValidationIssue>)
    ensures
        issue_view(r) == board_off_lane()(*doc, *board),
{
    first_issue_with(doc, &board.elements, check_element_lane, Ghost(element_off_lane()))
}

pub fn validate_board_element_lanes(doc: &EventModelDocument) -> (r: Result<(), ValidationIssue>)
    ensures
        issue_of(r) == element_lane_issue(*doc),
{
    into_result(first_issue_with(doc, &doc.board_slices, check_board_lanes, Ghost(board_off_lane())))
}

// ---- elements reference known definitions ----

pub open spec fn reference_kind(kind: BoardElementKind) -> Option<DefinitionKind> {
    match kind {
        BoardElementKind::Command => Some(DefinitionKind::Command),
        BoardElementKind::Event => Some(DefinitionKind::Event),
        BoardElementKind::ReadModel => Some(DefinitionKind::ReadModel),
        BoardElementKind::View => Some(DefinitionKind::View),
        _ => None,
    }
}

fn board_element_reference_definition_kind(kind: BoardElementKind) -> (r: Option<DefinitionKind>)
    ensures
        r == reference_kind(kind),
{
    match kind {
        BoardElementKind::Command => Some(DefinitionKind::Command),
        BoardElementKind::Event => Some(DefinitionKind::Event),
        BoardElementKind::ReadModel => Some(DefinitionKind::ReadModel),
        BoardElementKind::View => Some(DefinitionKind::View),
        _ => None,
    }
}

/// Whether the document names a definition of kind `kind` and name `n`.
pub open spec fn defines(doc: EventModelDocument, kind: DefinitionKind, n: Seq<char>) -> bool {
    exists|i: int|
        0 <= i < doc.named_definitions@.len() && (#[trigger] doc.named_definitions@[i]).kind == kind
            && doc.named_definitions@[i].name@ == n
}

fn is_defined(doc: &EventModelDocument, kind: DefinitionKind, n: &DefinitionName) -> (r: bool)
    ensures
        r == defines(*doc, kind, n@),
{
    let defs = &doc.named_definitions;
    let mut i: usize = 0;
    while i < defs.len()
        invariant
            i <= defs@.len(),
            defs@ == doc.named_definitions@,
            forall|j: int| 0 <= j < i ==> !((#[trigger] defs@[j]).kind == kind && defs@[j].name@ == n@),
        decreases defs.len() - i,
    {
        if defs[i].kind == kind && defs[i].name.same_as(n) {
            return true;
        }
        i = i + 1;
    }
    false
}

pub open spec fn element_unknown_reference() -> spec_fn(EventModelDocument, BoardElement) -> Option<
    Seq<char>,
> {
    |doc: EventModelDocument, e: BoardElement|
        match reference_kind(e.kind) {
            Some(k) => match e.name {
                Some(n) => if defines(doc, k, n@) {
                    None
                } else {
                    Some(
                        "board element '"@ + e.id@ + "' references unknown "@ + kind_label(e.kind)
                            + " '"@ + n@ + "'"@,
                    )
                },
                None => None,
            },
            None => None,
        }
}

pub open spec fn board_unknown_reference() -> spec_fn(EventModelDocument, BoardSliceGraph) -> Option<
    Seq<char>,
> {
    |doc: EventModelDocument, board: BoardSliceGraph|
        first_with(doc, board.elements@, element_unknown_reference())
}

pub open spec fn element_reference_issue(doc: EventModelDocument) -> Option<Seq<char>> {
    first_with(doc, doc.board_slices@, board_unknown_reference())
}

fn check_element_reference(doc: &EventModelDocument, e: &BoardElement) -> (r: Option<ValidationIssue>)
    ensures
        issue_view(r) == element_unknown_reference()(*doc, *e),
{
    match board_element_reference_definition_kind(e.kind) {
        Some(k) => match &e.name {
            Some(n) => {
                if is_defined(doc, k, n) {
                    None
                } else {
                    Some(
                        msg7(
                            "board element '",
                            e.id.as_str(),
                            "' references unknown ",
                            board_element_kind_label(e.kind),
                            " '",
                            n.as_str(),
                            "'",
                        ),
                    )
                }
            },
            None => None,
        },
        None => None,
    }
}

fn check_board_references(doc: &EventModelDocument, board: &BoardSliceGraph) -> (r: Option<
    ValidationIssue,
>)
    ensures
        issue_view(r) == board_unknown_reference()(*doc, *board),
{
    first_issue_with(doc, &board.elements, check_element_reference, Ghost(element_unknown_reference()))
}

pub fn validate_board_element_references(doc: &EventModelDocument) -> (r: Result<(), ValidationIssue>)
    ensures
        issue_of(r) == element_reference_issue(*doc),
{
    into_result(
        first_issue_with(doc, &doc.board_slices, check_board_references, Ghost(board_unknown_reference())),
    )
}

// ---- automation and external-event elements ----

/// Whether a translation slice of the document declares the external
/// trigger `n`.
pub open spec fn declared_external_event(doc: EventModelDocument, n: Seq<char>) -> bool {
    exists|i: int|
        0 <= i < doc.slice_definitions@.len() && (#[trigger] doc.slice_definitions@[i]).slice_type
            == SliceType::Translation && has_name(doc.slice_definitions@[i].external_triggers@, n)
}

pub fn declared_external_event_name(doc: &EventModelDocument, n: &DefinitionName) -> (r: bool)
    ensures
        r == declared_external_event(*doc, n@),
{
    let slices = &doc.slice_definitions;
    let mut i: usize = 0;
    while i < slices.len()
        invariant
            i <= slices@.len(),
            slices@ == doc.slice_definitions@,
            forall|j: int|
                0 <= j < i ==> !((#[trigger] slices@[j]).slice_type == SliceType::Translation
                    && has_name(slices@[j].external_triggers@, n@)),
        decreases slices.len() - i,
    {
        if slices[i].slice_type == SliceType::Translation && contains_name(
            &slices[i].external_triggers,
            n,
        ) {
            return true;
        }
        i = i + 1;
    }
    false
}

/// Ways an automation or external-event element can fail to be declared.
#[derive(Debug, Clone, Copy, PartialEq, Eq, Structural)]
pub enum ElementFault {
    /// A named automation element with no automation slice of that name.
    UnknownAutomation,
    /// An automation element that stands for a declared external event.
    ExternalEventAsAutomation,
    /// An unnamed automation element with no automation slice of its id.
    UndeclaredUnnamedAutomation,
    /// A named external-event element that no translation declares.
    UnknownExternalEvent,
}

pub open spec fn element_fault_message(doc: EventModelDocument, e: BoardElement, fault: ElementFault) -> Option<
    Seq<char>,
> {
    match fault {
        ElementFault::UnknownAutomation => if e.kind == BoardElementKind::Automation {
            match e.name {
                Some(n) => if automation_slice_named(doc, n@) {
                    None
                } else {
                    Some(
                        "board element '"@ + e.id@ + "' references unknown automation '"@ + n@
                            + "'"@,
                    )
                },
                None => None,
            }
        } else {
            None
        },
        ElementFault::ExternalEventAsAutomation => if e.kind == BoardElementKind::Automation
            && declared_external_event(doc, element_name(e)) {
            Some(
                "external event '"@ + element_name(e) + "' must not be modeled as automation"@,
            )
        } else {
            None
        },
        ElementFault::UndeclaredUnnamedAutomation => if e.kind == BoardElementKind::Automation
            && e.name is None && !automation_slice_named(doc, e.id@) {
            Some(
                "automation board element '"@ + e.id@
                    + "' is not declared by an automation slice"@,
            )
        } else {
            None
        },
        ElementFault::UnknownExternalEvent => if e.kind == BoardElementKind::ExternalEvent {
            match e.name {
                Some(n) => if declared_external_event(doc, n@) {
                    None
                } else {
                    Some(
                        "board element '"@ + e.id@ + "' references unknown external_event '"@
                            + n@ + "'"@,
                    )
                },
                None => None,
            }
        } else {
            None
        },
    }
}

pub open spec fn faulty_element() -> spec_fn((EventModelDocument, ElementFault), BoardElement) -> Option<
    Seq<char>,
> {
    |c: (EventModelDocument, ElementFault), e: BoardElement| element_fault_message(c.0, e, c.1)
}

pub open spec fn board_faulty_element() -> spec_fn((EventModelDocument, ElementFault), BoardSliceGraph) -> Option<
    Seq<char>,
> {
    |c: (EventModelDocument, ElementFault), board: BoardSliceGraph|
        first_with(c, board.elements@, faulty_element())
}

/// The first element, over the board slices, with the given fault.
pub open spec fn element_fault_issue(doc: EventModelDocument, fault: ElementFault) -> Option<
    Seq<char>,
> {
    first_with((doc, fault), doc.board_slices@, board_faulty_element())
}

fn check_element_fault(doc: &EventModelDocument, fault: &ElementFault, e: &BoardElement) -> (r: Option<
    ValidationIssue,
>)
    ensures
        issue_view(r) == faulty_element()((*doc, *fault), *e),
{
    match *fault {
        ElementFault::UnknownAutomation => {
            if e.kind == BoardElementKind::Automation {
                match &e.name {
                    Some(n) => {
                        if automation_slice_exists(doc, n) {
                            None
                        } else {
                            Some(
                                msg5(
                                    "board element '",
                                    e.id.as_str(),
                                    "' references unknown automation '",
                                    n.as_str(),
                                    "'",
                                ),
                            )
                        }
                    },
                    None => None,
                }
            } else {
                None
            }
        },
        ElementFault::ExternalEventAsAutomation => {
            if e.kind == BoardElementKind::Automation && declared_external_event_name(
                doc,
                board_element_definition_name(e),
            ) {
                Some(
                    msg3(
                        "external event '",
                        board_element_definition_name(e).as_str(),
                        "' must not be modeled as automation",
                    ),
                )
            } else {
                None
            }
        },
        ElementFault::UndeclaredUnnamedAutomation => {
            if e.kind == BoardElementKind::Automation && e.name.is_none()
                && !automation_slice_exists(doc, &e.id) {
                Some(
                    msg3(
                        "automation board element '",
                        e.id.as_str(),
                        "' is not declared by an automation slice",
                    ),
                )
            } else {
                None
            }
        },
        ElementFault::UnknownExternalEvent => {
            if e.kind == BoardElementKind::ExternalEvent {
                match &e.name {
                    Some(n) => {
                        if declared_external_event_name(doc, n) {
                            None
                        } else {
                            Some(
                                msg5(
                                    "board element '",
                                    e.id.as_str(),
                                    "' references unknown external_event '",
                                    n.as_str(),
                                    "'",
                                ),
                            )
                        }
                    },
                    None => None,
                }
            } else {
                None
            }
        },
    }
}

fn check_board_fault(doc: &EventModelDocument, fault: &ElementFault, board: &BoardSliceGraph) -> (r:
    Option<ValidationIssue>)
    ensures
        issue_view(r) == board_faulty_element()((*doc, *fault), *board),
{
    first_issue_with2(doc, fault, &board.elements, check_element_fault, Ghost(faulty_element()))
}

fn first_element_fault(doc: &EventModelDocument, fault: ElementFault) -> (r: Result<
    (),
    ValidationIssue,
>)
    ensures
        issue_of(r) == element_fault_issue(*doc, fault),
{
    into_result(first_issue_with2(doc, &fault, &doc.board_slices, check_board_fault, Ghost(board_faulty_element())))
}

pub fn validate_board_automation_references(doc: &EventModelDocument) -> (r: Result<
    (),
    ValidationIssue,
>)
    ensures
        issue_of(r) == element_fault_issue(*doc, ElementFault::UnknownAutomation),
{
    first_element_fault(doc, ElementFault::UnknownAutomation)
}

pub fn validate_external_events_not_modeled_as_automation(doc: &EventModelDocument) -> (r: Result<
    (),
    ValidationIssue,
>)
    ensures
        issue_of(r) == element_fault_issue(*doc, ElementFault::ExternalEventAsAutomation),
{
    first_element_fault(doc, ElementFault::ExternalEventAsAutomation)
}

pub fn validate_unnamed_board_automation_references(doc: &EventModelDocument) -> (r: Result<
    (),
    ValidationIssue,
>)
    ensures
        issue_of(r) == element_fault_issue(*doc, ElementFault::UndeclaredUnnamedAutomation),
{
    first_element_fault(doc, ElementFault::UndeclaredUnnamedAutomation)
}

pub fn validate_board_external_event_references(doc: &EventModelDocument) -> (r: Result<
    (),
    ValidationIssue,
>)
    ensures
        issue_of(r) == element_fault_issue(*doc, ElementFault::UnknownExternalEvent),
{
    first_element_fault(doc, ElementFault::UnknownExternalEvent)
}

} // verus!
