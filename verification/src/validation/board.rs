//! Looking into a board slice: elements by id, the names they stand for,
//! their kinds, and the slugs that tie board slices to workflow steps.

use vstd::prelude::*;

use crate::dto::{slug_of, slugify};
use crate::text::trim;
use crate::validation::find::{first_with, lemma_first_with_step};
use crate::validation::model::{BoardElement, BoardElementKind, BoardGraphConnection, BoardSliceGraph};
use crate::validation::names::DefinitionName;

verus! {

pub open spec fn element_with_id() -> spec_fn(Seq<char>, BoardElement) -> Option<BoardElement> {
    |id: Seq<char>, e: BoardElement|
        if e.id@ == id {
            Some(e)
        } else {
            None
        }
}

/// The first element of the board slice with the id `id`.
pub open spec fn element_by_id(board: BoardSliceGraph, id: Seq<char>) -> Option<BoardElement> {
    first_with(id, board.elements@, element_with_id())
}

/// The kind of the first element with the id `id`.
pub open spec fn kind_by_id(board: BoardSliceGraph, id: Seq<char>) -> Option<BoardElementKind> {
    match element_by_id(board, id) {
        Some(e) => Some(e.kind),
        None => None,
    }
}

pub fn board_element_by_id<'a>(board: &'a BoardSliceGraph, id: &DefinitionName) -> (r: Option<
    &'a BoardElement,
>)
    ensures
        match r {
            Some(e) => element_by_id(*board, id@) == Some(*e),
            None => element_by_id(*board, id@) is None,
        },
{
    let v = &board.elements;
    let mut i: usize = 0;
    assert(v@.subrange(0, v@.len() as int) =~= v@);
    while i < v.len()
        invariant
            i <= v@.len(),
            v@ == board.elements@,
            element_by_id(*board, id@) == first_with(
                id@,
                v@.subrange(i as int, v@.len() as int),
                element_with_id(),
            ),
        decreases v.len() - i,
    {
        proof {
            lemma_first_with_step(id@, v@, element_with_id(), i as int);
        }
        if v[i].id.same_as(id) {
            return Some(&v[i]);
        }
        i = i + 1;
    }
    assert(v@.subrange(i as int, v@.len() as int) =~= Seq::<BoardElement>::empty());
    None
}

pub fn board_element_kind_by_id(board: &BoardSliceGraph, id: &DefinitionName) -> (r: Option<
    BoardElementKind,
>)
    ensures
        r == kind_by_id(*board, id@),
{
    match board_element_by_id(board, id) {
        Some(e) => Some(e.kind),
        None => None,
    }
}

/// The name an element stands for: its name, else its id.
pub open spec fn element_name(e: BoardElement) -> Seq<char> {
    match e.name {
        Some(n) => n@,
        None => e.id@,
    }
}

pub fn board_element_definition_name(e: &BoardElement) -> (r: &DefinitionName)
    ensures
        r@ == element_name(*e),
{
    match &e.name {
        Some(n) => n,
        None => &e.id,
    }
}

pub open spec fn kind_label(kind: BoardElementKind) -> Seq<char> {
    match kind {
        BoardElementKind::Automation => "automation"@,
        BoardElementKind::Command => "command"@,
        BoardElementKind::Event => "event"@,
        BoardElementKind::ExternalEvent => "external_event"@,
        BoardElementKind::Other => "other"@,
        BoardElementKind::ReadModel => "read_model"@,
        BoardElementKind::View => "view"@,
    }
}

pub fn board_element_kind_label(kind: BoardElementKind) -> (r: &'static str)
    ensures
        r@ == kind_label(kind),
{
    match kind {
        BoardElementKind::Automation => "automation",
        BoardElementKind::Command => "command",
        BoardElementKind::Event => "event",
        BoardElementKind::ExternalEvent => "external_event",
        BoardElementKind::Other => "other",
        BoardElementKind::ReadModel => "read_model",
        BoardElementKind::View => "view",
    }
}

/// Whether `name` slugifies to `slug`.
pub open spec fn slug_matches(name: Seq<char>, slug: Seq<char>) -> bool {
    trim(slugify(name)).len() > 0 && trim(slugify(name)) == slug
}

/// Whether `name` slugifies to `slug`.
pub fn name_has_slug(name: &DefinitionName, slug: &DefinitionName) -> (r: bool)
    ensures
        r == slug_matches(name@, slug@),
{
    match DefinitionName::try_new(slug_of(name.as_str())) {
        Some(s) => s.same_as(slug),
        None => false,
    }
}

/// Whether the board slice's name slugifies to `slug`.
pub open spec fn has_slug(board: BoardSliceGraph, slug: Seq<char>) -> bool {
    slug_matches(board.name@, slug)
}

pub fn board_slice_has_slug(board: &BoardSliceGraph, slug: &DefinitionName) -> (r: bool)
    ensures
        r == has_slug(*board, slug@),
{
    name_has_slug(&board.name, slug)
}

/// Whether some connection leads into `id` from an element of kind `from`
/// (`incoming`), or out of `id` to an element of kind `from` (otherwise).
pub open spec fn linked(board: BoardSliceGraph, id: Seq<char>, kind: BoardElementKind, incoming: bool) -> bool {
    exists|i: int|
        0 <= i < board.connections@.len() && #[trigger] link_at(board, board.connections@[i], id, kind, incoming)
}

pub open spec fn link_at(
    board: BoardSliceGraph,
    c: BoardGraphConnection,
    id: Seq<char>,
    kind: BoardElementKind,
    incoming: bool,
) -> bool {
    if incoming {
        c.to@ == id && kind_by_id(board, c.from@) == Some(kind)
    } else {
        c.from@ == id && kind_by_id(board, c.to@) == Some(kind)
    }
}

pub fn board_linked(board: &BoardSliceGraph, id: &DefinitionName, kind: BoardElementKind, incoming: bool) -> (r:
    bool)
    ensures
        r == linked(*board, id@, kind, incoming),
{
    let conns = &board.connections;
    let mut i: usize = 0;
    while i < conns.len()
        invariant
            i <= conns@.len(),
            conns@ == board.connections@,
            forall|j: int| 0 <= j < i ==> !#[trigger] link_at(*board, conns@[j], id@, kind, incoming),
        decreases conns.len() - i,
    {
        let c = &conns[i];
        let hit = if incoming {
            c.to.same_as(id) && board_element_kind_by_id(board, &c.from) == Some(kind)
        } else {
            c.from.same_as(id) && board_element_kind_by_id(board, &c.to) == Some(kind)
        };
        if hit {
            assert(link_at(*board, conns@[i as int], id@, kind, incoming));
            return true;
        }
        i = i + 1;
    }
    false
}

} // verus!
