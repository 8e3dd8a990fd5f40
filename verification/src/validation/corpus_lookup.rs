//! Looking across a corpus of documents: slices, views and board slices
//! found by name or slug, and searching the corpus for the first issue.

use vstd::prelude::*;

use crate::validation::board::{name_has_slug, slug_matches};
use crate::validation::find::{first_with, issue_view, lemma_first_with_step};
use crate::validation::lists::{view_def, view_definition};
use crate::validation::model::{BoardSliceGraph, EventModelDocument, SliceDefinition, ViewDefinition};
use crate::validation::names::{DefinitionName, ValidationIssue};

verus! {

/// The first issue that `f` reports, with the corpus as context, over the
/// items of `v`.
pub fn first_issue_in_corpus<A, F: Fn(&[EventModelDocument], &A) -> Option<ValidationIssue>>(
    docs: &[EventModelDocument],
    v: &[A],
    f: F,
    Ghost(sf): Ghost<spec_fn(Seq<EventModelDocument>, A) -> Option<Seq<char>>>,
) -> (r: Option<ValidationIssue>)
    requires
        forall|i: int| 0 <= i < v@.len() ==> call_requires(f, (docs, &v@[i])),
        forall|ds: &[EventModelDocument], a: &A, o: Option<ValidationIssue>|
            call_ensures(f, (ds, a), o) ==> issue_view(o) == sf(ds@, *a),
    ensures
        issue_view(r) == first_with(docs@, v@, sf),
{
    let mut i: usize = 0;
    assert(v@.subrange(0, v@.len() as int) =~= v@);
    while i < v.len()
        invariant
            i <= v@.len(),
            forall|k: int| 0 <= k < v@.len() ==> call_requires(f, (docs, &v@[k])),
            forall|ds: &[EventModelDocument], a: &A, o: Option<ValidationIssue>|
                call_ensures(f, (ds, a), o) ==> issue_view(o) == sf(ds@, *a),
            first_with(docs@, v@, sf) == first_with(docs@, v@.subrange(i as int, v@.len() as int), sf),
        decreases v.len() - i,
    {
        proof {
            lemma_first_with_step(docs@, v@, sf, i as int);
        }
        let o = f(docs, &v[i]);
        if o.is_some() {
            return o;
        }
        i = i + 1;
    }
    assert(v@.subrange(i as int, v@.len() as int) =~= Seq::<A>::empty());
    None
}

// ---- slices by slug ----

pub open spec fn slice_slugged() -> spec_fn(Seq<char>, SliceDefinition) -> Option<SliceDefinition> {
    |slug: Seq<char>, slice: SliceDefinition|
        if slug_matches(slice.name@, slug) {
            Some(slice)
        } else {
            None
        }
}

pub open spec fn doc_slice_slugged() -> spec_fn(Seq<char>, EventModelDocument) -> Option<SliceDefinition> {
    |slug: Seq<char>, doc: EventModelDocument| first_with(slug, doc.slice_definitions@, slice_slugged())
}

/// The first slice of the corpus whose name slugifies to `slug`.
pub open spec fn slice_by_slug(docs: Seq<EventModelDocument>, slug: Seq<char>) -> Option<SliceDefinition> {
    first_with(slug, docs, doc_slice_slugged())
}

fn slice_in_doc_by_slug<'a>(doc: &'a EventModelDocument, slug: &DefinitionName) -> (r: Option<
    &'a SliceDefinition,
>)
    ensures
        match r {
            Some(s) => doc_slice_slugged()(slug@, *doc) == Some(*s),
            None => doc_slice_slugged()(slug@, *doc) is None,
        },
{
    let v = &doc.slice_definitions;
    let mut i: usize = 0;
    assert(v@.subrange(0, v@.len() as int) =~= v@);
    while i < v.len()
        invariant
            i <= v@.len(),
            v@ == doc.slice_definitions@,
            first_with(slug@, v@, slice_slugged()) == first_with(
                slug@,
                v@.subrange(i as int, v@.len() as int),
                slice_slugged(),
            ),
        decreases v.len() - i,
    {
        proof {
            lemma_first_with_step(slug@, v@, slice_slugged(), i as int);
        }
        if name_has_slug(&v[i].name, slug) {
            return Some(&v[i]);
        }
        i = i + 1;
    }
    assert(v@.subrange(i as int, v@.len() as int) =~= Seq::<SliceDefinition>::empty());
    None
}

pub fn application_entry_slice_by_slug<'a>(docs: &'a [EventModelDocument], slug: &DefinitionName) -> (r:
    Option<&'a SliceDefinition>)
    ensures
        match r {
            Some(s) => slice_by_slug(docs@, slug@) == Some(*s),
            None => slice_by_slug(docs@, slug@) is None,
        },
{
    let mut i: usize = 0;
    assert(docs@.subrange(0, docs@.len() as int) =~= docs@);
    while i < docs.len()
        invariant
            i <= docs@.len(),
            slice_by_slug(docs@, slug@) == first_with(
                slug@,
                docs@.subrange(i as int, docs@.len() as int),
                doc_slice_slugged(),
            ),
        decreases docs.len() - i,
    {
        proof {
            lemma_first_with_step(slug@, docs@, doc_slice_slugged(), i as int);
        }
        match slice_in_doc_by_slug(&docs[i], slug) {
            Some(s) => {
                return Some(s);
            },
            None => {},
        }
        i = i + 1;
    }
    assert(docs@.subrange(i as int, docs@.len() as int) =~= Seq::<EventModelDocument>::empty());
    None
}

// ---- views by name ----

pub open spec fn doc_view_named() -> spec_fn(Seq<char>, EventModelDocument) -> Option<ViewDefinition> {
    |n: Seq<char>, doc: EventModelDocument| view_def(doc, n)
}

/// The first view of the corpus named `n`.
pub open spec fn view_by_name(docs: Seq<EventModelDocument>, n: Seq<char>) -> Option<ViewDefinition> {
    first_with(n, docs, doc_view_named())
}

pub fn view_definition_by_name<'a>(docs: &'a [EventModelDocument], n: &DefinitionName) -> (r: Option<
    &'a ViewDefinition,
>)
    ensures
        match r {
            Some(v) => view_by_name(docs@, n@) == Some(*v),
            None => view_by_name(docs@, n@) is None,
        },
{
    let mut i: usize = 0;
    assert(docs@.subrange(0, docs@.len() as int) =~= docs@);
    while i < docs.len()
        invariant
            i <= docs@.len(),
            view_by_name(docs@, n@) == first_with(
                n@,
                docs@.subrange(i as int, docs@.len() as int),
                doc_view_named(),
            ),
        decreases docs.len() - i,
    {
        proof {
            lemma_first_with_step(n@, docs@, doc_view_named(), i as int);
        }
        match view_definition(&docs[i], n) {
            Some(v) => {
                return Some(v);
            },
            None => {},
        }
        i = i + 1;
    }
    assert(docs@.subrange(i as int, docs@.len() as int) =~= Seq::<EventModelDocument>::empty());
    None
}

// ---- board slices by slug ----

pub open spec fn board_slugged() -> spec_fn(Seq<char>, BoardSliceGraph) -> Option<BoardSliceGraph> {
    |slug: Seq<char>, board: BoardSliceGraph|
        if slug_matches(board.name@, slug) {
            Some(board)
        } else {
            None
        }
}

pub open spec fn doc_board_slugged() -> spec_fn(Seq<char>, EventModelDocument) -> Option<BoardSliceGraph> {
    |slug: Seq<char>, doc: EventModelDocument| first_with(slug, doc.board_slices@, board_slugged())
}

/// The first board slice of the corpus whose name slugifies to `slug`.
pub open spec fn board_by_slug(docs: Seq<EventModelDocument>, slug: Seq<char>) -> Option<BoardSliceGraph> {
    first_with(slug, docs, doc_board_slugged())
}

fn board_in_doc_by_slug<'a>(doc: &'a EventModelDocument, slug: &DefinitionName) -> (r: Option<
    &'a BoardSliceGraph,
>)
    ensures
        match r {
            Some(b) => doc_board_slugged()(slug@, *doc) == Some(*b),
            None => doc_board_slugged()(slug@, *doc) is None,
        },
{
    let v = &doc.board_slices;
    let mut i: usize = 0;
    assert(v@.subrange(0, v@.len() as int) =~= v@);
    while i < v.len()
        invariant
            i <= v@.len(),
            v@ == doc.board_slices@,
            first_with(slug@, v@, board_slugged()) == first_with(
                slug@,
                v@.subrange(i as int, v@.len() as int),
                board_slugged(),
            ),
        decreases v.len() - i,
    {
        proof {
            lemma_first_with_step(slug@, v@, board_slugged(), i as int);
        }
        if name_has_slug(&v[i].name, slug) {
            return Some(&v[i]);
        }
        i = i + 1;
    }
    assert(v@.subrange(i as int, v@.len() as int) =~= Seq::<BoardSliceGraph>::empty());
    None
}

pub fn board_slice_by_slug<'a>(docs: &'a [EventModelDocument], slug: &DefinitionName) -> (r: Option<
    &'a BoardSliceGraph,
>)
    ensures
        match r {
            Some(b) => board_by_slug(docs@, slug@) == Some(*b),
            None => board_by_slug(docs@, slug@) is None,
        },
{
    let mut i: usize = 0;
    assert(docs@.subrange(0, docs@.len() as int) =~= docs@);
    while i < docs.len()
        invariant
            i <= docs@.len(),
            board_by_slug(docs@, slug@) == first_with(
                slug@,
                docs@.subrange(i as int, docs@.len() as int),
                doc_board_slugged(),
            ),
        decreases docs.len() - i,
    {
        proof {
            lemma_first_with_step(slug@, docs@, doc_board_slugged(), i as int);
        }
        match board_in_doc_by_slug(&docs[i], slug) {
            Some(b) => {
                return Some(b);
            },
            None => {},
        }
        i = i + 1;
    }
    assert(docs@.subrange(i as int, docs@.len() as int) =~= Seq::<EventModelDocument>::empty());
    None
}

} // verus!
