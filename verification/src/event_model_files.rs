//! The event-model files of a project: which names in a directory are
//! event-model files, which of them are slice files, and how a problem in
//! one of them is reported.

use vstd::prelude::*;
use vstd::string::StringExecFns;

use crate::effect::{concat3, text_views};
use crate::text::{chars_of, ends_with, has_suffix, split_chars, split_on};
use crate::validation::names::strictly_sorted;
use crate::verify::{insert_sorted, sorted_insert, sorted_names};
use crate::types::text_is;
use crate::validation::model::EventModelFileKind;

verus! {

/// The pieces of a path that name something: those between `/` that are
/// neither empty nor `.`, in order.
pub open spec fn named_pieces(pieces: Seq<Seq<char>>) -> Seq<Seq<char>>
    decreases pieces.len(),
{
    if pieces.len() == 0 {
        Seq::empty()
    } else {
        let prior = named_pieces(pieces.drop_last());
        let p = pieces.last();
        if p.len() > 0 && p != seq!['.'] {
            prior.push(p)
        } else {
            prior
        }
    }
}

/// A file is a slice file when the directory that holds it is named
/// `slices`, and a workflow file otherwise.
pub open spec fn file_kind_of(path: Seq<char>) -> EventModelFileKind {
    let named = named_pieces(split_on(path, '/'));
    if named.len() >= 2 && named[named.len() - 2] == "slices"@ {
        EventModelFileKind::Slice
    } else {
        EventModelFileKind::Workflow
    }
}

/// The kind of the event-model file at `path`: a slice file when its
/// directory is named `slices`, a workflow file otherwise.
pub fn event_model_file_kind(path: &str) -> (r: EventModelFileKind)
    ensures
        r == file_kind_of(path@),
{
    let v = chars_of(path);
    let pieces = split_chars(&v, '/');
    let ghost all = pieces@.map_values(|p: Vec<char>| p@);
    let mut named: Vec<Vec<char>> = Vec::new();
    let mut i: usize = 0;
    assert(all.take(0) =~= Seq::<Seq<char>>::empty());
    assert(named@.map_values(|p: Vec<char>| p@) =~= Seq::<Seq<char>>::empty());
    while i < pieces.len()
        invariant
            i <= pieces@.len(),
            all == pieces@.map_values(|p: Vec<char>| p@),
            named@.map_values(|p: Vec<char>| p@) == named_pieces(all.take(i as int)),
        decreases pieces.len() - i,
    {
        assert(all.take(i + 1).drop_last() =~= all.take(i as int));
        assert(all.take(i + 1).last() == pieces@[i as int]@);
        let p = &pieces[i];
        let dot = p.len() == 1 && p[0] == '.';
        proof {
            assert(dot == (p@ == seq!['.'])) by {
                if p@ == seq!['.'] {
                    assert(p@.len() == 1 && p@[0] == '.');
                }
                if dot {
                    assert(p@ =~= seq!['.']);
                }
            }
        }
        if p.len() > 0 && !dot {
            let ghost before = named@.map_values(|q: Vec<char>| q@);
            named.push(p.clone());
            assert(named@.map_values(|q: Vec<char>| q@) =~= before.push(pieces@[i as int]@));
        }
        i = i + 1;
    }
    assert(all.take(all.len() as int) =~= all);
    assert(all == split_on(path@, '/'));
    let n = named.len();
    if n >= 2 && text_is(&named[n - 2], "slices") {
        EventModelFileKind::Slice
    } else {
        EventModelFileKind::Workflow
    }
}

/// The names among `names` that are event-model files, in order.
pub open spec fn event_model_names(names: Seq<Seq<char>>) -> Seq<Seq<char>>
    decreases names.len(),
{
    if names.len() == 0 {
        Seq::empty()
    } else {
        let prior = event_model_names(names.drop_last());
        if ends_with(names.last(), ".eventmodel.json"@) {
            prior.push(names.last())
        } else {
            prior
        }
    }
}

/// Whether a file named `file_name` is an event-model file.
pub fn is_event_model_file_name(file_name: &str) -> (r: bool)
    ensures
        r == ends_with(file_name@, ".eventmodel.json"@),
{
    let v = chars_of(file_name);
    let suffix = chars_of(".eventmodel.json");
    has_suffix(&v, &suffix)
}

/// The event-model files among the names of a directory's entries, in the
/// order of their text.
pub fn event_model_files(names: &[String]) -> (r: Vec<String>)
    ensures
        text_views(r@) == sorted_names(event_model_names(text_views(names@))),
{
    let ghost all = text_views(names@);
    let mut out: Vec<String> = Vec::new();
    let mut i: usize = 0;
    assert(all.take(0) =~= Seq::<Seq<char>>::empty());
    assert(text_views(out@) =~= Seq::<Seq<char>>::empty());
    while i < names.len()
        invariant
            i <= names@.len(),
            all == text_views(names@),
            strictly_sorted(text_views(out@)),
            text_views(out@) == sorted_names(event_model_names(all.take(i as int))),
        decreases names.len() - i,
    {
        assert(all.take(i + 1).drop_last() =~= all.take(i as int));
        assert(all.take(i + 1).last() == names@[i as int]@);
        if is_event_model_file_name(names[i].as_str()) {
            let ghost prior = event_model_names(all.take(i as int));
            assert(prior.push(names@[i as int]@).drop_last() =~= prior);
            insert_sorted(&mut out, names[i].clone());
        }
        i = i + 1;
    }
    assert(all.take(all.len() as int) =~= all);
    out
}

/// The message for `issue`, found in `target`.
pub fn issue_in_target(issue: &str, target: &str) -> (r: String)
    ensures
        r@ == issue@ + " in "@ + target@,
{
    concat3(issue, " in ", target)
}

/// The message for a workflow at `workflow_path` that references the slice
/// file `slice_file`, which is not there.
pub fn missing_referenced_slice_file(slice_file: &str, workflow_path: &str) -> (r: String)
    ensures
        r@ == "missing referenced slice file "@ + slice_file@ + " in "@ + workflow_path@,
{
    let head = concat3("missing referenced slice file ", slice_file, " in ");
    let mut r = head;
    r.append(workflow_path);
    r
}

/// The message for a referenced slice file that does not read or validate.
pub fn invalid_referenced_slice_file(slice_file: &str, problem: &str) -> (r: String)
    ensures
        r@ == "referenced slice file "@ + slice_file@ + " is invalid: "@ + problem@,
{
    let mut r = concat3("referenced slice file ", slice_file, " is invalid: ");
    r.append(problem);
    r
}

} // verus!
