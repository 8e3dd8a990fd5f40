//! Which workflow steps can be reached from the entry step by following
//! transitions.

use vstd::prelude::*;

use crate::validation::find::{first_with, issue_of, lemma_first_with_step, msg5};
use crate::validation::model::{
    EventModelDocument, WorkflowComposition, WorkflowStep, WorkflowStepRelationship,
};
use crate::validation::names::{contains_name, has_name, name_views, DefinitionName, ValidationIssue};
use crate::validation::rules_workflow::declares_steps;

verus! {

/// Step `k` is the last step of `steps` for slice `s`; its transitions are
/// the ones that leave `s`.
pub open spec fn is_last_step(steps: Seq<WorkflowStep>, s: Seq<char>, k: int) -> bool {
    &&& 0 <= k < steps.len()
    &&& steps[k].slice@ == s
    &&& forall|j: int| k < j < steps.len() ==> #[trigger] steps[j].slice@ != s
}

/// A transition leads from slice `a` to slice `b`.
pub open spec fn is_edge(steps: Seq<WorkflowStep>, a: Seq<char>, b: Seq<char>) -> bool {
    exists|k: int| #[trigger] is_last_step(steps, a, k) && steps[k].transition_targets@.contains(b)
}

pub open spec fn walk_step(steps: Seq<WorkflowStep>, p: Seq<Seq<char>>, k: int) -> bool {
    is_edge(steps, p[k], p[k + 1])
}

/// `p` is a non-empty walk along transitions.
pub open spec fn is_walk(steps: Seq<WorkflowStep>, p: Seq<Seq<char>>) -> bool {
    p.len() > 0 && forall|k: int| 0 <= k < p.len() - 1 ==> #[trigger] walk_step(steps, p, k)
}

/// Slice `s` can be reached from `entry` by following transitions.
pub open spec fn reachable_from(steps: Seq<WorkflowStep>, entry: Seq<char>, s: Seq<char>) -> bool {
    exists|p: Seq<Seq<char>>| #[trigger] is_walk(steps, p) && p[0] == entry && p.last() == s
}

/// Every transition target of every step, in order.
pub open spec fn all_targets(steps: Seq<WorkflowStep>) -> Seq<Seq<char>>
    decreases steps.len(),
{
    if steps.len() == 0 {
        Seq::empty()
    } else {
        all_targets(steps.drop_last()) + steps.last().transition_targets@
    }
}

proof fn lemma_all_targets(steps: Seq<WorkflowStep>, k: int, t: Seq<char>)
    requires
        0 <= k < steps.len(),
        steps[k].transition_targets@.contains(t),
    ensures
        all_targets(steps).contains(t),
    decreases steps.len(),
{
    let rest = steps.drop_last();
    let last = steps.last().transition_targets@;
    if k == steps.len() - 1 {
        let i = choose|i: int| 0 <= i < last.len() && last[i] == t;
        assert((all_targets(rest) + last)[all_targets(rest).len() + i] == t);
    } else {
        assert(rest[k] == steps[k]);
        lemma_all_targets(rest, k, t);
        let i = choose|i: int| 0 <= i < all_targets(rest).len() && all_targets(rest)[i] == t;
        assert((all_targets(rest) + last)[i] == t);
    }
}

proof fn lemma_distinct_bound(a: Seq<Seq<char>>, u: Seq<Seq<char>>)
    requires
        a.no_duplicates(),
        forall|i: int| 0 <= i < a.len() ==> u.contains(#[trigger] a[i]),
    ensures
        a.len() <= u.len(),
{
    broadcast use vstd::seq_lib::seq_to_set_is_finite;

    a.unique_seq_to_set();
    u.lemma_cardinality_of_set();
    assert forall|x: Seq<char>| a.to_set().contains(x) implies u.to_set().contains(x) by {
        let i = choose|i: int| 0 <= i < a.len() && a[i] == x;
        assert(u.contains(a[i]));
    }
    vstd::set_lib::lemma_len_subset(a.to_set(), u.to_set());
}

/// A set closed under transitions that holds the start of a walk holds its end.
proof fn lemma_closed_walk(steps: Seq<WorkflowStep>, set: Seq<Seq<char>>, p: Seq<Seq<char>>)
    requires
        is_walk(steps, p),
        set.contains(p[0]),
        forall|x: Seq<char>, y: Seq<char>|
            set.contains(x) && #[trigger] is_edge(steps, x, y) ==> set.contains(y),
    ensures
        set.contains(p.last()),
    decreases p.len(),
{
    if p.len() > 1 {
        let q = p.drop_last();
        assert forall|k: int| 0 <= k < q.len() - 1 implies #[trigger] walk_step(steps, q, k) by {
            assert(walk_step(steps, p, k));
        }
        lemma_closed_walk(steps, set, q);
        assert(walk_step(steps, p, p.len() - 2));
    }
}

/// A walk to `a` extended by a transition from `a` to `b`.
proof fn lemma_extend_walk(steps: Seq<WorkflowStep>, entry: Seq<char>, a: Seq<char>, b: Seq<char>)
    requires
        reachable_from(steps, entry, a),
        is_edge(steps, a, b),
    ensures
        reachable_from(steps, entry, b),
{
    let p = choose|p: Seq<Seq<char>>| #[trigger] is_walk(steps, p) && p[0] == entry && p.last() == a;
    let q = p.push(b);
    assert forall|k: int| 0 <= k < q.len() - 1 implies #[trigger] walk_step(steps, q, k) by {
        if k < p.len() - 1 {
            assert(walk_step(steps, p, k));
        }
    }
    assert(is_walk(steps, q));
}

proof fn lemma_has_name_views(s: Seq<DefinitionName>, n: Seq<char>)
    ensures
        has_name(s, n) <==> name_views(s).contains(n),
{
    if has_name(s, n) {
        let i = choose|i: int| 0 <= i < s.len() && #[trigger] s[i]@ == n;
        assert(name_views(s)[i] == n);
    }
    if name_views(s).contains(n) {
        let i = choose|i: int| 0 <= i < name_views(s).len() && name_views(s)[i] == n;
        assert(s[i]@ == n);
    }
}

/// The index of the last step for slice `s`, if a step has it.
fn last_step_for(steps: &Vec<WorkflowStep>, s: &DefinitionName) -> (r: Option<usize>)
    ensures
        match r {
            Some(k) => is_last_step(steps@, s@, k as int),
            None => forall|k: int| 0 <= k < steps@.len() ==> #[trigger] steps@[k].slice@ != s@,
        },
{
    let mut i: usize = steps.len();
    while i > 0
        invariant
            i <= steps@.len(),
            forall|j: int| i <= j < steps@.len() ==> #[trigger] steps@[j].slice@ != s@,
        decreases i,
    {
        i = i - 1;
        if steps[i].slice.same_as(s) {
            return Some(i);
        }
    }
    None
}

/// The slices reachable from `entry`, each once, in the order a
/// breadth-first walk meets them.
pub fn reachable_workflow_step_slices_from_entry(entry: &DefinitionName, steps: &Vec<WorkflowStep>) -> (r:
    Vec<DefinitionName>)
    ensures
        forall|x: Seq<char>| has_name(r@, x) <==> reachable_from(steps@, entry@, x),
{
    let mut reached: Vec<DefinitionName> = Vec::new();
    reached.push(entry.clone());
    let ghost universe = seq![entry@] + all_targets(steps@);
    proof {
        assert(walk_step(steps@, seq![entry@], 0) || true);
        assert(is_walk(steps@, seq![entry@]));
        assert(name_views(reached@) =~= seq![entry@]);
        assert(universe[0] == entry@);
        assert(reached@[0]@ == entry@);
        assert(has_name(reached@, entry@));
    }
    let mut head: usize = 0;
    while head < reached.len()
        invariant
            head <= reached@.len(),
            name_views(reached@).no_duplicates(),
            forall|i: int| 0 <= i < reached@.len() ==> universe.contains(#[trigger] reached@[i]@),
            forall|i: int|
                0 <= i < reached@.len() ==> reachable_from(steps@, entry@, #[trigger] reached@[i]@),
            forall|h: int, y: Seq<char>|
                0 <= h < head && #[trigger] is_edge(steps@, reached@[h]@, y) ==> has_name(
                    reached@,
                    y,
                ),
            has_name(reached@, entry@),
            universe == seq![entry@] + all_targets(steps@),
            reached@.len() <= universe.len(),
        decreases universe.len() - reached@.len(), reached@.len() - head,
    {
        let current = reached[head].clone();
        let ghost before = reached@;
        match last_step_for(steps, &current) {
            Some(k) => {
                let targets = &steps[k].transition_targets;
                let mut j: usize = 0;
                while j < targets.len()
                    invariant
                        head < before.len() <= reached@.len(),
                        k < steps@.len(),
                        is_last_step(steps@, current@, k as int),
                        current@ == before[head as int]@,
                        *targets == steps@[k as int].transition_targets,
                        forall|i: int| 0 <= i < before.len() ==> reached@[i] == before[i],
                        forall|jj: int| 0 <= jj < j ==> has_name(reached@, #[trigger] targets@[jj]),
                        j <= targets@.len(),
                        name_views(reached@).no_duplicates(),
                        forall|i: int|
                            0 <= i < reached@.len() ==> universe.contains(#[trigger] reached@[i]@),
                        forall|i: int|
                            0 <= i < reached@.len() ==> reachable_from(
                                steps@,
                                entry@,
                                #[trigger] reached@[i]@,
                            ),
                        universe == seq![entry@] + all_targets(steps@),
                        reachable_from(steps@, entry@, current@),
                    decreases targets@.len() - j,
                {
                    let t = targets.get(j);
                    if !contains_name(&reached, t) {
                        let ghost old_reached = reached@;
                        proof {
                            assert(is_edge(steps@, current@, t@));
                            lemma_extend_walk(steps@, entry@, current@, t@);
                            lemma_all_targets(steps@, k as int, t@);
                            let i = choose|i: int|
                                0 <= i < all_targets(steps@).len() && all_targets(steps@)[i]
                                    == t@;
                            assert(universe[i + 1] == t@);
                            lemma_has_name_views(reached@, t@);
                        }
                        reached.push(t.clone());
                        proof {
                            assert(name_views(reached@) =~= name_views(old_reached).push(t@));
                            assert forall|jj: int| 0 <= jj <= j implies has_name(
                                reached@,
                                #[trigger] targets@[jj],
                            ) by {
                                if jj < j {
                                    let i = choose|i: int|
                                        0 <= i < old_reached.len() && #[trigger] old_reached[i]@
                                            == targets@[jj];
                                    assert(reached@[i]@ == targets@[jj]);
                                } else {
                                    assert(reached@[old_reached.len() as int]@ == targets@[jj]);
                                }
                            }
                        }
                    }
                    j = j + 1;
                }
                proof {
                    assert forall|y: Seq<char>| #[trigger]
                        is_edge(steps@, reached@[head as int]@, y) implies has_name(
                        reached@,
                        y,
                    ) by {
                        let k2 = choose|k2: int|
                            #[trigger] is_last_step(steps@, current@, k2)
                                && steps@[k2].transition_targets@.contains(y);
                        assert(k2 == k);
                        let jj = choose|jj: int|
                            0 <= jj < targets@.len() && targets@[jj] == y;
                        assert(has_name(reached@, targets@[jj]));
                    }
                }
            },
            None => {
                proof {
                    assert forall|y: Seq<char>| #[trigger]
                        is_edge(steps@, reached@[head as int]@, y) implies has_name(
                        reached@,
                        y,
                    ) by {
                        let k2 = choose|k2: int|
                            #[trigger] is_last_step(steps@, current@, k2)
                                && steps@[k2].transition_targets@.contains(y);
                        assert(steps@[k2].slice@ != current@);
                    }
                }
            },
        }
        proof {
            assert forall|h: int, y: Seq<char>|
                0 <= h <= head && #[trigger] is_edge(steps@, reached@[h]@, y) implies has_name(
                reached@,
                y,
            ) by {
                if h < head {
                    assert(reached@[h] == before[h]);
                    assert(is_edge(steps@, before[h]@, y));
                    let i = choose|i: int| 0 <= i < before.len() && #[trigger] before[i]@ == y;
                    assert(reached@[i]@ == y);
                }
            }
            let i = choose|i: int| 0 <= i < before.len() && #[trigger] before[i]@ == entry@;
            assert(reached@[i]@ == entry@);
            assert forall|i: int| 0 <= i < name_views(reached@).len() implies universe.contains(
                #[trigger] name_views(reached@)[i],
            ) by {
                assert(universe.contains(reached@[i]@));
            }
            lemma_distinct_bound(name_views(reached@), universe);
        }
        head = head + 1;
    }
    proof {
        assert forall|x: Seq<char>| has_name(reached@, x) <==> reachable_from(steps@, entry@, x) by {
            if has_name(reached@, x) {
                let i = choose|i: int| 0 <= i < reached@.len() && #[trigger] reached@[i]@ == x;
                assert(reachable_from(steps@, entry@, reached@[i]@));
            }
            if reachable_from(steps@, entry@, x) {
                let p = choose|p: Seq<Seq<char>>| #[trigger]
                    is_walk(steps@, p) && p[0] == entry@ && p.last() == x;
                let set = name_views(reached@);
                assert forall|a: Seq<char>, b: Seq<char>|
                    set.contains(a) && #[trigger] is_edge(steps@, a, b) implies set.contains(b) by {
                    let i = choose|i: int| 0 <= i < set.len() && set[i] == a;
                    assert(is_edge(steps@, reached@[i]@, b));
                    lemma_has_name_views(reached@, b);
                }
                lemma_has_name_views(reached@, entry@);
                lemma_closed_walk(steps@, set, p);
                lemma_has_name_views(reached@, x);
            }
        }
    }
    reached
}

pub open spec fn entry_slice_of() -> spec_fn(EventModelDocument, WorkflowStep) -> Option<Seq<char>> {
    |doc: EventModelDocument, step: WorkflowStep|
        if step.relationship == WorkflowStepRelationship::Entry {
            Some(step.slice@)
        } else {
            None
        }
}

/// The slice of the first entry step.
pub open spec fn entry_slice(doc: EventModelDocument) -> Option<Seq<char>> {
    first_with(doc, doc.workflow_steps@, entry_slice_of())
}

/// Steps that run off the main path need not be reachable from the entry.
pub open spec fn exempt_from_entry_reachability(step: WorkflowStep) -> bool {
    step.relationship == WorkflowStepRelationship::AsyncLifecycle || step.relationship
        == WorkflowStepRelationship::Supporting
}

pub open spec fn unreachable_step(entry: Seq<char>) -> spec_fn(EventModelDocument, WorkflowStep) -> Option<
    Seq<char>,
> {
    |doc: EventModelDocument, step: WorkflowStep|
        if !exempt_from_entry_reachability(step) && !reachable_from(
            doc.workflow_steps@,
            entry,
            step.slice@,
        ) {
            Some(
                "workflow step '"@ + step.slice@ + "' is not reachable from entry step '"@ + entry
                    + "'"@,
            )
        } else {
            None
        }
}

/// The first step, off no exempt path, that the entry step cannot reach.
pub open spec fn reachable_from_entry_issue(doc: EventModelDocument) -> Option<Seq<char>> {
    if !declares_steps(doc) {
        None
    } else {
        match entry_slice(doc) {
            Some(entry) => first_with(doc, doc.workflow_steps@, unreachable_step(entry)),
            None => None,
        }
    }
}

fn workflow_entry_step_slice(doc: &EventModelDocument) -> (r: Option<&DefinitionName>)
    ensures
        match r {
            Some(n) => entry_slice(*doc) == Some(n@),
            None => entry_slice(*doc) is None,
        },
{
    let steps = &doc.workflow_steps;
    let mut i: usize = 0;
    assert(steps@.subrange(0, steps@.len() as int) =~= steps@);
    while i < steps.len()
        invariant
            i <= steps@.len(),
            steps@ == doc.workflow_steps@,
            entry_slice(*doc) == first_with(
                *doc,
                steps@.subrange(i as int, steps@.len() as int),
                entry_slice_of(),
            ),
        decreases steps.len() - i,
    {
        proof {
            lemma_first_with_step(*doc, steps@, entry_slice_of(), i as int);
        }
        if steps[i].relationship == WorkflowStepRelationship::Entry {
            return Some(&steps[i].slice);
        }
        i = i + 1;
    }
    assert(steps@.subrange(i as int, steps@.len() as int) =~= Seq::<WorkflowStep>::empty());
    None
}

pub fn validate_workflow_steps_reachable_from_entry(doc: &EventModelDocument) -> (r: Result<
    (),
    ValidationIssue,
>)
    ensures
        issue_of(r) == reachable_from_entry_issue(*doc),
{
    if doc.workflow_composition != WorkflowComposition::DeclaresSteps {
        return Ok(());
    }
    let entry = match workflow_entry_step_slice(doc) {
        Some(e) => e,
        None => {
            return Ok(());
        },
    };
    let reached = reachable_workflow_step_slices_from_entry(entry, &doc.workflow_steps);
    let steps = &doc.workflow_steps;
    let ghost f = unreachable_step(entry@);
    let mut i: usize = 0;
    assert(steps@.subrange(0, steps@.len() as int) =~= steps@);
    while i < steps.len()
        invariant
            i <= steps@.len(),
            steps@ == doc.workflow_steps@,
            f == unreachable_step(entry@),
            declares_steps(*doc),
            entry_slice(*doc) == Some(entry@),
            forall|x: Seq<char>| has_name(reached@, x) <==> reachable_from(steps@, entry@, x),
            first_with(*doc, steps@, f) == first_with(
                *doc,
                steps@.subrange(i as int, steps@.len() as int),
                f,
            ),
        decreases steps.len() - i,
    {
        proof {
            lemma_first_with_step(*doc, steps@, f, i as int);
        }
        let step = &steps[i];
        let exempt = step.relationship == WorkflowStepRelationship::AsyncLifecycle
            || step.relationship == WorkflowStepRelationship::Supporting;
        if !exempt && !contains_name(&reached, &step.slice) {
            return Err(
                msg5(
                    "workflow step '",
                    step.slice.as_str(),
                    "' is not reachable from entry step '",
                    entry.as_str(),
                    "'",
                ),
            );
        }
        i = i + 1;
    }
    assert(steps@.subrange(i as int, steps@.len() as int) =~= Seq::<WorkflowStep>::empty());
    Ok(())
}

} // verus!
