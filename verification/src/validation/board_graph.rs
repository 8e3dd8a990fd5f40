//! Whether the elements of a board slice hang together: every element can
//! be reached from every other through connections, in either direction.

use vstd::prelude::*;

use crate::validation::model::{BoardGraphConnection, BoardSliceGraph};
use crate::validation::names::{contains_name, has_name, name_views, DefinitionName};

verus! {

/// Whether `x` is the id of an element of the board slice.
pub open spec fn is_element_id(board: BoardSliceGraph, x: Seq<char>) -> bool {
    exists|i: int| 0 <= i < board.elements@.len() && (#[trigger] board.elements@[i]).id@ == x
}

pub open spec fn joins(board: BoardSliceGraph, c: BoardGraphConnection, x: Seq<char>, y: Seq<char>) -> bool {
    is_element_id(board, c.from@) && is_element_id(board, c.to@) && ((c.from@ == x && c.to@ == y) || (
    c.from@ == y && c.to@ == x))
}

/// Whether a connection between two elements joins `x` and `y`, in either
/// direction.
pub open spec fn adjacent(board: BoardSliceGraph, x: Seq<char>, y: Seq<char>) -> bool {
    exists|i: int| 0 <= i < board.connections@.len() && #[trigger] joins(board, board.connections@[i], x, y)
}

pub open spec fn path_step(board: BoardSliceGraph, p: Seq<Seq<char>>, k: int) -> bool {
    adjacent(board, p[k], p[k + 1])
}

pub open spec fn is_path(board: BoardSliceGraph, p: Seq<Seq<char>>) -> bool {
    p.len() > 0 && forall|k: int| 0 <= k < p.len() - 1 ==> #[trigger] path_step(board, p, k)
}

/// Whether `x` and `y` are joined by a path of connections.
pub open spec fn connected(board: BoardSliceGraph, x: Seq<char>, y: Seq<char>) -> bool {
    exists|p: Seq<Seq<char>>| #[trigger] is_path(board, p) && p[0] == x && p.last() == y
}

/// Whether two elements of the board slice are not joined by any path.
pub open spec fn disconnected(board: BoardSliceGraph) -> bool {
    exists|i: int, j: int|
        0 <= i < board.elements@.len() && 0 <= j < board.elements@.len() && !connected(
            board,
            #[trigger] board.elements@[i].id@,
            #[trigger] board.elements@[j].id@,
        )
}

proof fn lemma_adjacent_symmetric(board: BoardSliceGraph, x: Seq<char>, y: Seq<char>)
    requires
        adjacent(board, x, y),
    ensures
        adjacent(board, y, x),
{
    let i = choose|i: int| 0 <= i < board.connections@.len() && #[trigger] joins(board, board.connections@[i], x, y);
    assert(joins(board, board.connections@[i], y, x));
}

proof fn lemma_reverse_path(board: BoardSliceGraph, p: Seq<Seq<char>>)
    requires
        is_path(board, p),
    ensures
        is_path(board, p.reverse()),
        p.reverse()[0] == p.last(),
        p.reverse().last() == p[0],
{
    let q = p.reverse();
    assert forall|k: int| 0 <= k < q.len() - 1 implies #[trigger] path_step(board, q, k) by {
        let m = p.len() - 2 - k;
        assert(path_step(board, p, m));
        assert(q[k] == p[m + 1]);
        assert(q[k + 1] == p[m]);
        lemma_adjacent_symmetric(board, p[m], p[m + 1]);
    }
}

proof fn lemma_join_paths(board: BoardSliceGraph, p: Seq<Seq<char>>, q: Seq<Seq<char>>)
    requires
        is_path(board, p),
        is_path(board, q),
        p.last() == q[0],
    ensures
        is_path(board, p + q.drop_first()),
        (p + q.drop_first())[0] == p[0],
        (p + q.drop_first()).last() == q.last(),
{
    let r = p + q.drop_first();
    assert forall|k: int| 0 <= k < r.len() - 1 implies #[trigger] path_step(board, r, k) by {
        if k < p.len() - 1 {
            assert(path_step(board, p, k));
        } else {
            let m = k - (p.len() - 1);
            assert(path_step(board, q, m));
            if m == 0 {
                assert(r[k] == q[0]);
            } else {
                assert(r[k] == q[m]);
            }
            assert(r[k + 1] == q[m + 1]);
        }
    }
    if q.len() == 1 {
        assert(r =~= p);
    }
}

proof fn lemma_connected_through(board: BoardSliceGraph, z: Seq<char>, x: Seq<char>, y: Seq<char>)
    requires
        connected(board, z, x),
        connected(board, z, y),
    ensures
        connected(board, x, y),
{
    let p = choose|p: Seq<Seq<char>>| #[trigger] is_path(board, p) && p[0] == z && p.last() == x;
    let q = choose|q: Seq<Seq<char>>| #[trigger] is_path(board, q) && q[0] == z && q.last() == y;
    lemma_reverse_path(board, p);
    lemma_join_paths(board, p.reverse(), q);
    assert(is_path(board, p.reverse() + q.drop_first()));
}

proof fn lemma_extend_path(board: BoardSliceGraph, z: Seq<char>, x: Seq<char>, y: Seq<char>)
    requires
        connected(board, z, x),
        adjacent(board, x, y),
    ensures
        connected(board, z, y),
{
    let p = choose|p: Seq<Seq<char>>| #[trigger] is_path(board, p) && p[0] == z && p.last() == x;
    let q = p.push(y);
    assert forall|k: int| 0 <= k < q.len() - 1 implies #[trigger] path_step(board, q, k) by {
        if k < p.len() - 1 {
            assert(path_step(board, p, k));
        }
    }
    assert(is_path(board, q));
}

proof fn lemma_closed_path(board: BoardSliceGraph, set: Seq<Seq<char>>, p: Seq<Seq<char>>)
    requires
        is_path(board, p),
        set.contains(p[0]),
        forall|x: Seq<char>, y: Seq<char>| set.contains(x) && #[trigger] adjacent(board, x, y) ==> set.contains(y),
    ensures
        set.contains(p.last()),
    decreases p.len(),
{
    if p.len() > 1 {
        let q = p.drop_last();
        assert forall|k: int| 0 <= k < q.len() - 1 implies #[trigger] path_step(board, q, k) by {
            assert(path_step(board, p, k));
        }
        lemma_closed_path(board, set, q);
        assert(path_step(board, p, p.len() - 2));
    }
}

proof fn lemma_has_name_views(s: Seq<DefinitionName>, n: Seq<char>)
    ensures
        has_name(s, n) <==> name_views(s).contains(n),
{
    if has_name(s, n) {
        let i = choose|i: int| 0 <= i < s.len() && #[trigger] s[i]@ == n;
        assert(name_views(s)[i] == n);
    }
    if name_views(s).contains(n) {
        let i = choose|i: int| 0 <= i < name_views(s).len() && name_views(s)[i] == n;
        assert(s[i]@ == n);
    }
}

proof fn lemma_distinct_bound(a: Seq<Seq<char>>, u: Seq<Seq<char>>)
    requires
        a.no_duplicates(),
        forall|i: int| 0 <= i < a.len() ==> u.contains(#[trigger] a[i]),
    ensures
        a.len() <= u.len(),
{
    broadcast use vstd::seq_lib::seq_to_set_is_finite;

    a.unique_seq_to_set();
    u.lemma_cardinality_of_set();
    assert forall|x: Seq<char>| a.to_set().contains(x) implies u.to_set().contains(x) by {
        let i = choose|i: int| 0 <= i < a.len() && a[i] == x;
        assert(u.contains(a[i]));
    }
    vstd::set_lib::lemma_len_subset(a.to_set(), u.to_set());
}

pub open spec fn element_ids(board: BoardSliceGraph) -> Seq<Seq<char>> {
    board.elements@.map_values(|e: crate::validation::model::BoardElement| e.id@)
}

fn element_id_known(board: &BoardSliceGraph, x: &DefinitionName) -> (r: bool)
    ensures
        r == is_element_id(*board, x@),
{
    let elements = &board.elements;
    let mut i: usize = 0;
    while i < elements.len()
        invariant
            i <= elements@.len(),
            elements@ == board.elements@,
            forall|j: int| 0 <= j < i ==> (#[trigger] elements@[j]).id@ != x@,
        decreases elements.len() - i,
    {
        if elements[i].id.same_as(x) {
            return true;
        }
        i = i + 1;
    }
    false
}

/// Adds to `reached` every element joined to `current` that it lacks.
fn add_neighbours(board: &BoardSliceGraph, current: &DefinitionName, reached: &mut Vec<DefinitionName>, Ghost(start): Ghost<Seq<char>>)
    requires
        name_views(old(reached)@).no_duplicates(),
        forall|i: int| 0 <= i < old(reached)@.len() ==> is_element_id(*board, #[trigger] old(reached)@[i]@),
        forall|i: int| 0 <= i < old(reached)@.len() ==> connected(*board, start, #[trigger] old(reached)@[i]@),
        connected(*board, start, current@),
    ensures
        old(reached)@.len() <= final(reached)@.len(),
        forall|i: int| 0 <= i < old(reached)@.len() ==> final(reached)@[i] == old(reached)@[i],
        name_views(final(reached)@).no_duplicates(),
        forall|i: int| 0 <= i < final(reached)@.len() ==> is_element_id(*board, #[trigger] final(reached)@[i]@),
        forall|i: int| 0 <= i < final(reached)@.len() ==> connected(*board, start, #[trigger] final(reached)@[i]@),
        forall|y: Seq<char>| #[trigger] adjacent(*board, current@, y) ==> has_name(final(reached)@, y),
{
    let ghost before = reached@;
    let conns = &board.connections;
    let mut k: usize = 0;
    while k < conns.len()
        invariant
            k <= conns@.len(),
            conns@ == board.connections@,
            before.len() <= reached@.len(),
            forall|i: int| 0 <= i < before.len() ==> reached@[i] == before[i],
            name_views(reached@).no_duplicates(),
            forall|i: int| 0 <= i < reached@.len() ==> is_element_id(*board, #[trigger] reached@[i]@),
            forall|i: int| 0 <= i < reached@.len() ==> connected(*board, start, #[trigger] reached@[i]@),
            connected(*board, start, current@),
            forall|j: int, y: Seq<char>|
                0 <= j < k && #[trigger] joins(*board, conns@[j], current@, y) ==> has_name(reached@, y),
        decreases conns.len() - k,
    {
        let c = &conns[k];
        let both = element_id_known(board, &c.from) && element_id_known(board, &c.to);
        let other: Option<&DefinitionName> = if both && c.from.same_as(current) {
            Some(&c.to)
        } else if both && c.to.same_as(current) {
            Some(&c.from)
        } else {
            None
        };
        let ghost old_reached = reached@;
        match other {
            Some(t) => {
                if !contains_name(reached, t) {
                    proof {
                        assert(joins(*board, conns@[k as int], current@, t@));
                        assert(adjacent(*board, current@, t@));
                        lemma_extend_path(*board, start, current@, t@);
                        lemma_has_name_views(reached@, t@);
                    }
                    reached.push(t.clone());
                    proof {
                        assert(name_views(reached@) =~= name_views(old_reached).push(t@));
                    }
                }
            },
            None => {},
        }
        proof {
            assert forall|j: int, y: Seq<char>|
                0 <= j <= k && #[trigger] joins(*board, conns@[j], current@, y) implies has_name(reached@, y) by {
                if j < k {
                    let i = choose|i: int| 0 <= i < old_reached.len() && #[trigger] old_reached[i]@ == y;
                    assert(reached@[i]@ == y);
                } else {
                    let t = other.unwrap();
                    assert(t@ == y);
                    if has_name(old_reached, y) {
                        let i = choose|i: int| 0 <= i < old_reached.len() && #[trigger] old_reached[i]@ == y;
                        assert(reached@[i]@ == y);
                    } else {
                        assert(reached@[old_reached.len() as int]@ == y);
                    }
                }
            }
        }
        k = k + 1;
    }
    proof {
        assert forall|y: Seq<char>| #[trigger] adjacent(*board, current@, y) implies has_name(reached@, y) by {
            let j = choose|j: int| 0 <= j < conns@.len() && #[trigger] joins(*board, conns@[j], current@, y);
        }
    }
}

/// Whether two elements of the board slice are not joined by connections.
pub fn board_slice_has_disconnected_elements(board: &BoardSliceGraph) -> (r: bool)
    ensures
        r == disconnected(*board),
{
    if board.elements.len() == 0 {
        return false;
    }
    let first = &board.elements[0].id;
    let ghost start = first@;
    let ghost universe = element_ids(*board);
    let mut reached: Vec<DefinitionName> = Vec::new();
    reached.push(first.clone());
    proof {
        assert(is_path(*board, seq![start]));
        assert(connected(*board, start, start));
        assert(name_views(reached@) =~= seq![start]);
        assert(is_element_id(*board, board.elements@[0].id@));
        assert(reached@[0]@ == start);
        assert(has_name(reached@, start));
    }
    let mut head: usize = 0;
    while head < reached.len()
        invariant
            head <= reached@.len(),
            board.elements@.len() > 0,
            start == board.elements@[0].id@,
            universe == element_ids(*board),
            name_views(reached@).no_duplicates(),
            forall|i: int| 0 <= i < reached@.len() ==> is_element_id(*board, #[trigger] reached@[i]@),
            forall|i: int| 0 <= i < reached@.len() ==> connected(*board, start, #[trigger] reached@[i]@),
            forall|h: int, y: Seq<char>|
                0 <= h < head && #[trigger] adjacent(*board, reached@[h]@, y) ==> has_name(reached@, y),
            has_name(reached@, start),
            reached@.len() <= universe.len(),
        decreases universe.len() - reached@.len(), reached@.len() - head,
    {
        let current = reached[head].clone();
        let ghost before = reached@;
        add_neighbours(board, &current, &mut reached, Ghost(start));
        proof {
            assert forall|h: int, y: Seq<char>|
                0 <= h <= head && #[trigger] adjacent(*board, reached@[h]@, y) implies has_name(reached@, y) by {
                if h < head {
                    assert(reached@[h] == before[h]);
                    assert(adjacent(*board, before[h]@, y));
                    let i = choose|i: int| 0 <= i < before.len() && #[trigger] before[i]@ == y;
                    assert(reached@[i]@ == y);
                } else {
                    assert(reached@[h]@ == current@);
                }
            }
            let i = choose|i: int| 0 <= i < before.len() && #[trigger] before[i]@ == start;
            assert(reached@[i]@ == start);
            assert forall|i: int| 0 <= i < name_views(reached@).len() implies universe.contains(
                #[trigger] name_views(reached@)[i],
            ) by {
                assert(is_element_id(*board, reached@[i]@));
                let j = choose|j: int| 0 <= j < board.elements@.len() && (#[trigger] board.elements@[j]).id@ == reached@[i]@;
                assert(universe[j] == reached@[i]@);
            }
            lemma_distinct_bound(name_views(reached@), universe);
        }
        head = head + 1;
    }
    proof {
        let set = name_views(reached@);
        assert forall|x: Seq<char>, y: Seq<char>|
            set.contains(x) && #[trigger] adjacent(*board, x, y) implies set.contains(y) by {
            let i = choose|i: int| 0 <= i < set.len() && set[i] == x;
            assert(adjacent(*board, reached@[i]@, y));
            lemma_has_name_views(reached@, y);
        }
        lemma_has_name_views(reached@, start);
        assert forall|x: Seq<char>| connected(*board, start, x) implies has_name(reached@, x) by {
            let p = choose|p: Seq<Seq<char>>| #[trigger] is_path(*board, p) && p[0] == start && p.last() == x;
            lemma_closed_path(*board, set, p);
            lemma_has_name_views(reached@, x);
        }
    }
    let elements = &board.elements;
    let mut i: usize = 0;
    while i < elements.len()
        invariant
            i <= elements@.len(),
            elements@ == board.elements@,
            board.elements@.len() > 0,
            start == board.elements@[0].id@,
            forall|k: int| 0 <= k < reached@.len() ==> connected(*board, start, #[trigger] reached@[k]@),
            forall|x: Seq<char>| connected(*board, start, x) ==> has_name(reached@, x),
            forall|k: int| 0 <= k < i ==> connected(*board, start, #[trigger] elements@[k].id@),
        decreases elements.len() - i,
    {
        if !contains_name(&reached, &elements[i].id) {
            proof {
                assert(!connected(*board, board.elements@[0].id@, board.elements@[i as int].id@));
            }
            return true;
        }
        proof {
            let k = choose|k: int| 0 <= k < reached@.len() && #[trigger] reached@[k]@ == elements@[i as int].id@;
            assert(connected(*board, start, reached@[k]@));
        }
        i = i + 1;
    }
    proof {
        assert forall|a: int, b: int|
            0 <= a < board.elements@.len() && 0 <= b < board.elements@.len() implies connected(
            *board,
            #[trigger] board.elements@[a].id@,
            #[trigger] board.elements@[b].id@,
        ) by {
            lemma_connected_through(*board, start, board.elements@[a].id@, board.elements@[b].id@);
        }
    }
    false
}

} // verus!
