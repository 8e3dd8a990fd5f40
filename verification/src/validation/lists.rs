//! Searching lists of names: membership, the first name in or out of a set,
//! names repeated, and definitions looked up by name.

use vstd::prelude::*;

use crate::text::{chars_of, contains_chars, contains_seq};
use crate::validation::find::{first_with, lemma_first_with_step};
use crate::validation::model::{
    CommandDefinition, EventDefinition, EventModelDocument, ReadModelDefinition, SliceScenario,
    ViewDefinition,
};
use crate::validation::names::{contains_name, has_name, name_views, DefinitionName, NameSet};

verus! {

pub open spec fn in_set() -> spec_fn(Seq<Seq<char>>, DefinitionName) -> Option<Seq<char>> {
    |set: Seq<Seq<char>>, n: DefinitionName|
        if set.contains(n@) {
            Some(n@)
        } else {
            None
        }
}

pub open spec fn not_in_set() -> spec_fn(Seq<Seq<char>>, DefinitionName) -> Option<Seq<char>> {
    |set: Seq<Seq<char>>, n: DefinitionName|
        if set.contains(n@) {
            None
        } else {
            Some(n@)
        }
}

pub open spec fn not_in_list() -> spec_fn(Seq<DefinitionName>, DefinitionName) -> Option<Seq<char>> {
    |list: Seq<DefinitionName>, n: DefinitionName|
        if has_name(list, n@) {
            None
        } else {
            Some(n@)
        }
}

/// The first name of `v` that `set` holds (`want` true) or lacks (`want` false).
fn first_by_set<'a>(v: &'a Vec<DefinitionName>, set: &NameSet, want: bool) -> (r: Option<
    &'a DefinitionName,
>)
    ensures
        want ==> match r {
            Some(n) => first_with(set@, v@, in_set()) == Some(n@),
            None => first_with(set@, v@, in_set()) is None,
        },
        !want ==> match r {
            Some(n) => first_with(set@, v@, not_in_set()) == Some(n@),
            None => first_with(set@, v@, not_in_set()) is None,
        },
{
    let ghost f = if want {
        in_set()
    } else {
        not_in_set()
    };
    let mut i: usize = 0;
    assert(v@.subrange(0, v@.len() as int) =~= v@);
    while i < v.len()
        invariant
            i <= v@.len(),
            f == (if want {
                in_set()
            } else {
                not_in_set()
            }),
            first_with(set@, v@, f) == first_with(set@, v@.subrange(i as int, v@.len() as int), f),
        decreases v.len() - i,
    {
        proof {
            lemma_first_with_step(set@, v@, f, i as int);
        }
        if set.contains(&v[i]) == want {
            return Some(&v[i]);
        }
        i = i + 1;
    }
    assert(v@.subrange(i as int, v@.len() as int) =~= Seq::<DefinitionName>::empty());
    None
}

/// The first name of `v` that `set` holds.
pub fn first_in_set<'a>(v: &'a Vec<DefinitionName>, set: &NameSet) -> (r: Option<&'a DefinitionName>)
    ensures
        match r {
            Some(n) => first_with(set@, v@, in_set()) == Some(n@),
            None => first_with(set@, v@, in_set()) is None,
        },
{
    first_by_set(v, set, true)
}

/// The first name of `v` that `set` lacks.
pub fn first_not_in_set<'a>(v: &'a Vec<DefinitionName>, set: &NameSet) -> (r: Option<
    &'a DefinitionName,
>)
    ensures
        match r {
            Some(n) => first_with(set@, v@, not_in_set()) == Some(n@),
            None => first_with(set@, v@, not_in_set()) is None,
        },
{
    first_by_set(v, set, false)
}

/// The first name of `v` that `list` lacks.
pub fn first_not_in_list<'a>(v: &'a Vec<DefinitionName>, list: &Vec<DefinitionName>) -> (r: Option<
    &'a DefinitionName,
>)
    ensures
        match r {
            Some(n) => first_with(list@, v@, not_in_list()) == Some(n@),
            None => first_with(list@, v@, not_in_list()) is None,
        },
{
    let mut i: usize = 0;
    assert(v@.subrange(0, v@.len() as int) =~= v@);
    while i < v.len()
        invariant
            i <= v@.len(),
            first_with(list@, v@, not_in_list()) == first_with(
                list@,
                v@.subrange(i as int, v@.len() as int),
                not_in_list(),
            ),
        decreases v.len() - i,
    {
        proof {
            lemma_first_with_step(list@, v@, not_in_list(), i as int);
        }
        if !contains_name(list, &v[i]) {
            return Some(&v[i]);
        }
        i = i + 1;
    }
    assert(v@.subrange(i as int, v@.len() as int) =~= Seq::<DefinitionName>::empty());
    None
}

/// Whether two lists hold the same names in the same order.
pub fn same_names(a: &Vec<DefinitionName>, b: &Vec<DefinitionName>) -> (r: bool)
    ensures
        r == (name_views(a@) == name_views(b@)),
{
    if a.len() != b.len() {
        proof {
            assert(name_views(a@).len() != name_views(b@).len());
        }
        return false;
    }
    let mut i: usize = 0;
    while i < a.len()
        invariant
            a@.len() == b@.len(),
            i <= a@.len(),
            forall|j: int| 0 <= j < i ==> a@[j]@ == b@[j]@,
        decreases a.len() - i,
    {
        if !a[i].same_as(&b[i]) {
            proof {
                assert(name_views(a@)[i as int] != name_views(b@)[i as int]);
            }
            return false;
        }
        i = i + 1;
    }
    assert(name_views(a@) =~= name_views(b@));
    true
}

// ---- names repeated in a list ----

/// Whether the name at `i` repeats an earlier name of `s`.
pub open spec fn repeats_name(s: Seq<DefinitionName>, i: int) -> bool {
    exists|j: int| 0 <= j < i && #[trigger] s[j]@ == s[i]@
}

/// The first name of `s`, from position `i` on, that repeats an earlier one.
pub open spec fn first_repeated_name(s: Seq<DefinitionName>, i: nat) -> Option<Seq<char>>
    decreases s.len() - i,
{
    if i >= s.len() {
        None
    } else if repeats_name(s, i as int) {
        Some(s[i as int]@)
    } else {
        first_repeated_name(s, i + 1)
    }
}

fn repeats_name_at(v: &Vec<DefinitionName>, i: usize) -> (r: bool)
    requires
        i < v@.len(),
    ensures
        r == repeats_name(v@, i as int),
{
    let mut j: usize = 0;
    while j < i
        invariant
            i < v@.len(),
            j <= i,
            forall|k: int| 0 <= k < j ==> #[trigger] v@[k]@ != v@[i as int]@,
        decreases i - j,
    {
        if v[j].same_as(&v[i]) {
            return true;
        }
        j = j + 1;
    }
    false
}

/// The first name of `v` that repeats an earlier one.
pub fn first_repeated<'a>(v: &'a Vec<DefinitionName>) -> (r: Option<&'a DefinitionName>)
    ensures
        match r {
            Some(n) => first_repeated_name(v@, 0) == Some(n@),
            None => first_repeated_name(v@, 0) is None,
        },
{
    let mut i: usize = 0;
    while i < v.len()
        invariant
            i <= v@.len(),
            first_repeated_name(v@, 0) == first_repeated_name(v@, i as nat),
        decreases v.len() - i,
    {
        if repeats_name_at(v, i) {
            assert(first_repeated_name(v@, i as nat) == Some(v@[i as int]@));
            return Some(&v[i]);
        }
        i = i + 1;
    }
    None
}

// ---- scenarios that mention a name ----

/// Whether some step reference of the scenario contains the text `n`.
pub open spec fn mentions(scenario: SliceScenario, n: Seq<char>) -> bool {
    exists|i: int|
        0 <= i < scenario.scenario_step_references@.len() && contains_seq(
            #[trigger] scenario.scenario_step_references@[i]@,
            n,
        )
}

pub fn scenario_mentions_definition(scenario: &SliceScenario, n: &DefinitionName) -> (r: bool)
    ensures
        r == mentions(*scenario, n@),
{
    let needle = chars_of(n.as_str());
    let refs = &scenario.scenario_step_references;
    let mut i: usize = 0;
    while i < refs.len()
        invariant
            i <= refs@.len(),
            refs@ == scenario.scenario_step_references@,
            needle@ == n@,
            forall|j: int| 0 <= j < i ==> !contains_seq(#[trigger] refs@[j]@, n@),
        decreases refs.len() - i,
    {
        let hay = chars_of(refs[i].as_str());
        if contains_chars(&hay, &needle) {
            return true;
        }
        i = i + 1;
    }
    false
}

/// Whether some scenario of the list mentions `n`.
pub open spec fn some_scenario_mentions(scenarios: Seq<SliceScenario>, n: Seq<char>) -> bool {
    exists|i: int| 0 <= i < scenarios.len() && mentions(#[trigger] scenarios[i], n)
}

pub fn any_scenario_mentions(scenarios: &Vec<SliceScenario>, n: &DefinitionName) -> (r: bool)
    ensures
        r == some_scenario_mentions(scenarios@, n@),
{
    let mut i: usize = 0;
    while i < scenarios.len()
        invariant
            i <= scenarios@.len(),
            forall|j: int| 0 <= j < i ==> !mentions(#[trigger] scenarios@[j], n@),
        decreases scenarios.len() - i,
    {
        if scenario_mentions_definition(&scenarios[i], n) {
            return true;
        }
        i = i + 1;
    }
    false
}

// ---- definitions looked up by name ----

pub open spec fn command_named() -> spec_fn(Seq<char>, CommandDefinition) -> Option<
    CommandDefinition,
> {
    |n: Seq<char>, c: CommandDefinition|
        match c.name {
            Some(x) => if x@ == n {
                Some(c)
            } else {
                None
            },
            None => None,
        }
}

/// The first command definition named `n`.
pub open spec fn command_def(doc: EventModelDocument, n: Seq<char>) -> Option<CommandDefinition> {
    first_with(n, doc.command_definitions@, command_named())
}

pub fn command_definition<'a>(doc: &'a EventModelDocument, n: &DefinitionName) -> (r: Option<
    &'a CommandDefinition,
>)
    ensures
        match r {
            Some(c) => command_def(*doc, n@) == Some(*c),
            None => command_def(*doc, n@) is None,
        },
{
    let v = &doc.command_definitions;
    let mut i: usize = 0;
    assert(v@.subrange(0, v@.len() as int) =~= v@);
    while i < v.len()
        invariant
            i <= v@.len(),
            v@ == doc.command_definitions@,
            command_def(*doc, n@) == first_with(
                n@,
                v@.subrange(i as int, v@.len() as int),
                command_named(),
            ),
        decreases v.len() - i,
    {
        proof {
            lemma_first_with_step(n@, v@, command_named(), i as int);
        }
        match &v[i].name {
            Some(x) => {
                if x.same_as(n) {
                    return Some(&v[i]);
                }
            },
            None => {},
        }
        i = i + 1;
    }
    assert(v@.subrange(i as int, v@.len() as int) =~= Seq::<CommandDefinition>::empty());
    None
}

pub open spec fn view_named() -> spec_fn(Seq<char>, ViewDefinition) -> Option<ViewDefinition> {
    |n: Seq<char>, v: ViewDefinition|
        if v.name@ == n {
            Some(v)
        } else {
            None
        }
}

/// The first view definition named `n`.
pub open spec fn view_def(doc: EventModelDocument, n: Seq<char>) -> Option<ViewDefinition> {
    first_with(n, doc.view_definitions@, view_named())
}

pub fn view_definition<'a>(doc: &'a EventModelDocument, n: &DefinitionName) -> (r: Option<
    &'a ViewDefinition,
>)
    ensures
        match r {
            Some(v) => view_def(*doc, n@) == Some(*v),
            None => view_def(*doc, n@) is None,
        },
{
    let v = &doc.view_definitions;
    let mut i: usize = 0;
    assert(v@.subrange(0, v@.len() as int) =~= v@);
    while i < v.len()
        invariant
            i <= v@.len(),
            v@ == doc.view_definitions@,
            view_def(*doc, n@) == first_with(n@, v@.subrange(i as int, v@.len() as int), view_named()),
        decreases v.len() - i,
    {
        proof {
            lemma_first_with_step(n@, v@, view_named(), i as int);
        }
        if v[i].name.same_as(n) {
            return Some(&v[i]);
        }
        i = i + 1;
    }
    assert(v@.subrange(i as int, v@.len() as int) =~= Seq::<ViewDefinition>::empty());
    None
}

pub open spec fn event_named() -> spec_fn(Seq<char>, EventDefinition) -> Option<EventDefinition> {
    |n: Seq<char>, e: EventDefinition|
        if e.name@ == n {
            Some(e)
        } else {
            None
        }
}

/// The first event definition named `n`.
pub open spec fn event_def(doc: EventModelDocument, n: Seq<char>) -> Option<EventDefinition> {
    first_with(n, doc.event_definitions@, event_named())
}

pub fn event_definition<'a>(doc: &'a EventModelDocument, n: &DefinitionName) -> (r: Option<
    &'a EventDefinition,
>)
    ensures
        match r {
            Some(e) => event_def(*doc, n@) == Some(*e),
            None => event_def(*doc, n@) is None,
        },
{
    let v = &doc.event_definitions;
    let mut i: usize = 0;
    assert(v@.subrange(0, v@.len() as int) =~= v@);
    while i < v.len()
        invariant
            i <= v@.len(),
            v@ == doc.event_definitions@,
            event_def(*doc, n@) == first_with(n@, v@.subrange(i as int, v@.len() as int), event_named()),
        decreases v.len() - i,
    {
        proof {
            lemma_first_with_step(n@, v@, event_named(), i as int);
        }
        if v[i].name.same_as(n) {
            return Some(&v[i]);
        }
        i = i + 1;
    }
    assert(v@.subrange(i as int, v@.len() as int) =~= Seq::<EventDefinition>::empty());
    None
}

pub open spec fn read_model_named() -> spec_fn(Seq<char>, ReadModelDefinition) -> Option<
    ReadModelDefinition,
> {
    |n: Seq<char>, m: ReadModelDefinition|
        if m.name@ == n {
            Some(m)
        } else {
            None
        }
}

/// The first read model definition named `n`.
pub open spec fn read_model_def(doc: EventModelDocument, n: Seq<char>) -> Option<ReadModelDefinition> {
    first_with(n, doc.read_model_definitions@, read_model_named())
}

pub fn read_model_definition<'a>(doc: &'a EventModelDocument, n: &DefinitionName) -> (r: Option<
    &'a ReadModelDefinition,
>)
    ensures
        match r {
            Some(m) => read_model_def(*doc, n@) == Some(*m),
            None => read_model_def(*doc, n@) is None,
        },
{
    let v = &doc.read_model_definitions;
    let mut i: usize = 0;
    assert(v@.subrange(0, v@.len() as int) =~= v@);
    while i < v.len()
        invariant
            i <= v@.len(),
            v@ == doc.read_model_definitions@,
            read_model_def(*doc, n@) == first_with(
                n@,
                v@.subrange(i as int, v@.len() as int),
                read_model_named(),
            ),
        decreases v.len() - i,
    {
        proof {
            lemma_first_with_step(n@, v@, read_model_named(), i as int);
        }
        if v[i].name.same_as(n) {
            return Some(&v[i]);
        }
        i = i + 1;
    }
    assert(v@.subrange(i as int, v@.len() as int) =~= Seq::<ReadModelDefinition>::empty());
    None
}

} // verus!
