//! Definitions that slices claim across a corpus of documents, and the first
//! one that two slices claim.

use vstd::prelude::*;

use crate::text::{chars_of, ends_with, has_suffix};
use crate::validation::lists::{view_def, view_definition};
use crate::validation::model::{
    EventAttribute, EventAttributeSource, EventDefinition, EventModelDocument, EventModelFileKind, SliceDefinition, SliceScenario, ViewControlDefinition,
    ViewDefinition, ViewWireframe,
};
use crate::validation::names::DefinitionName;

verus! {

/// What a slice claims to define.
#[derive(Debug, Clone, Copy, PartialEq, Eq, Structural)]
pub enum ClaimKind {
    Commands,
    ReadModels,
    Automations,
    Translations,
    Views,
    /// Scenarios, but not the generated empty and partial state ones.
    Scenarios,
    /// Owned views whose definition in the same document has a wireframe.
    Wireframes,
    /// The controls of owned views defined in the same document.
    Controls,
}

/// A claim: a key, a qualifier that refines it (the key itself where there is
/// none), and the name of the claiming slice.
pub type ClaimView = (Seq<char>, Seq<char>, Seq<char>);

pub open spec fn claim_views(v: Seq<(DefinitionName, DefinitionName, DefinitionName)>) -> Seq<ClaimView> {
    v.map_values(|c: (DefinitionName, DefinitionName, DefinitionName)| (c.0@, c.1@, c.2@))
}

/// Whether a scenario is one generated for an empty or partial state.
pub open spec fn generated_state_scenario(name: Seq<char>) -> bool {
    ends_with(name, " empty state"@) || ends_with(name, " partial state"@)
}

pub open spec fn name_claims(names: Seq<DefinitionName>, owner: Seq<char>) -> Seq<ClaimView> {
    names.map_values(|n: DefinitionName| (n@, n@, owner))
}

pub open spec fn scenario_claims(scenarios: Seq<SliceScenario>, owner: Seq<char>) -> Seq<ClaimView>
    decreases scenarios.len(),
{
    if scenarios.len() == 0 {
        Seq::empty()
    } else {
        let n = scenarios.last().name@;
        scenario_claims(scenarios.drop_last(), owner) + if generated_state_scenario(n) {
            Seq::empty()
        } else {
            seq![(n, n, owner)]
        }
    }
}

/// What one owned view name claims: the controls of its definition, or its
/// wireframe.
pub open spec fn one_view_claims(doc: EventModelDocument, view: Seq<char>, owner: Seq<char>, kind: ClaimKind) -> Seq<
    ClaimView,
> {
    match view_def(doc, view) {
        Some(v) => if kind == ClaimKind::Controls {
            control_claims(v, owner)
        } else if v.wireframe == ViewWireframe::Present {
            seq![(v.name@, v.name@, owner)]
        } else {
            Seq::empty()
        },
        None => Seq::empty(),
    }
}

pub open spec fn control_claims(v: ViewDefinition, owner: Seq<char>) -> Seq<ClaimView> {
    v.controls@.map_values(|c: ViewControlDefinition| (v.name@, c.label@, owner))
}

pub open spec fn view_claims(doc: EventModelDocument, views: Seq<DefinitionName>, owner: Seq<char>, kind: ClaimKind) -> Seq<
    ClaimView,
>
    decreases views.len(),
{
    if views.len() == 0 {
        Seq::empty()
    } else {
        view_claims(doc, views.drop_last(), owner, kind) + one_view_claims(doc, views.last()@, owner, kind)
    }
}

/// What one slice claims.
pub open spec fn slice_claims(doc: EventModelDocument, slice: SliceDefinition, kind: ClaimKind) -> Seq<
    ClaimView,
> {
    match kind {
        ClaimKind::Commands => name_claims(slice.issued_commands@, slice.name@),
        ClaimKind::ReadModels => name_claims(slice.owned_read_models@, slice.name@),
        ClaimKind::Automations => name_claims(slice.owned_automations@, slice.name@),
        ClaimKind::Translations => name_claims(slice.owned_translations@, slice.name@),
        ClaimKind::Views => name_claims(slice.owned_views@, slice.name@),
        ClaimKind::Scenarios => scenario_claims(slice.scenarios@, slice.name@),
        _ => view_claims(doc, slice.owned_views@, slice.name@, kind),
    }
}

pub open spec fn slices_claims(doc: EventModelDocument, slices: Seq<SliceDefinition>, kind: ClaimKind) -> Seq<
    ClaimView,
>
    decreases slices.len(),
{
    if slices.len() == 0 {
        Seq::empty()
    } else {
        slices_claims(doc, slices.drop_last(), kind) + slice_claims(doc, slices.last(), kind)
    }
}

/// What the slices of a slice file claim; workflow files claim nothing.
pub open spec fn doc_claims(doc: EventModelDocument, kind: ClaimKind) -> Seq<ClaimView> {
    if doc.file_kind == EventModelFileKind::Slice {
        slices_claims(doc, doc.slice_definitions@, kind)
    } else {
        Seq::empty()
    }
}

/// Every claim of the corpus, in document, slice and list order.
pub open spec fn corpus_claims(docs: Seq<EventModelDocument>, kind: ClaimKind) -> Seq<ClaimView>
    decreases docs.len(),
{
    if docs.len() == 0 {
        Seq::empty()
    } else {
        corpus_claims(docs.drop_last(), kind) + doc_claims(docs.last(), kind)
    }
}

type Claim = (DefinitionName, DefinitionName, DefinitionName);

fn push_claim(out: &mut Vec<Claim>, key: &DefinitionName, qualifier: &DefinitionName, owner: &DefinitionName)
    ensures
        claim_views(final(out)@) == claim_views(old(out)@).push((key@, qualifier@, owner@)),
{
    let ghost before = out@;
    out.push((key.clone(), qualifier.clone(), owner.clone()));
    assert(claim_views(out@) =~= claim_views(before).push((key@, qualifier@, owner@)));
}

fn push_name_claims(out: &mut Vec<Claim>, names: &Vec<DefinitionName>, owner: &DefinitionName)
    ensures
        claim_views(final(out)@) == claim_views(old(out)@) + name_claims(names@, owner@),
{
    let ghost before = claim_views(out@);
    let mut k: usize = 0;
    while k < names.len()
        invariant
            k <= names@.len(),
            claim_views(out@) == before + name_claims(names@.take(k as int), owner@),
        decreases names.len() - k,
    {
        push_claim(out, &names[k], &names[k], owner);
        proof {
            assert(name_claims(names@.take(k + 1), owner@) =~= name_claims(names@.take(k as int), owner@).push(
                (names@[k as int]@, names@[k as int]@, owner@),
            ));
        }
        k = k + 1;
    }
    assert(names@.take(names@.len() as int) =~= names@);
}

fn is_generated_state_scenario(name: &DefinitionName) -> (r: bool)
    ensures
        r == generated_state_scenario(name@),
{
    let v = chars_of(name.as_str());
    has_suffix(&v, &chars_of(" empty state")) || has_suffix(&v, &chars_of(" partial state"))
}

fn push_scenario_claims(out: &mut Vec<Claim>, scenarios: &Vec<SliceScenario>, owner: &DefinitionName)
    ensures
        claim_views(final(out)@) == claim_views(old(out)@) + scenario_claims(scenarios@, owner@),
{
    let ghost before = claim_views(out@);
    let mut k: usize = 0;
    while k < scenarios.len()
        invariant
            k <= scenarios@.len(),
            claim_views(out@) == before + scenario_claims(scenarios@.take(k as int), owner@),
        decreases scenarios.len() - k,
    {
        proof {
            assert(scenarios@.take(k + 1).drop_last() =~= scenarios@.take(k as int));
        }
        let n = &scenarios[k].name;
        if !is_generated_state_scenario(n) {
            push_claim(out, n, n, owner);
        }
        proof {
            let pre = scenario_claims(scenarios@.take(k as int), owner@);
            if generated_state_scenario(n@) {
                assert(pre + Seq::<ClaimView>::empty() =~= pre);
            } else {
                assert(before + pre.push((n@, n@, owner@)) =~= before + (pre + seq![(n@, n@, owner@)]));
            }
        }
        k = k + 1;
    }
    assert(scenarios@.take(scenarios@.len() as int) =~= scenarios@);
}

fn push_one_view_claims(
    out: &mut Vec<Claim>,
    doc: &EventModelDocument,
    view: &DefinitionName,
    owner: &DefinitionName,
    kind: ClaimKind,
)
    ensures
        claim_views(final(out)@) == claim_views(old(out)@) + one_view_claims(*doc, view@, owner@, kind),
{
    let ghost mid = claim_views(out@);
    match view_definition(doc, view) {
        Some(v) => {
            if kind == ClaimKind::Controls {
                let controls = &v.controls;
                let mut j: usize = 0;
                while j < controls.len()
                    invariant
                        j <= controls@.len(),
                        *controls == v.controls,
                        claim_views(out@) == mid + control_claims(*v, owner@).take(j as int),
                    decreases controls.len() - j,
                {
                    push_claim(out, &v.name, &controls[j].label, owner);
                    proof {
                        assert(control_claims(*v, owner@).take(j + 1) =~= control_claims(*v, owner@).take(
                            j as int,
                        ).push((v.name@, controls@[j as int].label@, owner@)));
                        assert(mid + control_claims(*v, owner@).take(j + 1) =~= (mid + control_claims(*v, owner@).take(
                            j as int,
                        )).push((v.name@, controls@[j as int].label@, owner@)));
                    }
                    j = j + 1;
                }
                proof {
                    assert(control_claims(*v, owner@).take(controls@.len() as int) =~= control_claims(*v, owner@));
                }
            } else if v.wireframe == ViewWireframe::Present {
                push_claim(out, &v.name, &v.name, owner);
                proof {
                    assert(mid.push((v.name@, v.name@, owner@)) =~= mid + seq![(v.name@, v.name@, owner@)]);
                }
            } else {
                proof {
                    assert(mid + Seq::<ClaimView>::empty() =~= mid);
                }
            }
        },
        None => {
            proof {
                assert(mid + Seq::<ClaimView>::empty() =~= mid);
            }
        },
    }
}

fn push_view_claims(
    out: &mut Vec<Claim>,
    doc: &EventModelDocument,
    views: &Vec<DefinitionName>,
    owner: &DefinitionName,
    kind: ClaimKind,
)
    ensures
        claim_views(final(out)@) == claim_views(old(out)@) + view_claims(*doc, views@, owner@, kind),
{
    let ghost before = claim_views(out@);
    let mut k: usize = 0;
    while k < views.len()
        invariant
            k <= views@.len(),
            claim_views(out@) == before + view_claims(*doc, views@.take(k as int), owner@, kind),
        decreases views.len() - k,
    {
        proof {
            assert(views@.take(k + 1).drop_last() =~= views@.take(k as int));
        }
        let ghost pre = view_claims(*doc, views@.take(k as int), owner@, kind);
        push_one_view_claims(out, doc, &views[k], owner, kind);
        proof {
            assert(before + pre + one_view_claims(*doc, views@[k as int]@, owner@, kind) =~= before + (pre
                + one_view_claims(*doc, views@[k as int]@, owner@, kind)));
        }
        k = k + 1;
    }
    assert(views@.take(views@.len() as int) =~= views@);
}

fn push_slice_claims(out: &mut Vec<Claim>, doc: &EventModelDocument, slice: &SliceDefinition, kind: ClaimKind)
    ensures
        claim_views(final(out)@) == claim_views(old(out)@) + slice_claims(*doc, *slice, kind),
{
    match kind {
        ClaimKind::Commands => push_name_claims(out, &slice.issued_commands, &slice.name),
        ClaimKind::ReadModels => push_name_claims(out, &slice.owned_read_models, &slice.name),
        ClaimKind::Automations => push_name_claims(out, &slice.owned_automations, &slice.name),
        ClaimKind::Translations => push_name_claims(out, &slice.owned_translations, &slice.name),
        ClaimKind::Views => push_name_claims(out, &slice.owned_views, &slice.name),
        ClaimKind::Scenarios => push_scenario_claims(out, &slice.scenarios, &slice.name),
        _ => push_view_claims(out, doc, &slice.owned_views, &slice.name, kind),
    }
}

fn push_doc_claims(out: &mut Vec<Claim>, doc: &EventModelDocument, kind: ClaimKind)
    ensures
        claim_views(final(out)@) == claim_views(old(out)@) + doc_claims(*doc, kind),
{
    let ghost before = claim_views(out@);
    if doc.file_kind != EventModelFileKind::Slice {
        assert(before + Seq::<ClaimView>::empty() =~= before);
        return;
    }
    let slices = &doc.slice_definitions;
    let mut k: usize = 0;
    while k < slices.len()
        invariant
            k <= slices@.len(),
            slices@ == doc.slice_definitions@,
            claim_views(out@) == before + slices_claims(*doc, slices@.take(k as int), kind),
        decreases slices.len() - k,
    {
        proof {
            assert(slices@.take(k + 1).drop_last() =~= slices@.take(k as int));
        }
        let ghost pre = slices_claims(*doc, slices@.take(k as int), kind);
        push_slice_claims(out, doc, &slices[k], kind);
        proof {
            assert(before + pre + slice_claims(*doc, slices@[k as int], kind) =~= before + (pre
                + slice_claims(*doc, slices@[k as int], kind)));
        }
        k = k + 1;
    }
    assert(slices@.take(slices@.len() as int) =~= slices@);
}

/// Every claim of the given kind in the corpus, in order.
pub fn collect_claims(docs: &[EventModelDocument], kind: ClaimKind) -> (r: Vec<Claim>)
    ensures
        claim_views(r@) == corpus_claims(docs@, kind),
{
    let mut out: Vec<Claim> = Vec::new();
    assert(claim_views(out@) =~= Seq::<ClaimView>::empty());
    let mut d: usize = 0;
    while d < docs.len()
        invariant
            d <= docs@.len(),
            claim_views(out@) == corpus_claims(docs@.take(d as int), kind),
        decreases docs.len() - d,
    {
        proof {
            assert(docs@.take(d + 1).drop_last() =~= docs@.take(d as int));
        }
        push_doc_claims(&mut out, &docs[d], kind);
        d = d + 1;
    }
    assert(docs@.take(docs@.len() as int) =~= docs@);
    out
}

/// Whether claim `i` has the key and qualifier of an earlier claim by another
/// slice.
pub open spec fn claimed_before(c: Seq<ClaimView>, i: int) -> bool {
    exists|j: int|
        0 <= j < i && (#[trigger] c[j]).0 == c[i].0 && c[j].1 == c[i].1 && c[j].2 != c[i].2
}

/// The first claim, from position `i` on, that another slice claimed before.
pub open spec fn first_contested(c: Seq<ClaimView>, i: nat) -> Option<ClaimView>
    decreases c.len() - i,
{
    if i >= c.len() {
        None
    } else if claimed_before(c, i as int) {
        Some(c[i as int])
    } else {
        first_contested(c, i + 1)
    }
}

fn claimed_before_at(v: &Vec<Claim>, i: usize) -> (r: bool)
    requires
        i < v@.len(),
    ensures
        r == claimed_before(claim_views(v@), i as int),
{
    let ghost c = claim_views(v@);
    let mut j: usize = 0;
    while j < i
        invariant
            i < v@.len(),
            j <= i,
            c == claim_views(v@),
            forall|k: int|
                0 <= k < j ==> !((#[trigger] c[k]).0 == c[i as int].0 && c[k].1 == c[i as int].1
                    && c[k].2 != c[i as int].2),
        decreases i - j,
    {
        if v[j].0.same_as(&v[i].0) && v[j].1.same_as(&v[i].1) && !v[j].2.same_as(&v[i].2) {
            assert(c[j as int].0 == c[i as int].0 && c[j as int].1 == c[i as int].1 && c[j as int].2
                != c[i as int].2);
            return true;
        }
        j = j + 1;
    }
    false
}

/// The first claim of the given kind that another slice claimed before.
pub fn first_contested_claim(docs: &[EventModelDocument], kind: ClaimKind) -> (r: Option<Claim>)
    ensures
        match r {
            Some(c) => first_contested(corpus_claims(docs@, kind), 0) == Some((c.0@, c.1@, c.2@)),
            None => first_contested(corpus_claims(docs@, kind), 0) is None,
        },
{
    let v = collect_claims(docs, kind);
    let ghost c = claim_views(v@);
    let mut i: usize = 0;
    while i < v.len()
        invariant
            i <= v@.len(),
            c == claim_views(v@),
            c == corpus_claims(docs@, kind),
            first_contested(c, 0) == first_contested(c, i as nat),
        decreases v.len() - i,
    {
        if claimed_before_at(&v, i) {
            assert(first_contested(c, i as nat) == Some(c[i as int]));
            let found = (v[i].0.clone(), v[i].1.clone(), v[i].2.clone());
            return Some(found);
        }
        i = i + 1;
    }
    None
}

// ---- event definitions that differ across slices ----

pub open spec fn same_source(a: EventAttributeSource, b: EventAttributeSource) -> bool {
    match (a, b) {
        (EventAttributeSource::CommandInput(x), EventAttributeSource::CommandInput(y)) => x@ == y@,
        (EventAttributeSource::ExternalField(p, f), EventAttributeSource::ExternalField(q, g)) => p@
            == q@ && f@ == g@,
        (EventAttributeSource::GeneratedEmpty, EventAttributeSource::GeneratedEmpty) => true,
        (EventAttributeSource::ReadModelField(m, f), EventAttributeSource::ReadModelField(n, g)) => m@
            == n@ && f@ == g@,
        (EventAttributeSource::Other, EventAttributeSource::Other) => true,
        _ => false,
    }
}

pub open spec fn same_attribute(a: EventAttribute, b: EventAttribute) -> bool {
    a.name@ == b.name@ && same_source(a.source, b.source)
}

pub open spec fn same_stream(a: Option<DefinitionName>, b: Option<DefinitionName>) -> bool {
    match (a, b) {
        (Some(x), Some(y)) => x@ == y@,
        (None, None) => true,
        _ => false,
    }
}

/// Whether two event definitions say the same thing.
pub open spec fn same_event(a: EventDefinition, b: EventDefinition) -> bool {
    &&& a.name@ == b.name@
    &&& same_stream(a.stream, b.stream)
    &&& a.attributes@.len() == b.attributes@.len()
    &&& forall|i: int|
        0 <= i < a.attributes@.len() ==> same_attribute(#[trigger] a.attributes@[i], b.attributes@[i])
}

fn same_attribute_source(a: &EventAttributeSource, b: &EventAttributeSource) -> (r: bool)
    ensures
        r == same_source(*a, *b),
{
    match (a, b) {
        (EventAttributeSource::CommandInput(x), EventAttributeSource::CommandInput(y)) => x.same_as(y),
        (EventAttributeSource::ExternalField(p, f), EventAttributeSource::ExternalField(q, g)) => p.same_as(q)
            && f.same_as(g),
        (EventAttributeSource::GeneratedEmpty, EventAttributeSource::GeneratedEmpty) => true,
        (EventAttributeSource::ReadModelField(m, f), EventAttributeSource::ReadModelField(n, g)) => m.same_as(n)
            && f.same_as(g),
        (EventAttributeSource::Other, EventAttributeSource::Other) => true,
        _ => false,
    }
}

fn same_event_definition(a: &EventDefinition, b: &EventDefinition) -> (r: bool)
    ensures
        r == same_event(*a, *b),
{
    if !a.name.same_as(&b.name) {
        return false;
    }
    let streams = match (&a.stream, &b.stream) {
        (Some(x), Some(y)) => x.same_as(y),
        (None, None) => true,
        _ => false,
    };
    if !streams {
        return false;
    }
    if a.attributes.len() != b.attributes.len() {
        return false;
    }
    let mut i: usize = 0;
    while i < a.attributes.len()
        invariant
            i <= a.attributes@.len(),
            a.attributes@.len() == b.attributes@.len(),
            forall|j: int| 0 <= j < i ==> same_attribute(#[trigger] a.attributes@[j], b.attributes@[j]),
        decreases a.attributes.len() - i,
    {
        let x = &a.attributes[i];
        let y = &b.attributes[i];
        if !(x.name.same_as(&y.name) && same_attribute_source(&x.source, &y.source)) {
            assert(!same_attribute(a.attributes@[i as int], b.attributes@[i as int]));
            return false;
        }
        i = i + 1;
    }
    true
}

/// The event definitions of slice files, in order.
pub open spec fn corpus_events(docs: Seq<EventModelDocument>) -> Seq<EventDefinition>
    decreases docs.len(),
{
    if docs.len() == 0 {
        Seq::empty()
    } else {
        corpus_events(docs.drop_last()) + if docs.last().file_kind == EventModelFileKind::Slice {
            docs.last().event_definitions@
        } else {
            Seq::empty()
        }
    }
}

/// Whether event `i` has the name of an earlier, different definition.
pub open spec fn conflicts_before(evs: Seq<EventDefinition>, i: int) -> bool {
    exists|j: int| 0 <= j < i && (#[trigger] evs[j]).name@ == evs[i].name@ && !same_event(evs[j], evs[i])
}

/// The name of the first event, from position `i` on, that conflicts with an
/// earlier one.
pub open spec fn first_conflicting_event(evs: Seq<EventDefinition>, i: nat) -> Option<Seq<char>>
    decreases evs.len() - i,
{
    if i >= evs.len() {
        None
    } else if conflicts_before(evs, i as int) {
        Some(evs[i as int].name@)
    } else {
        first_conflicting_event(evs, i + 1)
    }
}

pub open spec fn positions_match(docs: Seq<EventModelDocument>, pos: Seq<(usize, usize)>, evs: Seq<EventDefinition>) -> bool {
    &&& pos.len() == evs.len()
    &&& forall|k: int|
        0 <= k < pos.len() ==> #[trigger] pos[k].0 < docs.len() && pos[k].1 < docs[pos[k].0 as int].event_definitions@.len()
            && docs[pos[k].0 as int].event_definitions@[pos[k].1 as int] == evs[k]
}

fn event_positions(docs: &[EventModelDocument]) -> (r: Vec<(usize, usize)>)
    ensures
        positions_match(docs@, r@, corpus_events(docs@)),
{
    let mut out: Vec<(usize, usize)> = Vec::new();
    let mut d: usize = 0;
    while d < docs.len()
        invariant
            d <= docs@.len(),
            positions_match(docs@, out@, corpus_events(docs@.take(d as int))),
        decreases docs.len() - d,
    {
        proof {
            assert(docs@.take(d + 1).drop_last() =~= docs@.take(d as int));
        }
        let ghost pre = corpus_events(docs@.take(d as int));
        if docs[d].file_kind == EventModelFileKind::Slice {
            let evs = &docs[d].event_definitions;
            let mut k: usize = 0;
            while k < evs.len()
                invariant
                    d < docs@.len(),
                    k <= evs@.len(),
                    *evs == docs@[d as int].event_definitions,
                    positions_match(docs@, out@, pre + evs@.take(k as int)),
                decreases evs.len() - k,
            {
                out.push((d, k));
                proof {
                    assert(pre + evs@.take(k + 1) =~= (pre + evs@.take(k as int)).push(evs@[k as int]));
                }
                k = k + 1;
            }
            proof {
                assert(evs@.take(evs@.len() as int) =~= evs@);
            }
        } else {
            proof {
                assert(pre + Seq::<EventDefinition>::empty() =~= pre);
            }
        }
        d = d + 1;
    }
    assert(docs@.take(docs@.len() as int) =~= docs@);
    out
}

/// The name of the first event of a slice file whose definition differs from
/// an earlier one of the same name.
pub fn conflicting_event_definition<'a>(docs: &'a [EventModelDocument]) -> (r: Option<&'a DefinitionName>)
    ensures
        match r {
            Some(n) => first_conflicting_event(corpus_events(docs@), 0) == Some(n@),
            None => first_conflicting_event(corpus_events(docs@), 0) is None,
        },
{
    let pos = event_positions(docs);
    let ghost evs = corpus_events(docs@);
    let mut i: usize = 0;
    while i < pos.len()
        invariant
            i <= pos@.len(),
            evs == corpus_events(docs@),
            positions_match(docs@, pos@, evs),
            first_conflicting_event(evs, 0) == first_conflicting_event(evs, i as nat),
        decreases pos.len() - i,
    {
        let (di, ki) = pos[i];
        assert(pos@[i as int].0 < docs@.len());
        let ei = &docs[di].event_definitions[ki];
        let mut j: usize = 0;
        let mut found = false;
        while j < i
            invariant
                i < pos@.len(),
                j <= i,
                positions_match(docs@, pos@, evs),
                *ei == evs[i as int],
                !found ==> forall|k: int|
                    0 <= k < j ==> !((#[trigger] evs[k]).name@ == evs[i as int].name@ && !same_event(
                        evs[k],
                        evs[i as int],
                    )),
                found ==> conflicts_before(evs, i as int),
            decreases i - j,
        {
            let (dj, kj) = pos[j];
            assert(pos@[j as int].0 < docs@.len());
            let ej = &docs[dj].event_definitions[kj];
            if !found && ej.name.same_as(&ei.name) && !same_event_definition(ej, ei) {
                assert(evs[j as int].name@ == evs[i as int].name@ && !same_event(evs[j as int], evs[i as int]));
                found = true;
            }
            j = j + 1;
        }
        if found {
            assert(first_conflicting_event(evs, i as nat) == Some(evs[i as int].name@));
            return Some(&ei.name);
        }
        i = i + 1;
    }
    None
}

} // verus!
