//! Names used by event-model documents, the ordered name sets that hold them,
//! and the issue a failed validation reports.

use vstd::prelude::*;

use crate::text::{chars_of, trim};
use crate::types::text_wf;

verus! {

/// A trimmed, non-empty name of a definition, slice, step, lane or element.
#[derive(Debug)]
pub struct DefinitionName {
    text: String,
}

impl View for DefinitionName {
    type V = Seq<char>;

    closed spec fn view(&self) -> Seq<char> {
        self.text@
    }
}

/// The views of a sequence of names.
pub open spec fn name_views(s: Seq<DefinitionName>) -> Seq<Seq<char>> {
    s.map_values(|n: DefinitionName| n@)
}

/// Whether `s` holds a name whose text is `n`.
pub open spec fn has_name(s: Seq<DefinitionName>, n: Seq<char>) -> bool {
    exists|i: int| 0 <= i < s.len() && #[trigger] s[i]@ == n
}

impl DefinitionName {
    #[verifier::type_invariant]
    spec fn wf(&self) -> bool {
        text_wf(self.text@)
    }

    /// Trims `raw`; refuses it when nothing is left.
    pub fn try_new(raw: String) -> (r: Option<Self>)
        ensures
            r is Some <==> trim(raw@).len() > 0,
            r matches Some(v) ==> v@ == trim(raw@),
    {
        let t = crate::text::trim_chars(raw.as_str());
        if t.as_str().is_empty() {
            None
        } else {
            Some(DefinitionName { text: t })
        }
    }

    /// The name's text.
    pub fn as_str(&self) -> (r: &str)
        ensures
            r@ == self@,
            text_wf(r@),
    {
        proof {
            use_type_invariant(self);
        }
        self.text.as_str()
    }

    /// Whether both names have the same text.
    pub fn same_as(&self, other: &DefinitionName) -> (r: bool)
        ensures
            r == (self@ == other@),
    {
        self.text == other.text
    }

    /// Whether the name's text is exactly `lit`.
    pub fn is_text(&self, lit: &str) -> (r: bool)
        ensures
            r == (self@ == lit@),
    {
        let v = chars_of(self.text.as_str());
        crate::types::text_is(&v, lit)
    }
}

impl Clone for DefinitionName {
    fn clone(&self) -> (r: Self)
        ensures
            r@ == self@,
    {
        proof {
            use_type_invariant(self);
        }
        DefinitionName { text: self.text.clone() }
    }
}

/// Whether `v` holds a name with the text of `n`.
pub fn contains_name(v: &Vec<DefinitionName>, n: &DefinitionName) -> (r: bool)
    ensures
        r == has_name(v@, n@),
{
    let mut i: usize = 0;
    while i < v.len()
        invariant
            i <= v@.len(),
            forall|j: int| 0 <= j < i ==> v@[j]@ != n@,
        decreases v.len() - i,
    {
        if v[i].same_as(n) {
            return true;
        }
        i = i + 1;
    }
    false
}

/// Lexicographic order on character sequences by code point, the order of
/// `String`.
pub open spec fn seq_lt(a: Seq<char>, b: Seq<char>) -> bool
    decreases a.len(),
{
    if a.len() == 0 {
        b.len() > 0
    } else if b.len() == 0 {
        false
    } else if a[0] != b[0] {
        a[0] < b[0]
    } else {
        seq_lt(a.drop_first(), b.drop_first())
    }
}

pub proof fn lemma_seq_lt_irreflexive(a: Seq<char>)
    ensures
        !seq_lt(a, a),
    decreases a.len(),
{
    if a.len() > 0 {
        lemma_seq_lt_irreflexive(a.drop_first());
    }
}

pub proof fn lemma_seq_lt_trichotomy(a: Seq<char>, b: Seq<char>)
    ensures
        seq_lt(a, b) || seq_lt(b, a) || a == b,
        !(seq_lt(a, b) && seq_lt(b, a)),
    decreases a.len(),
{
    if a.len() > 0 && b.len() > 0 && a[0] == b[0] {
        lemma_seq_lt_trichotomy(a.drop_first(), b.drop_first());
        if a.drop_first() == b.drop_first() {
            assert(a =~= seq![a[0]] + a.drop_first());
            assert(b =~= seq![b[0]] + b.drop_first());
        }
    } else if a.len() == 0 && b.len() == 0 {
        assert(a =~= b);
    }
}

pub proof fn lemma_seq_lt_transitive(a: Seq<char>, b: Seq<char>, c: Seq<char>)
    requires
        seq_lt(a, b),
        seq_lt(b, c),
    ensures
        seq_lt(a, c),
    decreases a.len(),
{
    if a.len() > 0 && b.len() > 0 && c.len() > 0 && a[0] == b[0] && b[0] == c[0] {
        lemma_seq_lt_transitive(a.drop_first(), b.drop_first(), c.drop_first());
    }
}

/// Compares two names in the order of their text.
pub fn name_lt(a: &DefinitionName, b: &DefinitionName) -> (r: bool)
    ensures
        r == seq_lt(a@, b@),
{
    let x = chars_of(a.as_str());
    let y = chars_of(b.as_str());
    let mut k: usize = 0;
    assert(x@.skip(0) =~= x@);
    assert(y@.skip(0) =~= y@);
    while k < x.len() && k < y.len() && x[k] == y[k]
        invariant
            k <= x@.len(),
            k <= y@.len(),
            seq_lt(x@, y@) == seq_lt(x@.skip(k as int), y@.skip(k as int)),
        decreases x.len() - k,
    {
        assert(x@.skip(k as int).drop_first() =~= x@.skip(k + 1));
        assert(y@.skip(k as int).drop_first() =~= y@.skip(k + 1));
        k = k + 1;
    }
    if k == x.len() {
        k < y.len()
    } else if k == y.len() {
        false
    } else {
        x[k] < y[k]
    }
}

/// Whether `s` is strictly increasing (hence free of repeats).
pub open spec fn strictly_sorted(s: Seq<Seq<char>>) -> bool {
    forall|i: int, j: int| 0 <= i < j < s.len() ==> seq_lt(#[trigger] s[i], #[trigger] s[j])
}

/// A set of names iterated in the order of their text, as an ordered set is.
#[derive(Debug)]
pub struct NameSet {
    names: Vec<DefinitionName>,
}

impl View for NameSet {
    type V = Seq<Seq<char>>;

    /// The names in iteration order.
    closed spec fn view(&self) -> Seq<Seq<char>> {
        name_views(self.names@)
    }
}

impl NameSet {
    #[verifier::type_invariant]
    spec fn wf(&self) -> bool {
        strictly_sorted(name_views(self.names@))
    }

    /// The empty set.
    pub fn new() -> (r: Self)
        ensures
            r@ == Seq::<Seq<char>>::empty(),
    {
        let r = NameSet { names: Vec::new() };
        assert(name_views(r.names@) =~= Seq::<Seq<char>>::empty());
        r
    }

    /// The number of names.
    pub fn len(&self) -> (r: usize)
        ensures
            r == self@.len(),
    {
        self.names.len()
    }

    /// Whether the set holds no name.
    pub fn is_empty(&self) -> (r: bool)
        ensures
            r == (self@.len() == 0),
    {
        self.names.len() == 0
    }

    /// The name at position `i` of the iteration order.
    pub fn get(&self, i: usize) -> (r: &DefinitionName)
        requires
            i < self@.len(),
        ensures
            r@ == self@[i as int],
    {
        &self.names[i]
    }

    /// Whether the set holds `n`.
    pub fn contains(&self, n: &DefinitionName) -> (r: bool)
        ensures
            r == self@.contains(n@),
    {
        let r = contains_name(&self.names, n);
        proof {
            if r {
                let i = choose|i: int| 0 <= i < self.names@.len() && #[trigger] self.names@[i]@ == n@;
                assert(self@[i] == n@);
            } else {
                if self@.contains(n@) {
                    let i = choose|i: int| 0 <= i < self@.len() && self@[i] == n@;
                    assert(self.names@[i]@ == n@);
                }
            }
        }
        r
    }

    /// Adds `n`, keeping the order; adding a name already present changes
    /// nothing.
    pub fn insert(&mut self, n: DefinitionName)
        ensures
            old(self)@.contains(n@) ==> final(self)@ == old(self)@,
            !old(self)@.contains(n@) ==> exists|j: int|
                0 <= j <= old(self)@.len() && final(self)@ == old(self)@.insert(j, n@),
            final(self)@.to_set() == old(self)@.to_set().insert(n@),
    {
        proof {
            use_type_invariant(&*self);
        }
        let ghost before = self@;
        let mut j: usize = 0;
        while j < self.names.len() && name_lt(&self.names[j], &n)
            invariant
                j <= self.names@.len(),
                self@ == before,
                strictly_sorted(before),
                forall|k: int| 0 <= k < j ==> seq_lt(#[trigger] before[k], n@),
            decreases self.names.len() - j,
        {
            j = j + 1;
        }
        if j < self.names.len() && self.names[j].same_as(&n) {
            assert(before[j as int] == n@);
            assert(before.contains(n@));
            assert(before.to_set() =~= before.to_set().insert(n@));
            return;
        }
        proof {
            if j < before.len() {
                lemma_seq_lt_trichotomy(before[j as int], n@);
            }
            assert forall|k: int| 0 <= k < before.len() implies before[k] != n@ by {
                if k < j {
                    lemma_seq_lt_irreflexive(n@);
                } else {
                    if k > j {
                        lemma_seq_lt_transitive(n@, before[j as int], before[k]);
                    }
                    lemma_seq_lt_irreflexive(n@);
                }
            }
        }
        let ghost nv = n@;
        let mut names: Vec<DefinitionName> = Vec::new();
        std::mem::swap(&mut names, &mut self.names);
        names.insert(j, n);
        let ghost after = name_views(names@);
        assert(after =~= before.insert(j as int, nv));
        proof {
            assert forall|a: int, b: int| 0 <= a < b < after.len() implies seq_lt(
                #[trigger] after[a],
                #[trigger] after[b],
            ) by {
                if b < j {
                } else if b == j {
                } else if a < j {
                    if b - 1 > j {
                        lemma_seq_lt_transitive(nv, before[j as int], before[b - 1]);
                    }
                    lemma_seq_lt_transitive(after[a], nv, after[b]);
                } else if a == j {
                    if b - 1 > j {
                        lemma_seq_lt_transitive(nv, before[j as int], before[b - 1]);
                    }
                } else {
                }
            }
            assert(!before.contains(nv));
            assert forall|x: Seq<char>| after.to_set().contains(x) == before.to_set().insert(
                nv,
            ).contains(x) by {
                if after.contains(x) {
                    let i = choose|i: int| 0 <= i < after.len() && after[i] == x;
                    if i < j {
                        assert(before[i] == x);
                    } else if i > j {
                        assert(before[i - 1] == x);
                    }
                }
                if before.contains(x) {
                    let i = choose|i: int| 0 <= i < before.len() && before[i] == x;
                    if i < j {
                        assert(after[i] == x);
                    } else {
                        assert(after[i + 1] == x);
                    }
                }
                if x == nv {
                    assert(after[j as int] == x);
                }
            }
            assert(after.to_set() =~= before.to_set().insert(nv));
        }
        self.names = names;
    }
}

/// A top-level key of an event-model document.
#[derive(Debug)]
pub struct TopLevelKey {
    text: String,
}

impl View for TopLevelKey {
    type V = Seq<char>;

    closed spec fn view(&self) -> Seq<char> {
        self.text@
    }
}

impl TopLevelKey {
    #[verifier::type_invariant]
    spec fn wf(&self) -> bool {
        text_wf(self.text@)
    }

    /// Trims `raw`; refuses it when nothing is left.
    pub fn try_new(raw: String) -> (r: Option<Self>)
        ensures
            r is Some <==> trim(raw@).len() > 0,
            r matches Some(v) ==> v@ == trim(raw@),
    {
        let t = crate::text::trim_chars(raw.as_str());
        if t.as_str().is_empty() {
            None
        } else {
            Some(TopLevelKey { text: t })
        }
    }

    /// The key's text.
    pub fn as_str(&self) -> (r: &str)
        ensures
            r@ == self@,
    {
        self.text.as_str()
    }

    /// Whether the key's text is exactly `lit`.
    pub fn is_text(&self, lit: &str) -> (r: bool)
        ensures
            r == (self@ == lit@),
    {
        let v = chars_of(self.text.as_str());
        crate::types::text_is(&v, lit)
    }
}

/// The views of a sequence of top-level keys.
pub open spec fn key_views(s: Seq<TopLevelKey>) -> Seq<Seq<char>> {
    s.map_values(|k: TopLevelKey| k@)
}

/// The top-level keys of a document, each key once.
#[derive(Debug)]
pub struct TopLevelKeys {
    keys: Vec<TopLevelKey>,
}

impl View for TopLevelKeys {
    type V = Set<Seq<char>>;

    /// The texts of the keys.
    closed spec fn view(&self) -> Set<Seq<char>> {
        key_views(self.keys@).to_set()
    }
}

impl TopLevelKeys {
    #[verifier::type_invariant]
    spec fn wf(&self) -> bool {
        key_views(self.keys@).no_duplicates()
    }

    /// The set of no keys.
    pub fn new() -> (r: Self)
        ensures
            r@ == Set::<Seq<char>>::empty(),
    {
        let r = TopLevelKeys { keys: Vec::new() };
        assert(key_views(r.keys@) =~= Seq::<Seq<char>>::empty());
        assert(key_views(r.keys@).to_set() =~= Set::<Seq<char>>::empty());
        r
    }

    /// Whether the set holds the key whose text is `k`.
    pub fn contains_text(&self, k: &str) -> (r: bool)
        ensures
            r == self@.contains(k@),
    {
        let mut i: usize = 0;
        while i < self.keys.len()
            invariant
                i <= self.keys@.len(),
                forall|j: int| 0 <= j < i ==> self.keys@[j]@ != k@,
            decreases self.keys.len() - i,
        {
            if self.keys[i].is_text(k) {
                assert(key_views(self.keys@)[i as int] == k@);
                return true;
            }
            i = i + 1;
        }
        proof {
            if key_views(self.keys@).contains(k@) {
                let j = choose|j: int| 0 <= j < key_views(self.keys@).len() && key_views(self.keys@)[j] == k@;
                assert(self.keys@[j]@ == k@);
            }
        }
        false
    }

    /// Adds `k`; adding a key already present changes nothing.
    pub fn insert(&mut self, k: TopLevelKey)
        ensures
            final(self)@ == old(self)@.insert(k@),
    {
        proof {
            use_type_invariant(&*self);
        }
        let ghost before = key_views(self.keys@);
        if self.contains_text(k.as_str()) {
            assert(before.to_set() =~= before.to_set().insert(k@));
            return;
        }
        let ghost kv = k@;
        let mut keys: Vec<TopLevelKey> = Vec::new();
        std::mem::swap(&mut keys, &mut self.keys);
        keys.push(k);
        let ghost after = key_views(keys@);
        assert(after =~= before.push(kv));
        proof {
            assert(!before.contains(kv));
            assert(after.no_duplicates()) by {
                assert forall|a: int, b: int| 0 <= a < after.len() && 0 <= b < after.len() && a != b
                    implies after[a] != after[b] by {
                    if a < before.len() && b < before.len() {
                    } else if a == before.len() {
                        assert(after[b] == before[b]);
                    } else {
                        assert(after[a] == before[a]);
                    }
                }
            }
            assert forall|x: Seq<char>| after.to_set().contains(x) == before.to_set().insert(kv).contains(x) by {
                if after.contains(x) {
                    let i = choose|i: int| 0 <= i < after.len() && after[i] == x;
                    if i < before.len() {
                        assert(before[i] == x);
                    }
                }
                if before.contains(x) {
                    let i = choose|i: int| 0 <= i < before.len() && before[i] == x;
                    assert(after[i] == x);
                }
                if x == kv {
                    assert(after[before.len() as int] == x);
                }
            }
            assert(after.to_set() =~= before.to_set().insert(kv));
        }
        self.keys = keys;
    }
}

/// Why an event-model document, or a set of them, is not acceptable.
#[derive(Debug)]
pub struct ValidationIssue {
    message: String,
}

impl View for ValidationIssue {
    type V = Seq<char>;

    closed spec fn view(&self) -> Seq<char> {
        self.message@
    }
}

impl ValidationIssue {
    pub fn new(message: String) -> (r: Self)
        ensures
            r@ == message@,
    {
        ValidationIssue { message }
    }

    /// The issue's message.
    pub fn as_str(&self) -> (r: &str)
        ensures
            r@ == self@,
    {
        self.message.as_str()
    }
}

/// The issue reported for a document that is not a JSON object.
pub fn model_must_be_object_issue() -> (r: ValidationIssue)
    ensures
        r@ == "model must be a JSON object"@,
{
    ValidationIssue::new("model must be a JSON object".to_owned())
}

/// The issue reported for an empty top-level key.
pub fn empty_top_level_key_issue() -> (r: ValidationIssue)
    ensures
        r@ == "top-level key must not be empty"@,
{
    ValidationIssue::new("top-level key must not be empty".to_owned())
}

} // verus!
