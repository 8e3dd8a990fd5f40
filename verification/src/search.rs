//! Searching sequences: the first item that satisfies a predicate, and
//! collecting results up to the first failure.

use vstd::prelude::*;

verus! {

/// Whether `i` is the first position of `s` whose item satisfies `p`.
pub open spec fn is_first<A>(s: Seq<A>, p: spec_fn(A) -> bool, i: int) -> bool {
    &&& 0 <= i < s.len()
    &&& p(s[i])
    &&& forall|j: int| 0 <= j < i ==> !p(#[trigger] s[j])
}

/// Whether some item of `s` satisfies `p`.
pub open spec fn some_item<A>(s: Seq<A>, p: spec_fn(A) -> bool) -> bool {
    exists|i: int| 0 <= i < s.len() && p(#[trigger] s[i])
}

/// The first item of `s` that satisfies `p`.
pub open spec fn first_item<A>(s: Seq<A>, p: spec_fn(A) -> bool) -> A {
    s[choose|i: int| is_first(s, p, i)]
}

pub proof fn lemma_first_item<A>(s: Seq<A>, p: spec_fn(A) -> bool, i: int)
    requires
        is_first(s, p, i),
    ensures
        first_item(s, p) == s[i],
{
    let j = choose|j: int| is_first(s, p, j);
    assert(is_first(s, p, j));
    if j < i {
        assert(!p(s[j]));
    }
    if i < j {
        assert(!p(s[i]));
    }
}

/// The results of `f` over `s`, in order, or the first failure.
pub open spec fn collect_all<A, B, E>(s: Seq<A>, f: spec_fn(A) -> Result<B, E>) -> Result<Seq<B>, E>
    decreases s.len(),
{
    if s.len() == 0 {
        Ok(Seq::empty())
    } else {
        match collect_all(s.drop_last(), f) {
            Err(e) => Err(e),
            Ok(prior) => match f(s.last()) {
                Err(e) => Err(e),
                Ok(b) => Ok(prior.push(b)),
            },
        }
    }
}

/// A failure over a prefix is the failure over the whole sequence.
pub proof fn lemma_collect_all_prefix_err<A, B, E>(s: Seq<A>, f: spec_fn(A) -> Result<B, E>, k: int)
    requires
        0 <= k <= s.len(),
        collect_all(s.take(k), f) is Err,
    ensures
        collect_all(s, f) == collect_all(s.take(k), f),
    decreases s.len() - k,
{
    if k == s.len() {
        assert(s.take(k) =~= s);
    } else {
        assert(s.drop_last().take(k) =~= s.take(k));
        lemma_collect_all_prefix_err(s.drop_last(), f, k);
    }
}

/// One more step of `collect_all` over a prefix.
pub proof fn lemma_collect_all_step<A, B, E>(s: Seq<A>, f: spec_fn(A) -> Result<B, E>, k: int)
    requires
        0 <= k < s.len(),
    ensures
        collect_all(s.take(k + 1), f) == (match collect_all(s.take(k), f) {
            Err(e) => Err(e),
            Ok(prior) => match f(s[k]) {
                Err(e) => Err(e),
                Ok(b) => Ok(prior.push(b)),
            },
        }),
{
    assert(s.take(k + 1).drop_last() =~= s.take(k));
    assert(s.take(k + 1).last() == s[k]);
}

} // verus!
