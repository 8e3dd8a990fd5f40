//! Searching sequences for the first issue, and building issue messages.

use vstd::prelude::*;

use crate::validation::names::ValidationIssue;

verus! {

/// `a` when it holds an issue, else `b`.
pub open spec fn or_else<B>(a: Option<B>, b: Option<B>) -> Option<B> {
    if a is Some {
        a
    } else {
        b
    }
}

/// The issue a validation result reports, if any.
pub open spec fn issue_of(r: Result<(), ValidationIssue>) -> Option<Seq<char>> {
    match r {
        Ok(()) => None,
        Err(e) => Some(e@),
    }
}

/// The message of an optional issue.
pub open spec fn issue_view(r: Option<ValidationIssue>) -> Option<Seq<char>> {
    match r {
        Some(e) => Some(e@),
        None => None,
    }
}

pub fn into_result(r: Option<ValidationIssue>) -> (out: Result<(), ValidationIssue>)
    ensures
        issue_of(out) == issue_view(r),
{
    match r {
        Some(e) => Err(e),
        None => Ok(()),
    }
}

/// The first `Some` that `f` gives, with the context `c`, over `s`, in order.
pub open spec fn first_with<C, A, B>(c: C, s: Seq<A>, f: spec_fn(C, A) -> Option<B>) -> Option<B>
    decreases s.len(),
{
    if s.len() == 0 {
        None
    } else {
        match f(c, s[0]) {
            Some(b) => Some(b),
            None => first_with(c, s.drop_first(), f),
        }
    }
}

pub proof fn lemma_first_with_step<C, A, B>(c: C, s: Seq<A>, f: spec_fn(C, A) -> Option<B>, i: int)
    requires
        0 <= i < s.len(),
    ensures
        first_with(c, s.subrange(i, s.len() as int), f) == (match f(c, s[i]) {
            Some(b) => Some(b),
            None => first_with(c, s.subrange(i + 1, s.len() as int), f),
        }),
{
    assert(s.subrange(i, s.len() as int).drop_first() =~= s.subrange(i + 1, s.len() as int));
}

/// `first_with` gives what `f` gives at the first item where it gives
/// something.
pub proof fn lemma_first_with_at<C, A, B>(c: C, s: Seq<A>, f: spec_fn(C, A) -> Option<B>, i: int)
    requires
        0 <= i < s.len(),
        f(c, s[i]) is Some,
        forall|j: int| 0 <= j < i ==> #[trigger] f(c, s[j]) is None,
    ensures
        first_with(c, s, f) == f(c, s[i]),
    decreases i,
{
    if i > 0 {
        let d = s.drop_first();
        assert forall|j: int| 0 <= j < i - 1 implies #[trigger] f(c, d[j]) is None by {
            assert(d[j] == s[j + 1]);
        }
        assert(d[i - 1] == s[i]);
        assert(f(c, s[0]) is None);
        lemma_first_with_at(c, d, f, i - 1);
    }
}

/// `first_with` finds nothing exactly when `f` finds nothing at each item.
pub proof fn lemma_first_with_none<C, A, B>(c: C, s: Seq<A>, f: spec_fn(C, A) -> Option<B>)
    ensures
        first_with(c, s, f) is None <==> forall|i: int|
            0 <= i < s.len() ==> #[trigger] f(c, s[i]) is None,
    decreases s.len(),
{
    if s.len() > 0 {
        lemma_first_with_none(c, s.drop_first(), f);
        assert forall|i: int| 1 <= i < s.len() implies #[trigger] f(c, s[i]) == f(
            c,
            s.drop_first()[i - 1],
        ) by {}
        if first_with(c, s, f) is None {
            assert forall|i: int| 0 <= i < s.len() implies #[trigger] f(c, s[i]) is None by {
                if i > 0 {
                    assert(f(c, s.drop_first()[i - 1]) is None);
                }
            }
        } else {
            if f(c, s[0]) is None {
                let i = choose|i: int|
                    0 <= i < s.drop_first().len() && !(#[trigger] f(c, s.drop_first()[i]) is None);
                assert(f(c, s[i + 1]) is Some);
            }
        }
    }
}

/// The first issue that `f` reports, with the context `ctx`, over the items of `v`.
pub fn first_issue_with<C, A, F: Fn(&C, &A) -> Option<ValidationIssue>>(
    ctx: &C,
    v: &[A],
    f: F,
    Ghost(sf): Ghost<spec_fn(C, A) -> Option<Seq<char>>>,
) -> (r: Option<ValidationIssue>)
    requires
        forall|i: int| 0 <= i < v@.len() ==> call_requires(f, (ctx, &v@[i])),
        forall|c: &C, a: &A, o: Option<ValidationIssue>|
            call_ensures(f, (c, a), o) ==> issue_view(o) == sf(*c, *a),
    ensures
        issue_view(r) == first_with(*ctx, v@, sf),
{
    let mut i: usize = 0;
    assert(v@.subrange(0, v@.len() as int) =~= v@);
    while i < v.len()
        invariant
            i <= v@.len(),
            forall|k: int| 0 <= k < v@.len() ==> call_requires(f, (ctx, &v@[k])),
            forall|c: &C, a: &A, o: Option<ValidationIssue>|
                call_ensures(f, (c, a), o) ==> issue_view(o) == sf(*c, *a),
            first_with(*ctx, v@, sf) == first_with(*ctx, v@.subrange(i as int, v@.len() as int), sf),
        decreases v.len() - i,
    {
        proof {
            lemma_first_with_step(*ctx, v@, sf, i as int);
        }
        let o = f(ctx, &v[i]);
        if o.is_some() {
            return o;
        }
        i = i + 1;
    }
    assert(v@.subrange(i as int, v@.len() as int) =~= Seq::<A>::empty());
    None
}

/// The first issue that `f` reports, with the two contexts `c` and `d`, over
/// the items of `v`.
pub fn first_issue_with2<C, D, A, F: Fn(&C, &D, &A) -> Option<ValidationIssue>>(
    c: &C,
    d: &D,
    v: &[A],
    f: F,
    Ghost(sf): Ghost<spec_fn((C, D), A) -> Option<Seq<char>>>,
) -> (r: Option<ValidationIssue>)
    requires
        forall|i: int| 0 <= i < v@.len() ==> call_requires(f, (c, d, &v@[i])),
        forall|x: &C, y: &D, a: &A, o: Option<ValidationIssue>|
            call_ensures(f, (x, y, a), o) ==> issue_view(o) == sf((*x, *y), *a),
    ensures
        issue_view(r) == first_with((*c, *d), v@, sf),
{
    let ghost ctx = (*c, *d);
    let mut i: usize = 0;
    assert(v@.subrange(0, v@.len() as int) =~= v@);
    while i < v.len()
        invariant
            i <= v@.len(),
            ctx == (*c, *d),
            forall|k: int| 0 <= k < v@.len() ==> call_requires(f, (c, d, &v@[k])),
            forall|x: &C, y: &D, a: &A, o: Option<ValidationIssue>|
                call_ensures(f, (x, y, a), o) ==> issue_view(o) == sf((*x, *y), *a),
            first_with(ctx, v@, sf) == first_with(ctx, v@.subrange(i as int, v@.len() as int), sf),
        decreases v.len() - i,
    {
        proof {
            lemma_first_with_step(ctx, v@, sf, i as int);
        }
        let o = f(c, d, &v[i]);
        if o.is_some() {
            return o;
        }
        i = i + 1;
    }
    assert(v@.subrange(i as int, v@.len() as int) =~= Seq::<A>::empty());
    None
}

/// The first issue that `f` reports, with the three contexts `c`, `d` and
/// `e`, over the items of `v`.
pub fn first_issue_with3<C, D, E, A, F: Fn(&C, &D, &E, &A) -> Option<ValidationIssue>>(
    c: &C,
    d: &D,
    e: &E,
    v: &[A],
    f: F,
    Ghost(sf): Ghost<spec_fn((C, D, E), A) -> Option<Seq<char>>>,
) -> (r: Option<ValidationIssue>)
    requires
        forall|i: int| 0 <= i < v@.len() ==> call_requires(f, (c, d, e, &v@[i])),
        forall|x: &C, y: &D, z: &E, a: &A, o: Option<ValidationIssue>|
            call_ensures(f, (x, y, z, a), o) ==> issue_view(o) == sf((*x, *y, *z), *a),
    ensures
        issue_view(r) == first_with((*c, *d, *e), v@, sf),
{
    let ghost ctx = (*c, *d, *e);
    let mut i: usize = 0;
    assert(v@.subrange(0, v@.len() as int) =~= v@);
    while i < v.len()
        invariant
            i <= v@.len(),
            ctx == (*c, *d, *e),
            forall|k: int| 0 <= k < v@.len() ==> call_requires(f, (c, d, e, &v@[k])),
            forall|x: &C, y: &D, z: &E, a: &A, o: Option<ValidationIssue>|
                call_ensures(f, (x, y, z, a), o) ==> issue_view(o) == sf((*x, *y, *z), *a),
            first_with(ctx, v@, sf) == first_with(ctx, v@.subrange(i as int, v@.len() as int), sf),
        decreases v.len() - i,
    {
        proof {
            lemma_first_with_step(ctx, v@, sf, i as int);
        }
        let o = f(c, d, e, &v[i]);
        if o.is_some() {
            return o;
        }
        i = i + 1;
    }
    assert(v@.subrange(i as int, v@.len() as int) =~= Seq::<A>::empty());
    None
}

/// An issue whose message is `a`.
pub fn msg1(a: &str) -> (r: ValidationIssue)
    ensures
        r@ == a@,
{
    ValidationIssue::new(a.to_owned())
}

/// An issue whose message is `a x b y`.
pub fn msg4(a: &str, x: &str, b: &str, y: &str) -> (r: ValidationIssue)
    ensures
        r@ == a@ + x@ + b@ + y@,
{
    let mut m = a.to_owned();
    m.append(x);
    m.append(b);
    m.append(y);
    ValidationIssue::new(m)
}

/// An issue whose message is `a x b y c z`.
pub fn msg6(a: &str, x: &str, b: &str, y: &str, c: &str, z: &str) -> (r: ValidationIssue)
    ensures
        r@ == a@ + x@ + b@ + y@ + c@ + z@,
{
    let mut m = a.to_owned();
    m.append(x);
    m.append(b);
    m.append(y);
    m.append(c);
    m.append(z);
    ValidationIssue::new(m)
}

/// An issue whose message is `a x b`.
pub fn msg3(a: &str, x: &str, b: &str) -> (r: ValidationIssue)
    ensures
        r@ == a@ + x@ + b@,
{
    let mut m = a.to_owned();
    m.append(x);
    m.append(b);
    ValidationIssue::new(m)
}

/// An issue whose message is `a x b y c`.
pub fn msg5(a: &str, x: &str, b: &str, y: &str, c: &str) -> (r: ValidationIssue)
    ensures
        r@ == a@ + x@ + b@ + y@ + c@,
{
    let mut m = a.to_owned();
    m.append(x);
    m.append(b);
    m.append(y);
    m.append(c);
    ValidationIssue::new(m)
}

/// An issue whose message is `a x b y c z d`.
pub fn msg7(a: &str, x: &str, b: &str, y: &str, c: &str, z: &str, d: &str) -> (r:
    ValidationIssue)
    ensures
        r@ == a@ + x@ + b@ + y@ + c@ + z@ + d@,
{
    let mut m = a.to_owned();
    m.append(x);
    m.append(b);
    m.append(y);
    m.append(c);
    m.append(z);
    m.append(d);
    ValidationIssue::new(m)
}

/// An issue whose message is `a x b y c z d w`.
pub fn msg8(a: &str, x: &str, b: &str, y: &str, c: &str, z: &str, d: &str, w: &str) -> (r:
    ValidationIssue)
    ensures
        r@ == a@ + x@ + b@ + y@ + c@ + z@ + d@ + w@,
{
    let mut m = a.to_owned();
    m.append(x);
    m.append(b);
    m.append(y);
    m.append(c);
    m.append(z);
    m.append(d);
    m.append(w);
    ValidationIssue::new(m)
}

/// An issue whose message is `a x b y c z d w e`.
pub fn msg9(a: &str, x: &str, b: &str, y: &str, c: &str, z: &str, d: &str, w: &str, e: &str) -> (r:
    ValidationIssue)
    ensures
        r@ == a@ + x@ + b@ + y@ + c@ + z@ + d@ + w@ + e@,
{
    let mut m = a.to_owned();
    m.append(x);
    m.append(b);
    m.append(y);
    m.append(c);
    m.append(z);
    m.append(d);
    m.append(w);
    m.append(e);
    ValidationIssue::new(m)
}

} // verus!
