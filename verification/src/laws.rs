use crate::business_obj::BusinessObject;
use crate::projection::narrows;
use crate::reference::ComposedReference;
use vstd::prelude::*;

verus! {

/// `h` narrows in one step exactly as `f` followed by `g` does in two: from
/// a base that holds `a` it may reach a field that holds `c` just when `f`
/// may reach some `b` from `a` and `g` may reach `c` from that `b`.
pub open spec fn composes<A, B, C, F, G, H>(f: F, g: G, h: H) -> bool where
    F: Fn(&mut A) -> &mut B,
    G: Fn(&mut B) -> &mut C,
    H: Fn(&mut A) -> &mut C,
 {
    forall|a: A, c: C| #[trigger]
        narrows(h, a, c) <==> exists|b: B| #[trigger] narrows(f, a, b) && narrows(g, b, c)
}

/// `projection` hands out the part of its base that `part` names: whatever
/// field it returns holds `part` of what the base held.
pub open spec fn reads<A, X, P>(projection: P, part: spec_fn(A) -> X) -> bool where
    P: Fn(&mut A) -> &mut X,
 {
    forall|m: &mut A, x: &mut X| #[trigger] projection.ensures((m,), x) ==> *x == part(*m)
}

/// Clones never diverge: a clone of a capability is that capability, so it
/// may be handed the same targets and may miss in the same cases.
pub proof fn lemma_clones_never_diverge<A: BusinessObject>(first: A, second: A)
    requires
        cloned::<A>(first, second),
    ensures
        second == first,
        second.may_miss() == first.may_miss(),
        forall|value: A::Type| second.targets(value) == first.targets(value),
{
    first.clones_agree(&second);
}

/// Narrowing is associative: a reference built in two steps, by `f` and then
/// by `g`, may be handed exactly the targets of a reference built on the same
/// base in one step by a projection that composes the two.
pub proof fn lemma_narrow_is_associative<R, B, C, F, G, H>(
    two_steps: ComposedReference<ComposedReference<R, B, F>, C, G>,
    one_step: ComposedReference<R, C, H>,
) where
    R: BusinessObject,
    F: Fn(&mut R::Type) -> &mut B,
    G: Fn(&mut B) -> &mut C,
    H: Fn(&mut R::Type) -> &mut C,

    requires
        two_steps.base().base() == one_step.base(),
        composes(two_steps.base().projection(), two_steps.projection(), one_step.projection()),
    ensures
        two_steps.may_miss() == one_step.may_miss(),
        forall|value: C| two_steps.targets(value) <==> one_step.targets(value),
{
    let root = one_step.base();
    let f = two_steps.base().projection();
    let g = two_steps.projection();
    let h = one_step.projection();
    two_steps.targets_unfold();
    two_steps.base().targets_unfold();
    one_step.targets_unfold();
    assert forall|value: C| two_steps.targets(value) implies one_step.targets(value) by {
        let b = choose|b: B| two_steps.base().targets(b) && #[trigger] narrows(g, b, value);
        let a = choose|a: R::Type| root.targets(a) && #[trigger] narrows(f, a, b);
        assert(narrows(h, a, value));
    }
    assert forall|value: C| one_step.targets(value) implies two_steps.targets(value) by {
        let a = choose|a: R::Type| root.targets(a) && #[trigger] narrows(h, a, value);
        let b = choose|b: B| #[trigger] narrows(f, a, b) && narrows(g, b, value);
        assert(two_steps.base().targets(b));
    }
}

/// What follows for `execute`: whatever a closure may return through the
/// reference built in two steps it may return through the one built in one
/// step, and the other way round.
pub proof fn lemma_narrow_results_agree<R, B, C, F, G, H, K, V>(
    two_steps: ComposedReference<ComposedReference<R, B, F>, C, G>,
    one_step: ComposedReference<R, C, H>,
    body: K,
    result: V,
) where
    R: BusinessObject,
    F: Fn(&mut R::Type) -> &mut B,
    G: Fn(&mut B) -> &mut C,
    H: Fn(&mut R::Type) -> &mut C,
    K: FnOnce(&mut C) -> V,

    requires
        two_steps.base().base() == one_step.base(),
        composes(two_steps.base().projection(), two_steps.projection(), one_step.projection()),
    ensures
        (exists|t: &mut C| two_steps.targets(*t) && #[trigger] body.ensures((t,), result)) <==> (
        exists|t: &mut C| one_step.targets(*t) && #[trigger] body.ensures((t,), result)),
{
    lemma_narrow_is_associative(two_steps, one_step);
}

/// Narrowing in two steps and in one step reach the same part of the root:
/// where `f` hands out `part_f` of its base, `g` hands out `part_g`, and `h`
/// hands out `part_g` of `part_f`, a closure run through either reference is
/// handed `part_g` of `part_f` of some value that the common base may hold.
pub proof fn lemma_narrow_reaches_same_part<R, B, C, F, G, H>(
    two_steps: ComposedReference<ComposedReference<R, B, F>, C, G>,
    one_step: ComposedReference<R, C, H>,
    part_f: spec_fn(R::Type) -> B,
    part_g: spec_fn(B) -> C,
) where
    R: BusinessObject,
    F: Fn(&mut R::Type) -> &mut B,
    G: Fn(&mut B) -> &mut C,
    H: Fn(&mut R::Type) -> &mut C,

    requires
        two_steps.base().base() == one_step.base(),
        reads(two_steps.base().projection(), part_f),
        reads(two_steps.projection(), part_g),
        reads(one_step.projection(), |a: R::Type| part_g(part_f(a))),
    ensures
        forall|value: C| #[trigger]
            two_steps.targets(value) ==> exists|a: R::Type| #[trigger]
                one_step.base().targets(a) && value == part_g(part_f(a)),
        forall|value: C| #[trigger]
            one_step.targets(value) ==> exists|a: R::Type| #[trigger]
                one_step.base().targets(a) && value == part_g(part_f(a)),
{
}

/// Narrowing in two steps acts as narrowing in one step does, from one and
/// the same root value.
///
/// Let `f` and `g` be pure projections: each hands out the part of its base
/// that `part_f`, `part_g` names, and leaves its base as `put_f`, `put_g`
/// makes it from what the part is left holding. Let `h` be the one step that
/// composes them, and let `k` be a closure whose result and effect are fixed
/// by what its target holds. Then a run of `k` through `f` and then `g`, and
/// a run of `k` through `h`, both started on bases that hold the same value,
/// return the same result and leave the two bases holding the same value.
///
/// The facts about the first run are those that `apply_through` states of a
/// call through `f` whose closure calls `apply_through` through `g`; the
/// facts about the second run are those that it states of a call through
/// `h`.
pub proof fn lemma_two_steps_act_as_one<A, B, C, R, F, G, H, K>(
    f: F,
    g: G,
    h: H,
    k: K,
    part_f: spec_fn(A) -> B,
    put_f: spec_fn(A, B) -> A,
    part_g: spec_fn(B) -> C,
    put_g: spec_fn(B, C) -> B,
    run: spec_fn(C) -> (C, R),
) where
    F: Fn(&mut A) -> &mut B,
    G: Fn(&mut B) -> &mut C,
    H: Fn(&mut A) -> &mut C,
    K: FnOnce(&mut C) -> R,

    requires
        forall|m: &mut A, x: &mut B| #[trigger]
            f.ensures((m,), x) ==> *x == part_f(*m) && *final(m) == put_f(*m, *final(x)),
        forall|m: &mut B, x: &mut C| #[trigger]
            g.ensures((m,), x) ==> *x == part_g(*m) && *final(m) == put_g(*m, *final(x)),
        forall|m: &mut A, x: &mut C| #[trigger]
            h.ensures((m,), x) ==> *x == part_g(part_f(*m)) && *final(m) == put_f(
                *m,
                put_g(part_f(*m), *final(x)),
            ),
        forall|t: &mut C, r: R| #[trigger] k.ensures((t,), r) ==> (*final(t), r) == run(*t),
    ensures
        forall|
            m1: &mut A,
            x1: &mut B,
            b1: &mut B,
            y1: &mut C,
            t1: &mut C,
            r1: R,
            m2: &mut A,
            y2: &mut C,
            t2: &mut C,
            r2: R,
        |
            #![trigger f.ensures((m1,), x1), g.ensures((b1,), y1), k.ensures((t1,), r1), h.ensures((m2,), y2), k.ensures((t2,), r2)]
            {
                &&& *m1 == *m2
                &&& f.ensures((m1,), x1)
                &&& *b1 == *x1
                &&& *final(b1) == *final(x1)
                &&& g.ensures((b1,), y1)
                &&& *t1 == *y1
                &&& *final(t1) == *final(y1)
                &&& k.ensures((t1,), r1)
                &&& h.ensures((m2,), y2)
                &&& *t2 == *y2
                &&& *final(t2) == *final(y2)
                &&& k.ensures((t2,), r2)
            } ==> r1 == r2 && *final(m1) == *final(m2),
{
}

} // verus!
