use crate::business_obj::BusinessObject;
use crate::error::ReferenceError;
use crate::projection::accepts;
use crate::projection::accepts_lookup;
use crate::projection::apply_at;
use crate::projection::apply_through;
use crate::projection::finds;
use crate::projection::misses;
use crate::projection::narrows;
use crate::projection::try_apply_through;
use std::marker::PhantomData;
use std::sync::Arc;
use vstd::prelude::*;

verus! {

/// A base capability narrowed by one projection that always has a target,
/// such as a named field. It holds no pointer into the root: the projection
/// runs anew, inside the base's locked section, each time the reference
/// runs.
#[verifier::reject_recursive_types(B)]
#[verifier::reject_recursive_types(X)]
#[verifier::reject_recursive_types(P)]
pub struct ComposedReference<B: BusinessObject, X, P: Fn(&mut B::Type) -> &mut X> {
    base: B,
    projection: Arc<P>,
    field: PhantomData<X>,
}

impl<B: BusinessObject, X, P: Fn(&mut B::Type) -> &mut X> ComposedReference<B, X, P> {
    /// The capability that this reference narrows.
    pub closed spec fn base(&self) -> B {
        self.base
    }

    /// The projection that this reference applies to the base's target.
    pub closed spec fn projection(&self) -> P {
        *self.projection
    }

    /// The projection can be called on whatever the base may hand it.
    #[verifier::type_invariant]
    spec fn projection_is_accepted(self) -> bool {
        forall|from: B::Type|
            self.base.targets(from) ==> #[trigger] accepts(*self.projection, from)
    }

    /// What `targets` and `may_miss` mean for this reference, spelled out.
    pub proof fn targets_unfold(&self)
        ensures
            self.may_miss() == self.base().may_miss(),
            forall|value: X|
                self.targets(value) <==> exists|from: B::Type|
                    self.base().targets(from) && #[trigger] narrows(
                        self.projection(),
                        from,
                        value,
                    ),
    {
    }

    /// Narrows `base` by `projection`.
    pub fn new(base: B, projection: P) -> (r: Self)
        requires
            forall|from: B::Type| base.targets(from) ==> #[trigger] accepts(projection, from),
        ensures
            r.base() == base,
            r.projection() == projection,
            r.may_miss() == base.may_miss(),
            forall|value: X|
                r.targets(value) <==> exists|from: B::Type|
                    base.targets(from) && #[trigger] narrows(projection, from, value),
    {
        ComposedReference { base, projection: Arc::new(projection), field: PhantomData }
    }

    /// Runs `f` on the field that the projection picks, inside the base's
    /// locked section, and returns its result.
    pub fn execute<F, R>(&self, f: F) -> (r: Result<R, ReferenceError>) where
        F: FnOnce(&mut X) -> R,

        requires
            forall|t: &mut X|
                #![trigger f.requires((t,))]
                #![trigger self.targets(*t)]
                self.targets(*t) ==> f.requires((t,)),
        ensures
            match r {
                Ok(v) => exists|t: &mut X| self.targets(*t) && #[trigger] f.ensures((t,), v),
                Err(e) => e == ReferenceError::PoisonedState || (e == ReferenceError::NotFound
                    && self.may_miss()),
            },
    {
        self.exec(f)
    }

    /// The next link of the chain: a reference to the part of this
    /// reference's target that `projection` picks. This reference is
    /// consumed; clone it first to keep it.
    pub fn map<Q, Y>(self, projection: Q) -> (r: ComposedReference<Self, Y, Q>) where
        Q: Fn(&mut X) -> &mut Y,

        requires
            forall|from: X| self.targets(from) ==> #[trigger] accepts(projection, from),
        ensures
            r.base() == self,
            r.projection() == projection,
            r.may_miss() == self.may_miss(),
            forall|value: Y|
                r.targets(value) <==> exists|from: X|
                    self.targets(from) && #[trigger] narrows(projection, from, value),
    {
        ComposedReference::new(self, projection)
    }

    /// The next link of the chain, sharing this reference's root.
    pub fn narrow<Q, Y>(&self, projection: Q) -> (r: ComposedReference<Self, Y, Q>) where
        Q: Fn(&mut X) -> &mut Y,

        requires
            forall|from: X| self.targets(from) ==> #[trigger] accepts(projection, from),
        ensures
            r.base() == *self,
            r.projection() == projection,
            r.may_miss() == self.may_miss(),
            forall|value: Y|
                r.targets(value) <==> exists|from: X|
                    self.targets(from) && #[trigger] narrows(projection, from, value),
    {
        self.clone().map(projection)
    }

    /// A reference to a part of this reference's target that `lookup` finds
    /// by an index or a key each time the reference runs, and may not find.
    pub fn try_narrow<Q, Y>(&self, lookup: Q) -> (r: DynamicReference<Self, Y, Q>) where
        Q: Fn(&mut X) -> Option<&mut Y>,

        requires
            forall|from: X| self.targets(from) ==> #[trigger] accepts_lookup(lookup, from),
        ensures
            r.base() == *self,
            r.lookup() == lookup,
            r.may_miss() <==> self.may_miss() || exists|from: X|
                self.targets(from) && #[trigger] misses(lookup, from),
            forall|value: Y|
                r.targets(value) <==> exists|from: X|
                    self.targets(from) && #[trigger] finds(lookup, from, value),
    {
        DynamicReference::new(self.clone(), lookup)
    }
}

impl<B: BusinessObject, X, P: Fn(&mut B::Type) -> &mut X> Clone for ComposedReference<B, X, P> {
    /// A second reference with the same base and the same projection.
    fn clone(&self) -> (r: Self)
        ensures
            r == *self,
    {
        proof {
            use_type_invariant(self);
        }
        let base = self.base.clone();
        proof {
            self.base.clones_agree(&base);
        }
        ComposedReference { base, projection: self.projection.clone(), field: PhantomData }
    }
}

impl<B: BusinessObject, X, P: Fn(&mut B::Type) -> &mut X> BusinessObject for ComposedReference<
    B,
    X,
    P,
> {
    type Type = X;

    open spec fn targets(&self, value: X) -> bool {
        exists|from: B::Type|
            self.base().targets(from) && #[trigger] narrows(self.projection(), from, value)
    }

    open spec fn may_miss(&self) -> bool {
        self.base().may_miss()
    }

    proof fn clones_agree(&self, other: &Self) {
    }

    fn exec<F, R>(&self, f: F) -> (r: Result<R, ReferenceError>) where F: FnOnce(&mut X) -> R {
        proof {
            use_type_invariant(self);
        }
        let projection: &P = &self.projection;
        let base = &self.base;
        let narrowed = |b: &mut B::Type| -> (v: R)
            requires
                base.targets(*b),
            ensures
                exists|m: &mut B::Type, x: &mut X, t: &mut X|
                    *m == *old(b) && #[trigger] projection.ensures((m,), x) && *t == *x
                        && #[trigger] f.ensures((t,), v),
            {
                assert(accepts(*projection, *b));
                assert forall|m: &mut B::Type, x: &mut X, t: &mut X|
                    *m == *b && #[trigger] projection.ensures((m,), x) && *t == *x
                    implies #[trigger] f.requires((t,)) by {
                    assert(narrows(self.projection(), *b, *t));
                    assert(self.targets(*t));
                }
                apply_through(b, projection, f)
            };
        let r = base.exec(narrowed);
        proof {
            if r is Ok {
                let v = r->Ok_0;
                let b = choose|b: &mut B::Type|
                    base.targets(*b) && #[trigger] narrowed.ensures((b,), v);
                let (m, x, t) = choose|m: &mut B::Type, x: &mut X, t: &mut X|
                    *m == *b && #[trigger] projection.ensures((m,), x) && *t == *x
                        && #[trigger] f.ensures((t,), v);
                assert(narrows(self.projection(), *b, *t));
                assert(self.targets(*t));
            }
        }
        r
    }
}

impl<B: BusinessObject, E, P: Fn(&mut B::Type) -> &mut Vec<E>> ComposedReference<B, Vec<E>, P> {
    /// A reference to the element at `index` of the sequence that this
    /// reference targets. The index is captured as it is: it is not
    /// renumbered when the sequence changes, so the reference may later
    /// point at another element or past the end.
    pub fn narrow_at(&self, index: usize) -> (r: IndexedReference<Self>)
        ensures
            r.base() == *self,
            r.index() == index,
            r.may_miss() <==> self.may_miss() || exists|items: Vec<E>| #[trigger]
                self.targets(items) && index >= items.len(),
            forall|value: E|
                r.targets(value) <==> exists|items: Vec<E>| #[trigger]
                    self.targets(items) && index < items.len() && items@[index as int]
                        == value,
    {
        IndexedReference::new(self.clone(), index)
    }
}

/// A base capability narrowed by a lookup: a projection that finds its
/// target by an index or a key in the root as it is when the reference runs,
/// and may find nothing.
#[verifier::reject_recursive_types(B)]
#[verifier::reject_recursive_types(X)]
#[verifier::reject_recursive_types(P)]
pub struct DynamicReference<B: BusinessObject, X, P: Fn(&mut B::Type) -> Option<&mut X>> {
    base: B,
    lookup: Arc<P>,
    field: PhantomData<X>,
}

impl<B: BusinessObject, X, P: Fn(&mut B::Type) -> Option<&mut X>> DynamicReference<B, X, P> {
    /// The capability that this reference narrows.
    pub closed spec fn base(&self) -> B {
        self.base
    }

    /// The lookup that this reference applies to the base's target.
    pub closed spec fn lookup(&self) -> P {
        *self.lookup
    }

    /// The lookup can be called on whatever the base may hand it.
    #[verifier::type_invariant]
    spec fn lookup_is_accepted(self) -> bool {
        forall|from: B::Type|
            self.base.targets(from) ==> #[trigger] accepts_lookup(*self.lookup, from)
    }

    /// What `targets` and `may_miss` mean for this reference, spelled out.
    pub proof fn targets_unfold(&self)
        ensures
            self.may_miss() <==> self.base().may_miss() || exists|from: B::Type|
                self.base().targets(from) && #[trigger] misses(self.lookup(), from),
            forall|value: X|
                self.targets(value) <==> exists|from: B::Type|
                    self.base().targets(from) && #[trigger] finds(self.lookup(), from, value),
    {
    }

    /// Narrows `base` by `lookup`.
    pub fn new(base: B, lookup: P) -> (r: Self)
        requires
            forall|from: B::Type| base.targets(from) ==> #[trigger] accepts_lookup(lookup, from),
        ensures
            r.base() == base,
            r.lookup() == lookup,
            r.may_miss() <==> base.may_miss() || exists|from: B::Type|
                base.targets(from) && #[trigger] misses(lookup, from),
            forall|value: X|
                r.targets(value) <==> exists|from: B::Type|
                    base.targets(from) && #[trigger] finds(lookup, from, value),
    {
        DynamicReference { base, lookup: Arc::new(lookup), field: PhantomData }
    }

    /// Runs `f` on the target that the lookup finds now, or answers
    /// `NotFound` without calling `f` when it finds none. `NotFound` comes
    /// only where the lookup, or one further up the chain, finds nothing in
    /// a value that it was handed.
    pub fn try_execute<F, R>(&self, f: F) -> (r: Result<R, ReferenceError>) where
        F: FnOnce(&mut X) -> R,

        requires
            forall|t: &mut X|
                #![trigger f.requires((t,))]
                #![trigger self.targets(*t)]
                self.targets(*t) ==> f.requires((t,)),
        ensures
            match r {
                Ok(v) => exists|t: &mut X| self.targets(*t) && #[trigger] f.ensures((t,), v),
                Err(e) => e == ReferenceError::PoisonedState || (e == ReferenceError::NotFound
                    && self.may_miss()),
            },
    {
        self.exec(f)
    }
    /// The next link of the chain: a reference to the part of this
    /// reference's target that `projection` picks. This reference is
    /// consumed; clone it first to keep it.
    pub fn map<Q, Y>(self, projection: Q) -> (r: ComposedReference<Self, Y, Q>) where
        Q: Fn(&mut X) -> &mut Y,

        requires
            forall|from: X| self.targets(from) ==> #[trigger] accepts(projection, from),
        ensures
            r.base() == self,
            r.projection() == projection,
            r.may_miss() == self.may_miss(),
            forall|value: Y|
                r.targets(value) <==> exists|from: X|
                    self.targets(from) && #[trigger] narrows(projection, from, value),
    {
        ComposedReference::new(self, projection)
    }

    /// The next link of the chain, sharing this reference's root.
    pub fn narrow<Q, Y>(&self, projection: Q) -> (r: ComposedReference<Self, Y, Q>) where
        Q: Fn(&mut X) -> &mut Y,

        requires
            forall|from: X| self.targets(from) ==> #[trigger] accepts(projection, from),
        ensures
            r.base() == *self,
            r.projection() == projection,
            r.may_miss() == self.may_miss(),
            forall|value: Y|
                r.targets(value) <==> exists|from: X|
                    self.targets(from) && #[trigger] narrows(projection, from, value),
    {
        self.clone().map(projection)
    }
}

impl<B: BusinessObject, X, P: Fn(&mut B::Type) -> Option<&mut X>> Clone for DynamicReference<
    B,
    X,
    P,
> {
    /// A second reference with the same base and the same lookup.
    fn clone(&self) -> (r: Self)
        ensures
            r == *self,
    {
        proof {
            use_type_invariant(self);
        }
        let base = self.base.clone();
        proof {
            self.base.clones_agree(&base);
        }
        DynamicReference { base, lookup: self.lookup.clone(), field: PhantomData }
    }
}

impl<B, X, P> BusinessObject for DynamicReference<B, X, P> where
    B: BusinessObject,
    P: Fn(&mut B::Type) -> Option<&mut X>,
 {
    type Type = X;

    open spec fn targets(&self, value: X) -> bool {
        exists|from: B::Type|
            self.base().targets(from) && #[trigger] finds(self.lookup(), from, value)
    }

    open spec fn may_miss(&self) -> bool {
        self.base().may_miss() || exists|from: B::Type|
            self.base().targets(from) && #[trigger] misses(self.lookup(), from)
    }

    proof fn clones_agree(&self, other: &Self) {
    }

    fn exec<F, R>(&self, f: F) -> (r: Result<R, ReferenceError>) where F: FnOnce(&mut X) -> R {
        proof {
            use_type_invariant(self);
        }
        let lookup: &P = &self.lookup;
        let base = &self.base;
        let narrowed = |b: &mut B::Type| -> (v: Result<R, ReferenceError>)
            requires
                base.targets(*b),
            ensures
                v matches Ok(w) ==> exists|m: &mut B::Type, x: &mut X, t: &mut X|
                    *m == *old(b) && #[trigger] lookup.ensures((m,), Some(x)) && *t == *x
                        && #[trigger] f.ensures((t,), w),
                v matches Err(e) ==> e == ReferenceError::NotFound && misses(*lookup, *old(b)),
            {
                assert(accepts_lookup(*lookup, *b));
                assert forall|m: &mut B::Type, x: &mut X, t: &mut X|
                    *m == *b && #[trigger] lookup.ensures((m,), Some(x)) && *t == *x
                    implies #[trigger] f.requires((t,)) by {
                    assert(finds(self.lookup(), *b, *t));
                    assert(self.targets(*t));
                }
                try_apply_through(b, lookup, f)
            };
        let r = base.exec(narrowed);
        match r {
            Ok(inner) => {
                proof {
                    if inner is Ok {
                        let w = inner->Ok_0;
                        let b = choose|b: &mut B::Type|
                            base.targets(*b) && #[trigger] narrowed.ensures((b,), inner);
                        let (m, x, t) = choose|m: &mut B::Type, x: &mut X, t: &mut X|
                            *m == *b && #[trigger] lookup.ensures((m,), Some(x)) && *t == *x
                                && #[trigger] f.ensures((t,), w);
                        assert(finds(self.lookup(), *b, *t));
                        assert(self.targets(*t));
                    } else {
                        let b = choose|b: &mut B::Type|
                            base.targets(*b) && #[trigger] narrowed.ensures((b,), inner);
                        assert(self.base().targets(*b) && misses(self.lookup(), *b));
                    }
                }
                inner
            },
            Err(e) => Err(e),
        }
    }
}

/// A base capability over a sequence, narrowed to the element at a captured
/// index.
pub struct IndexedReference<B> {
    base: B,
    index: usize,
}

impl<B> IndexedReference<B> {
    /// The capability over the sequence.
    pub closed spec fn base(&self) -> B {
        self.base
    }

    /// The captured index.
    pub closed spec fn index(&self) -> usize {
        self.index
    }
}

impl<E, B: BusinessObject<Type = Vec<E>>> IndexedReference<B> {
    /// Captures `index` into the sequence that `base` targets.
    pub fn new(base: B, index: usize) -> (r: Self)
        ensures
            r.base() == base,
            r.index() == index,
            r.may_miss() <==> base.may_miss() || exists|items: Vec<E>| #[trigger]
                base.targets(items) && index >= items.len(),
            forall|value: E|
                r.targets(value) <==> exists|items: Vec<E>| #[trigger]
                    base.targets(items) && index < items.len() && items@[index as int] == value,
    {
        IndexedReference { base, index }
    }

    /// Runs `f` on the element that is at the captured index now, or answers
    /// `NotFound` without calling `f` when the sequence has become too short
    /// for the index, or when a lookup further up the chain found nothing.
    /// After elements were removed or inserted before it, the element at the
    /// index is another one than when the reference was made.
    pub fn try_execute<F, R>(&self, f: F) -> (r: Result<R, ReferenceError>) where
        F: FnOnce(&mut E) -> R,

        requires
            forall|t: &mut E|
                #![trigger f.requires((t,))]
                #![trigger self.targets(*t)]
                self.targets(*t) ==> f.requires((t,)),
        ensures
            match r {
                Ok(v) => exists|t: &mut E| self.targets(*t) && #[trigger] f.ensures((t,), v),
                Err(e) => e == ReferenceError::PoisonedState || (e == ReferenceError::NotFound
                    && self.may_miss()),
            },
    {
        self.exec(f)
    }
    /// The next link of the chain: a reference to the part of this
    /// reference's target that `projection` picks. This reference is
    /// consumed; clone it first to keep it.
    pub fn map<Q, Y>(self, projection: Q) -> (r: ComposedReference<Self, Y, Q>) where
        Q: Fn(&mut E) -> &mut Y,

        requires
            forall|from: E| self.targets(from) ==> #[trigger] accepts(projection, from),
        ensures
            r.base() == self,
            r.projection() == projection,
            r.may_miss() == self.may_miss(),
            forall|value: Y|
                r.targets(value) <==> exists|from: E|
                    self.targets(from) && #[trigger] narrows(projection, from, value),
    {
        ComposedReference::new(self, projection)
    }

    /// The next link of the chain, sharing this reference's root.
    pub fn narrow<Q, Y>(&self, projection: Q) -> (r: ComposedReference<Self, Y, Q>) where
        Q: Fn(&mut E) -> &mut Y,

        requires
            forall|from: E| self.targets(from) ==> #[trigger] accepts(projection, from),
        ensures
            r.base() == *self,
            r.projection() == projection,
            r.may_miss() == self.may_miss(),
            forall|value: Y|
                r.targets(value) <==> exists|from: E|
                    self.targets(from) && #[trigger] narrows(projection, from, value),
    {
        self.clone().map(projection)
    }
}

impl<B: BusinessObject> Clone for IndexedReference<B> {
    /// A second reference with the same base and the same index.
    fn clone(&self) -> (r: Self)
        ensures
            r == *self,
    {
        let base = self.base.clone();
        proof {
            self.base.clones_agree(&base);
        }
        IndexedReference { base, index: self.index }
    }
}

impl<E, B: BusinessObject<Type = Vec<E>>> BusinessObject for IndexedReference<B> {
    type Type = E;

    open spec fn targets(&self, value: E) -> bool {
        exists|items: Vec<E>| #[trigger]
            self.base().targets(items) && self.index() < items.len() && items@[self.index() as int]
                == value
    }

    open spec fn may_miss(&self) -> bool {
        self.base().may_miss() || exists|items: Vec<E>| #[trigger]
            self.base().targets(items) && self.index() >= items.len()
    }

    proof fn clones_agree(&self, other: &Self) {
    }

    fn exec<F, R>(&self, f: F) -> (r: Result<R, ReferenceError>) where F: FnOnce(&mut E) -> R {
        let index = self.index;
        let base = &self.base;
        let narrowed = |items: &mut Vec<E>| -> (v: Result<R, ReferenceError>)
            requires
                base.targets(*items),
            ensures
                v matches Ok(w) ==> index < old(items).len() && exists|t: &mut E|
                    *t == old(items)@[index as int] && #[trigger] f.ensures((t,), w),
                v matches Err(e) ==> e == ReferenceError::NotFound && index >= old(items).len(),
            {
                assert forall|t: &mut E|
                    index < items.len() && *t == items@[index as int]
                    implies #[trigger] f.requires((t,)) by {
                    assert(self.base().targets(*items) && self.index() < items.len()
                        && items@[self.index() as int] == *t);
                    assert(self.targets(*t));
                }
                apply_at(items, index, f)
            };
        let r = base.exec(narrowed);
        match r {
            Ok(inner) => {
                proof {
                    if inner is Ok {
                        let w = inner->Ok_0;
                        let b = choose|b: &mut Vec<E>|
                            base.targets(*b) && #[trigger] narrowed.ensures((b,), inner);
                        let t = choose|t: &mut E|
                            *t == b@[index as int] && #[trigger] f.ensures((t,), w);
                        assert(self.base().targets(*b) && self.index() < b.len()
                            && b@[self.index() as int] == *t);
                        assert(self.targets(*t));
                    } else {
                        let b = choose|b: &mut Vec<E>|
                            base.targets(*b) && #[trigger] narrowed.ensures((b,), inner);
                        assert(self.base().targets(*b) && self.index() >= b.len());
                    }
                }
                inner
            },
            Err(e) => Err(e),
        }
    }
}

} // verus!
