use crate::business_obj::BusinessObject;
use crate::error::ReferenceError;
use crate::projection::accepts;
use crate::projection::accepts_lookup;
use crate::projection::apply;
use crate::projection::finds;
use crate::projection::misses;
use crate::projection::narrows;
use crate::projection::swap_in;
use crate::reference::ComposedReference;
use crate::reference::DynamicReference;
use std::ops::DerefMut;
use std::sync::Arc;
use std::sync::Mutex;
use vstd::prelude::*;

verus! {

/// The one owner of a root value, behind its lock. Clones share the value
/// and the lock; the value itself is never copied.
#[verifier::reject_recursive_types(T)]
pub struct RootHandle<T> {
    cell: Arc<Mutex<T>>,
}

impl<T> Clone for RootHandle<T> {
    /// A second handle on the same root.
    fn clone(&self) -> (h: Self)
        ensures
            h == *self,
    {
        RootHandle { cell: self.cell.clone() }
    }
}

impl<T> RootHandle<T> {
    /// Takes ownership of `value` as a new root.
    pub fn new(value: T) -> (h: Self)
        ensures
            !h.may_miss(),
            forall|v: T| h.targets(v),
    {
        RootHandle { cell: Arc::new(Mutex::new(value)) }
    }

    /// Runs `f` on the root value under the lock and returns its result, or
    /// `PoisonedState` without calling `f` when the lock is poisoned.
    pub fn execute<F, R>(&self, f: F) -> (r: Result<R, ReferenceError>) where
        F: FnOnce(&mut T) -> R,

        requires
            forall|t: &mut T| #[trigger] f.requires((t,)),
        ensures
            match r {
                Ok(v) => exists|t: &mut T| #[trigger] f.ensures((t,), v),
                Err(e) => e == ReferenceError::PoisonedState,
            },
    {
        match self.cell.lock() {
            Ok(mut guard) => {
                let v = apply(guard.deref_mut(), f);
                let r: Result<R, ReferenceError> = Ok(v);
                assert(r->Ok_0 == v);
                r
            },
            Err(_) => Err(ReferenceError::PoisonedState),
        }
    }

    /// Puts `value` in place of the whole root value under the lock and
    /// returns the value it replaced, as `swap_in` states it. References made
    /// earlier stay valid and resolve against the new value the next time
    /// they run. What the lock holds has no model in the contracts, so of
    /// this call only the error is stated.
    pub fn replace(&self, value: T) -> (r: Result<T, ReferenceError>)
        ensures
            r matches Err(e) ==> e == ReferenceError::PoisonedState,
    {
        match self.cell.lock() {
            Ok(mut guard) => Ok(swap_in(guard.deref_mut(), value)),
            Err(_) => Err(ReferenceError::PoisonedState),
        }
    }

    /// Installs `value` as the root value whether or not the lock is
    /// poisoned, and clears the poison. This is the explicit way back from
    /// `PoisonedState`.
    pub fn reset(&self, value: T) {
        match self.cell.lock() {
            Ok(mut guard) => {
                swap_in(guard.deref_mut(), value);
            },
            Err(poisoned) => {
                let mut guard = poisoned.into_inner();
                swap_in(guard.deref_mut(), value);
                self.cell.clear_poison();
            },
        }
    }

    /// Whether an earlier closure ended abnormally under the lock and no
    /// `reset` has followed.
    pub fn is_poisoned(&self) -> bool {
        self.cell.is_poisoned()
    }

    /// A reference to the part of the root that `projection` picks. The
    /// handle itself is consumed; clone it first to keep it.
    pub fn map<P, X>(self, projection: P) -> (r: ComposedReference<Self, X, P>) where
        P: Fn(&mut T) -> &mut X,

        requires
            forall|from: T| #[trigger] accepts(projection, from),
        ensures
            r.base() == self,
            r.projection() == projection,
            !r.may_miss(),
            forall|value: X|
                r.targets(value) <==> exists|from: T| #[trigger] narrows(projection, from, value),
    {
        ComposedReference::new(self, projection)
    }

    /// A reference to the part of the root that `projection` picks, sharing
    /// this handle's lock.
    pub fn narrow<P, X>(&self, projection: P) -> (r: ComposedReference<Self, X, P>) where
        P: Fn(&mut T) -> &mut X,

        requires
            forall|from: T| #[trigger] accepts(projection, from),
        ensures
            r.base() == *self,
            r.projection() == projection,
            !r.may_miss(),
            forall|value: X|
                r.targets(value) <==> exists|from: T| #[trigger] narrows(projection, from, value),
    {
        self.clone().map(projection)
    }

    /// A reference to a part of the root that `lookup` finds by an index or
    /// a key each time the reference runs, and may not find.
    pub fn try_narrow<P, X>(&self, lookup: P) -> (r: DynamicReference<Self, X, P>) where
        P: Fn(&mut T) -> Option<&mut X>,

        requires
            forall|from: T| #[trigger] accepts_lookup(lookup, from),
        ensures
            r.base() == *self,
            r.lookup() == lookup,
            r.may_miss() <==> exists|from: T| #[trigger] misses(lookup, from),
            forall|value: X|
                r.targets(value) <==> exists|from: T| #[trigger] finds(lookup, from, value),
    {
        DynamicReference::new(self.clone(), lookup)
    }
}

impl<T> BusinessObject for RootHandle<T> {
    type Type = T;

    open spec fn targets(&self, value: T) -> bool {
        true
    }

    open spec fn may_miss(&self) -> bool {
        false
    }

    proof fn clones_agree(&self, other: &Self) {
    }

    fn exec<F, R>(&self, f: F) -> (r: Result<R, ReferenceError>) where F: FnOnce(&mut T) -> R {
        assert forall|t: &mut T| #[trigger] f.requires((t,)) by {
            assert(self.targets(*t));
        }
        let r = self.execute(f);
        proof {
            if r is Ok {
                let t = choose|t: &mut T| #[trigger] f.ensures((t,), r->Ok_0);
                assert(self.targets(*t));
            }
        }
        r
    }
}

} // verus!
