use crate::error::ReferenceError;
use vstd::prelude::*;

verus! {

/// The capability to run a closure against one live value, the target, under
/// whatever lock guards it.
///
/// A root handle has it for the whole root value; a reference has it for the
/// part of the root that its projections pick. Chains of any depth go through
/// this one operation.
///
/// The closure must not itself run anything against the same root: the lock
/// is held while it runs, and a thread that takes it a second time panics
/// or blocks for ever, as the standard library leaves open. No contract can
/// single such a closure out; the rule is the caller's to keep.
pub trait BusinessObject: Sized + Clone {
    /// The type of the target.
    type Type;

    /// `value` may be what the target holds when a closure is handed it.
    /// Nothing is known of the root behind its lock, so for a root handle
    /// this is every value; each projection narrows it.
    spec fn targets(&self, value: Self::Type) -> bool;

    /// Whether some lookup along the chain may find nothing in a value that
    /// it may be handed. Only then can `exec` answer `NotFound`.
    spec fn may_miss(&self) -> bool;

    /// A clone is the same capability: it shares the root's lock and the
    /// projections, so all that holds of one holds of the other.
    proof fn clones_agree(&self, other: &Self)
        requires
            cloned::<Self>(*self, *other),
        ensures
            *other == *self,
    ;

    /// Takes the root's lock, walks to the target, runs `f` on it once and
    /// returns what `f` returned. The lock is released on every way out.
    ///
    /// Fails with `PoisonedState` when an earlier closure ended abnormally
    /// under the lock, and with `NotFound` when a lookup along the chain
    /// found nothing; in both cases `f` was not called.
    fn exec<F, R>(&self, f: F) -> (r: Result<R, ReferenceError>) where
        F: FnOnce(&mut Self::Type) -> R,

        requires
            forall|t: &mut Self::Type|
                #![trigger f.requires((t,))]
                #![trigger self.targets(*t)]
                self.targets(*t) ==> f.requires((t,)),
        ensures
            match r {
                Ok(v) => exists|t: &mut Self::Type|
                    self.targets(*t) && #[trigger] f.ensures((t,), v),
                Err(e) => e == ReferenceError::PoisonedState || (e == ReferenceError::NotFound
                    && self.may_miss()),
            },
    ;
}

} // verus!
