use vstd::prelude::*;

verus! {

/// Why a reference could not run a closure against its target.
#[derive(Clone, Copy, Debug, PartialEq, Eq, Structural)]
pub enum ReferenceError {
    /// An earlier closure ended abnormally while it held the root's lock, so
    /// the root value may have been left half-changed.
    PoisonedState,
    /// A projection that looks its target up by index or key found nothing
    /// in the root value as it is now.
    NotFound,
}

impl ReferenceError {
    /// True for the error that the caller of a stale reference is expected to
    /// handle by dropping the reference and building a new one.
    pub open spec fn is_stale(self) -> bool {
        self == ReferenceError::NotFound
    }

    /// Whether this error only says that the target was not found.
    pub fn is_recoverable(&self) -> (b: bool)
        ensures
            b == self.is_stale(),
    {
        match self {
            ReferenceError::NotFound => true,
            ReferenceError::PoisonedState => false,
        }
    }
}

} // verus!
