use std::ops::DerefMut;
use std::sync::LockResult;
use std::sync::Mutex;
use std::sync::MutexGuard;
use std::sync::PoisonError;
use vstd::prelude::*;

verus! {

/// `std::sync::Mutex`, carried as an opaque value: nothing is known of what
/// it holds until it is locked.
#[verifier::external_type_specification]
#[verifier::external_body]
#[verifier::reject_recursive_types(T)]
pub struct ExMutex<T: ?Sized>(Mutex<T>);

/// `std::sync::MutexGuard`, the proof of holding the lock.
#[verifier::external_type_specification]
#[verifier::external_body]
#[verifier::reject_recursive_types(T)]
pub struct ExMutexGuard<'a, T: ?Sized + 'a>(MutexGuard<'a, T>);

/// `std::sync::PoisonError`, returned when the lock was poisoned.
#[verifier::external_type_specification]
#[verifier::external_body]
#[verifier::reject_recursive_types(T)]
pub struct ExPoisonError<T>(PoisonError<T>);

/// `Mutex::new` always gives a mutex; nothing is claimed of it.
pub assume_specification<T>[ Mutex::<T>::new ](value: T) -> (m: Mutex<T>);

/// `Mutex::lock` blocks until the lock is held and returns either the guard
/// or the poison error. Nothing is claimed of which one, nor of the value
/// behind the guard. On a lock that the calling thread already holds it
/// panics or blocks for ever; no contract here can rule that out.
pub assume_specification<'a, T: ?Sized>[ Mutex::<T>::lock ](m: &'a Mutex<T>) -> (r: LockResult<
    MutexGuard<'a, T>,
>);

/// `Mutex::is_poisoned` reads the poison flag; nothing is claimed of it.
pub assume_specification<T: ?Sized>[ Mutex::<T>::is_poisoned ](m: &Mutex<T>) -> (b: bool);

/// `Mutex::clear_poison` clears the poison flag.
pub assume_specification<T: ?Sized>[ Mutex::<T>::clear_poison ](m: &Mutex<T>);

/// `PoisonError::into_inner` hands out the guard that the error carries.
pub assume_specification<T>[ PoisonError::<T>::into_inner ](e: PoisonError<T>) -> (guard: T);

/// `MutexGuard::deref_mut` gives exclusive access to the locked value;
/// nothing is claimed of that value.
pub assume_specification<'a, 'b, T: ?Sized>[ <MutexGuard<'a, T> as DerefMut>::deref_mut ](
    guard: &'b mut MutexGuard<'a, T>,
) -> (target: &'b mut T);

} // verus!
