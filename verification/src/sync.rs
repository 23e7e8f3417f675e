//! What the verifier is told about `std::sync::Mutex`.
//!
//! A mutex is shared between threads, so nothing can be known of the value
//! behind it when the lock is taken: the verified code on top is proved for
//! every value that may be found there.

use std::sync::Mutex;
use std::sync::MutexGuard;
use vstd::prelude::*;

verus! {

/// `std::sync::Mutex`: an opaque cell shared between threads.
#[verifier::external_type_specification]
#[verifier::external_body]
#[verifier::reject_recursive_types(T)]
pub struct ExMutex<T: ?Sized>(Mutex<T>);

/// `std::sync::MutexGuard`: the opaque proof that a lock is held.
#[verifier::external_type_specification]
#[verifier::external_body]
#[verifier::reject_recursive_types(T)]
pub struct ExMutexGuard<'a, T: ?Sized + 'a>(MutexGuard<'a, T>);

/// `Mutex::new` puts a value behind a fresh lock. Nothing is claimed of the
/// mutex it returns.
pub assume_specification<T>[ Mutex::<T>::new ](value: T) -> (mutex: Mutex<T>);

/// Calls `Mutex::lock` and waits until the lock is held. A lock that another
/// thread poisoned by panicking is taken all the same, so the call does not
/// panic. Nothing is claimed of the guard.
#[verifier::external_body]
pub(crate) fn lock<'a, T>(mutex: &'a Mutex<T>) -> (guard: MutexGuard<'a, T>) {
    match mutex.lock() {
        Ok(guard) => guard,
        Err(poisoned) => poisoned.into_inner(),
    }
}

/// Calls `DerefMut::deref_mut` on a guard, which lends out the value behind
/// the lock. Other threads may have changed that value at will, so nothing is
/// claimed of it.
#[verifier::external_body]
pub(crate) fn guarded<'a, 'b, T>(guard: &'a mut MutexGuard<'b, T>) -> (value: &'a mut T) {
    &mut **guard
}

} // verus!
