//! The spin lock that guards each critical section.

use vstd::prelude::*;

verus! {

#[verifier::external_type_specification]
#[verifier::external_body]
#[verifier::reject_recursive_types(T)]
pub struct ExSpinMutex<T: ?Sized>(spin::Mutex<T>);

#[verifier::external_type_specification]
#[verifier::external_body]
#[verifier::reject_recursive_types(T)]
pub struct ExSpinMutexGuard<'a, T: ?Sized + 'a>(spin::MutexGuard<'a, T>);

/// `spin::Mutex::new` builds an unlocked lock around the given value.
pub assume_specification<T>[ spin::Mutex::<T>::new ](user_data: T) -> spin::Mutex<T>;

/// `spin::Mutex::lock` spins until the lock is free, takes it, and returns
/// the guard that releases it when dropped.
pub assume_specification<T: ?Sized>[ spin::Mutex::<T>::lock ](m: &spin::Mutex<T>) -> spin::MutexGuard<'_, T>;

} // verus!
