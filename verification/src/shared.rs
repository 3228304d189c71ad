//! The lock and the share count behind the handles.
//!
//! All handles of one queue hold an `Arc` to one `Mutex` around the queue's
//! state. The mutex changes under a shared reference, so nothing is known of
//! the state it guards beyond its type: whoever takes the lock finds some
//! [`QueueInner`](crate::QueueInner) and may turn it into another.

use std::sync::Arc;
use std::sync::Mutex;
use std::sync::MutexGuard;
use vstd::prelude::*;

verus! {

/// `std::sync::Mutex`, carried through as an opaque value.
#[verifier::external_type_specification]
#[verifier::external_body]
#[verifier::reject_recursive_types(T)]
pub struct ExMutex<T: ?Sized>(Mutex<T>);

/// `std::sync::MutexGuard`, the proof of holding a `Mutex`; the lock is given
/// back when the guard goes out of scope.
#[verifier::external_type_specification]
#[verifier::external_body]
#[verifier::reject_recursive_types(T)]
pub struct ExMutexGuard<'a, T: ?Sized + 'a>(MutexGuard<'a, T>);

/// Calls `Mutex::new`, which wraps `state` in an unlocked mutex. Nothing is
/// claimed of the mutex.
#[verifier::external_body]
pub(crate) fn new_lock<S>(state: S) -> Mutex<S> {
    Mutex::new(state)
}

/// Calls `Mutex::lock`, which blocks until the calling thread holds the
/// mutex. A mutex that was poisoned by a panic under the lock is taken all
/// the same, through `PoisonError::into_inner`. Nothing is claimed of the
/// guarded state. The caller must not hold this mutex already.
#[verifier::external_body]
pub(crate) fn lock<S>(mutex: &Mutex<S>) -> MutexGuard<'_, S> {
    match mutex.lock() {
        Ok(guard) => guard,
        Err(poisoned) => poisoned.into_inner(),
    }
}

/// Calls `DerefMut::deref_mut` of `MutexGuard`, which gives access to the
/// guarded state for as long as the guard is borrowed. Nothing is claimed of
/// the state that is found.
#[verifier::external_body]
pub(crate) fn state_mut<'a, 'b, S>(guard: &'a mut MutexGuard<'b, S>) -> &'a mut S {
    &mut **guard
}

/// Calls `Arc::strong_count`, the number of `Arc` handles to the allocation
/// at the moment of the call. Other threads may change it at any time, so
/// nothing is claimed of the number.
#[verifier::external_body]
pub(crate) fn holders<S>(shared: &Arc<S>) -> usize {
    Arc::strong_count(shared)
}

} // verus!
