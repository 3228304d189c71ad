//! What the queue borrows from `std::task`.
//!
//! A wake handle is the token a parked consumer leaves behind; firing it asks
//! the consumer's scheduler to run the consumer again. The queue never looks
//! inside one: it stores it, hands it on, fires it. A pull answers with
//! `Poll`, the standard two-way outcome of a suspendable operation.

use std::task::Poll;
use std::task::Waker;
use vstd::prelude::*;

verus! {

/// `std::task::Poll`, with its two variants `Ready(T)` and `Pending` as the
/// standard library declares them.
#[verifier::external_type_specification]
#[verifier::reject_recursive_types(T)]
pub struct ExPoll<T>(Poll<T>);

/// `std::task::Waker`, carried through as an opaque value.
#[verifier::external_type_specification]
#[verifier::external_body]
pub struct ExWaker(Waker);

/// Calls `Waker::wake_by_ref`, which asks the scheduler behind the handle to
/// poll its task again and leaves the handle usable. Nothing is claimed of
/// the call: its effect lies with the scheduler.
#[verifier::external_body]
pub(crate) fn fire(handle: &Waker) {
    handle.wake_by_ref()
}

/// Calls `Waker::clone`, which yields another handle for the same task.
/// Nothing is claimed of the new handle's value.
#[verifier::external_body]
pub(crate) fn duplicate(handle: &Waker) -> Waker {
    handle.clone()
}

} // verus!
