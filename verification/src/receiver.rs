//! The consumer's handle.

use crate::shared::holders;
use crate::shared::lock;
use crate::shared::state_mut;
use crate::state::QueueInner;
use std::sync::Arc;
use std::sync::Mutex;
use std::task::Poll;
use std::task::Waker;
use vstd::prelude::*;

verus! {

/// The consumer's handle on a queue. There is one per queue and it cannot be
/// cloned.
///
/// It yields the queue's values on demand, in the order in which they were
/// accepted, and ends once every producer handle is gone and the buffer is
/// drained.
///
/// A consumer that is done must be given to [`Receiver::release`], so that
/// producers stop sending.
#[verifier::reject_recursive_types(T)]
pub struct Receiver<T>(Arc<Mutex<QueueInner<T>>>);

impl<T> Receiver<T> {
    /// The lock-guarded state that this handle refers to. All handles of one
    /// queue agree on it.
    pub closed spec fn shared(&self) -> Mutex<QueueInner<T>> {
        *self.0
    }

    /// The consumer's handle on the queue behind `shared`.
    pub(crate) fn attach(shared: Arc<Mutex<QueueInner<T>>>) -> (handle: Self)
        ensures
            handle.shared() == *shared,
    {
        Receiver(shared)
    }

    /// Whether no producer handle was left at the moment of the call: the
    /// share count, judged by [`Receiver::is_alone`].
    ///
    /// Values may still be waiting in the buffer when this says `true`:
    /// [`Receiver::poll_next`] hands those out before it reports the end of
    /// the stream. The answer tells that nothing new can arrive, not that
    /// nothing is left to read.
    pub fn is_terminated(&self) -> bool {
        Self::is_alone(holders(&self.0))
    }

    /// Decides from a share count whether no producer handle is left: the
    /// consumer's own share is then the only one.
    pub fn is_alone(holders: usize) -> (alone: bool)
        ensures
            alone == (holders == 1),
    {
        holders == 1
    }

    /// One pull: takes the lock, reads the share count, and applies
    /// [`QueueInner::poll`] to the state it finds.
    ///
    /// `Ready(Some(value))` hands out the oldest unread value and
    /// `Ready(None)` is the end of the stream. On `Pending` a copy of `waker`
    /// has been stored; the consumer should suspend and pull again once it is
    /// woken, which a later send or the release of a producer will do. The
    /// lock is not held while the consumer is suspended.
    pub fn poll_next(&mut self, waker: &Waker) -> Poll<Option<T>> {
        let mut guard = lock(&self.0);
        let senders_gone = Self::is_alone(holders(&self.0));
        state_mut(&mut guard).poll(senders_gone, waker)
    }

    /// Gives the handle up: takes the lock and applies
    /// [`QueueInner::release_receiver`], then lets go of its share of the
    /// queue. Every later send fails at once.
    pub fn release(self) {
        let mut guard = lock(&self.0);
        state_mut(&mut guard).release_receiver()
    }
}

} // verus!
