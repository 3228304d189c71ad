//! The producer's handle.

use crate::error::SendError;
use crate::shared::lock;
use crate::shared::state_mut;
use crate::sink::Sink;
use crate::state::QueueInner;
use std::sync::Arc;
use std::sync::Mutex;
use vstd::prelude::*;

verus! {

/// A producer's handle on a queue. It can be cloned; all clones feed the
/// same buffer.
///
/// Other handles work on the queue at the same time, so a method here can
/// promise of the shared state only what holds whatever the others did. What
/// one operation does to the state it finds under the lock is the contract of
/// the [`QueueInner`] method it applies.
///
/// A handle that is done must be given to [`Sender::release`], so that a
/// parked consumer learns of it.
#[verifier::reject_recursive_types(T)]
pub struct Sender<T>(Arc<Mutex<QueueInner<T>>>);

impl<T> Sender<T> {
    /// The lock-guarded state that this handle refers to. All handles of one
    /// queue agree on it.
    pub closed spec fn shared(&self) -> Mutex<QueueInner<T>> {
        *self.0
    }

    /// A handle on the queue behind `shared`.
    pub(crate) fn attach(shared: Arc<Mutex<QueueInner<T>>>) -> (handle: Self)
        ensures
            handle.shared() == *shared,
    {
        Sender(shared)
    }

    /// The number of unread values at the moment of the call, by
    /// [`QueueInner::len`]. A producer can use it to see the consumer lag;
    /// the number may be stale as soon as it is returned.
    pub fn queue_len(&self) -> usize {
        let mut guard = lock(&self.0);
        state_mut(&mut guard).len()
    }

    /// Whether the consumer had been released at the moment of the call, by
    /// [`QueueInner::is_cancelled`]. A released consumer never comes back, so
    /// `true` means that further sends are pointless.
    pub fn is_cancelled(&self) -> bool {
        let mut guard = lock(&self.0);
        state_mut(&mut guard).is_cancelled()
    }

    /// Offers `value` to the queue: takes the lock and applies
    /// [`QueueInner::enqueue`] to the state it finds.
    ///
    /// On success the answer is the length of the buffer right after the
    /// value was appended, which counts the value itself. The only failure is
    /// that the consumer has been released.
    pub fn send(&self, value: T) -> (sent: Result<usize, SendError>)
        ensures
            match sent {
                Ok(position) => position >= 1,
                Err(e) => e == SendError::ReceiverDropped,
            },
    {
        let mut guard = lock(&self.0);
        state_mut(&mut guard).enqueue(value)
    }

    /// Turns the handle into an open [`Sink`] that owns it.
    pub fn sink(self) -> (sink: Sink<T>)
        ensures
            sink@ == Some(self),
    {
        Sink::over(self)
    }

    /// Gives the handle up: takes the lock and applies
    /// [`QueueInner::notify`], then lets go of its share of the queue.
    ///
    /// This handle may have been the last producer while the consumer is
    /// parked, so the stored wake handle is fired and the consumer looks
    /// again. If other producers remain, the consumer is woken for nothing
    /// and parks again.
    pub fn release(self) {
        let mut guard = lock(&self.0);
        state_mut(&mut guard).notify()
    }
}

impl<T> Clone for Sender<T> {
    /// Another handle on the same queue.
    fn clone(&self) -> (twin: Self)
        ensures
            twin.shared() == self.shared(),
    {
        Sender(self.0.clone())
    }
}

} // verus!
