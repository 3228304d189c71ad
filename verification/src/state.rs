//! The shared state of a queue and the rules that change it.

use crate::error::SendError;
use crate::model::Channel;
use crate::task::duplicate;
use crate::task::fire;
use std::collections::VecDeque;
use std::task::Poll;
use std::task::Waker;
use vstd::prelude::*;

verus! {

/// What the producers and the consumer of one queue share: the buffer, the
/// wake handle of a parked consumer, and whether the consumer is gone.
///
/// Every state is a valid one. The handles reach it only under the lock, one
/// operation at a time, so each method below is one atomic step of the queue.
pub struct QueueInner<T> {
    queue: VecDeque<T>,
    waker: Option<Waker>,
    receiver_dropped: bool,
}

impl<T> View for QueueInner<T> {
    type V = Channel<T>;

    open spec fn view(&self) -> Channel<T> {
        Channel {
            buffer: self.buffer(),
            parked: self.pending_wake() is Some,
            receiver_live: self.receiver_live(),
        }
    }
}

impl<T> QueueInner<T> {
    /// The unread values, oldest first.
    pub closed spec fn buffer(&self) -> Seq<T> {
        self.queue@
    }

    /// The stored wake handle, if a consumer is parked.
    pub closed spec fn pending_wake(&self) -> Option<Waker> {
        self.waker
    }

    /// Whether the consumer handle has not been released.
    pub closed spec fn receiver_live(&self) -> bool {
        !self.receiver_dropped
    }

    /// The state of a new queue.
    pub fn new() -> (state: Self)
        ensures
            state@ == Channel::<T>::fresh(),
    {
        QueueInner { queue: VecDeque::new(), waker: None, receiver_dropped: false }
    }

    /// The number of unread values.
    pub fn len(&self) -> (n: usize)
        ensures
            n == self@.buffer.len(),
    {
        self.queue.len()
    }

    /// Whether the consumer handle has been released, so that sending is
    /// pointless.
    pub fn is_cancelled(&self) -> (cancelled: bool)
        ensures
            cancelled == !self@.receiver_live,
    {
        self.receiver_dropped
    }

    /// Takes the stored wake handle out, leaving none.
    pub fn take_wake(&mut self) -> (taken: Option<Waker>)
        ensures
            taken == old(self).pending_wake(),
            final(self)@ == old(self)@.unpark(),
    {
        self.waker.take()
    }

    /// Stores `handle` as the wake handle of the parked consumer. A handle
    /// stored earlier is replaced.
    pub fn register_wake(&mut self, handle: Waker)
        ensures
            final(self).pending_wake() == Some(handle),
            final(self)@ == old(self)@.park(),
    {
        self.waker = Some(handle);
    }

    /// Fires the stored wake handle, if there is one, and clears the slot, so
    /// that one parking leads to at most one wake.
    pub fn notify(&mut self)
        ensures
            final(self)@ == old(self)@.unpark(),
    {
        match self.take_wake() {
            Some(handle) => fire(&handle),
            None => {},
        }
    }

    /// Accepts `value` unless the consumer is gone.
    ///
    /// While the consumer is alive the value is appended to the buffer, a
    /// parked consumer is woken once, and the new length of the buffer is
    /// returned. Once the consumer has been released the value is dropped and
    /// the state is left as it was.
    pub fn enqueue(&mut self, value: T) -> (sent: Result<usize, SendError>)
        ensures
            final(self)@ == old(self)@.send(value),
            match sent {
                Ok(position) => old(self)@.receiver_live && position == old(self)@.buffer.len()
                    + 1,
                Err(e) => !old(self)@.receiver_live && e == SendError::ReceiverDropped,
            },
            sent is Err ==> final(self).pending_wake() == old(self).pending_wake(),
    {
        if !self.receiver_dropped {
            self.queue.push_back(value);
            let position = self.queue.len();
            self.notify();
            Ok(position)
        } else {
            Err(SendError::ReceiverDropped)
        }
    }

    /// Takes the oldest unread value out of the buffer, if there is one.
    pub fn try_dequeue(&mut self) -> (value: Option<T>)
        ensures
            value == old(self)@.front(),
            final(self)@ == old(self)@.dequeue(),
            final(self).pending_wake() == old(self).pending_wake(),
    {
        self.queue.pop_front()
    }

    /// One pull of the consumer.
    ///
    /// Hands out the oldest unread value if there is one. On an empty buffer
    /// it reports the end of the stream when `senders_gone`, and otherwise
    /// parks the consumer: a copy of `waker` replaces whatever handle was
    /// stored, and the answer is `Pending`.
    pub fn poll(&mut self, senders_gone: bool, waker: &Waker) -> (outcome: Poll<Option<T>>)
        ensures
            outcome == old(self)@.pull_result(senders_gone),
            final(self)@ == old(self)@.pull(senders_gone),
            outcome is Ready ==> final(self).pending_wake() == old(self).pending_wake(),
    {
        match self.try_dequeue() {
            Some(value) => Poll::Ready(Some(value)),
            None => {
                if senders_gone {
                    Poll::Ready(None)
                } else {
                    self.register_wake(duplicate(waker));
                    Poll::Pending
                }
            },
        }
    }

    /// Marks the consumer as gone and discards the stored wake handle without
    /// firing it. From here on every send is refused.
    pub fn release_receiver(&mut self)
        ensures
            final(self)@ == old(self)@.receiver_released(),
    {
        self.receiver_dropped = true;
        self.waker = None;
    }
}

} // verus!
