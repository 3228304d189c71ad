//! The queue as a mathematical object.
//!
//! A [`Channel`] is what a [`QueueInner`](crate::QueueInner) stands for: the
//! values waiting to be read, whether a consumer is parked, and whether the
//! consumer is still alive. Each operation of the queue is a function from
//! one channel to the next, and a history of operations is a sequence of
//! [`Step`]s applied in the order in which they took the lock.

use std::task::Poll;
use vstd::prelude::*;

verus! {

/// The state of one queue.
pub ghost struct Channel<T> {
    /// The accepted values that have not been read yet, oldest first.
    pub buffer: Seq<T>,
    /// Whether a wake handle of a suspended consumer is stored.
    pub parked: bool,
    /// Whether the consumer handle has not been released yet.
    pub receiver_live: bool,
}

/// One operation on a queue, as the lock orders it.
pub ghost enum Step<T> {
    /// A producer offers a value.
    Send(T),
    /// The consumer pulls. `senders_gone` says whether no producer handle was
    /// left at that moment.
    Pull { senders_gone: bool },
    /// A producer handle is released.
    ReleaseSender,
    /// The consumer handle is released.
    ReleaseReceiver,
}

/// One operation on a sink.
pub ghost enum SinkStep {
    /// A readiness check.
    Ready,
    /// An attempt to push a value.
    Send,
    /// A flush.
    Flush,
    /// A close.
    Close,
}

impl SinkStep {
    /// Whether a sink is open after this step, given whether it was open
    /// before: a close closes it and nothing opens it.
    pub open spec fn leaves_open(self, open: bool) -> bool {
        open && !(self is Close)
    }

    /// Whether a sink is open after all of `steps`, applied first to last.
    pub open spec fn leave_open(steps: Seq<SinkStep>, open: bool) -> bool
        decreases steps.len(),
    {
        if steps.len() == 0 {
            open
        } else {
            steps.last().leaves_open(Self::leave_open(steps.drop_last(), open))
        }
    }
}

impl<T> Channel<T> {
    /// A queue right after construction: empty, nobody parked, consumer alive.
    pub open spec fn fresh() -> Self {
        Channel { buffer: Seq::empty(), parked: false, receiver_live: true }
    }

    /// The channel after a producer offered `value`: while the consumer is
    /// alive the value joins the end of the buffer and a parked consumer is
    /// woken; once the consumer is gone the offer changes nothing.
    pub open spec fn send(self, value: T) -> Self {
        if self.receiver_live {
            Channel { buffer: self.buffer.push(value), parked: false, receiver_live: true }
        } else {
            self
        }
    }

    /// The oldest unread value, if there is one.
    pub open spec fn front(self) -> Option<T> {
        if self.buffer.len() > 0 {
            Some(self.buffer[0])
        } else {
            None
        }
    }

    /// The channel after its oldest unread value, if any, was taken out.
    pub open spec fn dequeue(self) -> Self {
        if self.buffer.len() > 0 {
            Channel { buffer: self.buffer.drop_first(), ..self }
        } else {
            self
        }
    }

    /// The channel with a wake handle stored.
    pub open spec fn park(self) -> Self {
        Channel { parked: true, ..self }
    }

    /// The channel with no wake handle stored.
    pub open spec fn unpark(self) -> Self {
        Channel { parked: false, ..self }
    }

    /// What a pull answers: the oldest value if there is one; else the end of
    /// the stream if no producer is left; else that the consumer must wait.
    pub open spec fn pull_result(self, senders_gone: bool) -> Poll<Option<T>> {
        if self.buffer.len() > 0 {
            Poll::Ready(Some(self.buffer[0]))
        } else if senders_gone {
            Poll::Ready(None)
        } else {
            Poll::Pending
        }
    }

    /// The channel after a pull: the oldest value is gone if there was one;
    /// at the end of the stream nothing changes; else the consumer is parked.
    pub open spec fn pull(self, senders_gone: bool) -> Self {
        if self.buffer.len() > 0 {
            self.dequeue()
        } else if senders_gone {
            self
        } else {
            self.park()
        }
    }

    /// The channel after the consumer handle was released: no longer alive,
    /// and any stored wake handle discarded.
    pub open spec fn receiver_released(self) -> Self {
        Channel { buffer: self.buffer, parked: false, receiver_live: false }
    }

    /// The channel after one step.
    pub open spec fn step(self, step: Step<T>) -> Self {
        match step {
            Step::Send(value) => self.send(value),
            Step::Pull { senders_gone } => self.pull(senders_gone),
            Step::ReleaseSender => self.unpark(),
            Step::ReleaseReceiver => self.receiver_released(),
        }
    }

    /// The channel after all of `steps`, applied first to last.
    pub open spec fn run(self, steps: Seq<Step<T>>) -> Self
        decreases steps.len(),
    {
        if steps.len() == 0 {
            self
        } else {
            self.run(steps.drop_last()).step(steps.last())
        }
    }

    /// The values whose sends succeeded during `steps`, in the order in which
    /// those sends completed.
    pub open spec fn accepted(self, steps: Seq<Step<T>>) -> Seq<T>
        decreases steps.len(),
    {
        if steps.len() == 0 {
            Seq::empty()
        } else {
            let earlier = self.accepted(steps.drop_last());
            match steps.last() {
                Step::Send(value) if self.run(steps.drop_last()).receiver_live => earlier.push(
                    value,
                ),
                _ => earlier,
            }
        }
    }

    /// The values that the pulls among `steps` handed to the consumer, in the
    /// order of those pulls.
    pub open spec fn delivered(self, steps: Seq<Step<T>>) -> Seq<T>
        decreases steps.len(),
    {
        if steps.len() == 0 {
            Seq::empty()
        } else {
            let earlier = self.delivered(steps.drop_last());
            match (steps.last(), self.run(steps.drop_last()).front()) {
                (Step::Pull { .. }, Some(value)) => earlier.push(value),
                _ => earlier,
            }
        }
    }
}

} // verus!
