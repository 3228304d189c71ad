//! A producer's handle as a push-based sink that can be closed.

use crate::error::SendError;
use crate::error::SinkError;
use crate::model::SinkStep;
use crate::sender::Sender;
use std::task::Poll;
use vstd::prelude::*;

verus! {

/// A sink over a [`Sender`]: open while it holds the sender, closed for good
/// once it has given the sender up.
///
/// The sink keeps no values of its own; what it accepts goes straight into
/// the queue. A sink that is done must be closed, which releases its sender.
#[verifier::reject_recursive_types(T)]
pub struct Sink<T>(Option<Sender<T>>);

impl<T> View for Sink<T> {
    type V = Option<Sender<T>>;

    closed spec fn view(&self) -> Option<Sender<T>> {
        self.0
    }
}

impl<T> Sink<T> {
    /// Whether the sink still holds its sender.
    pub open spec fn is_open(&self) -> bool {
        self@ is Some
    }

    /// An open sink that owns `sender`.
    pub(crate) fn over(sender: Sender<T>) -> (sink: Self)
        ensures
            sink@ == Some(sender),
    {
        Sink(Some(sender))
    }

    /// What an open sink answers to a readiness check, given whether the
    /// consumer has been released.
    pub open spec fn readiness(cancelled: bool) -> Result<(), SinkError> {
        if cancelled {
            Err(SinkError::ReceiverDropped)
        } else {
            Ok(())
        }
    }

    /// What an open sink answers to a send, given what the sender answered.
    pub open spec fn forwarded(sent: Result<usize, SendError>) -> Result<(), SinkError> {
        match sent {
            Ok(_) => Ok(()),
            Err(e) => Err(SinkError::of_send(e)),
        }
    }

    /// Decides the readiness of an open sink from the sender's cancellation
    /// flag.
    pub fn ready_for(cancelled: bool) -> (ready: Result<(), SinkError>)
        ensures
            ready == Self::readiness(cancelled),
    {
        if !cancelled {
            Ok(())
        } else {
            Err(SinkError::ReceiverDropped)
        }
    }

    /// Turns the sender's answer to a send into the sink's: the position is
    /// dropped and the error renamed.
    pub fn forward(sent: Result<usize, SendError>) -> (accepted: Result<(), SinkError>)
        ensures
            accepted == Self::forwarded(sent),
    {
        match sent {
            Ok(_) => Ok(()),
            Err(SendError::ReceiverDropped) => Err(SinkError::ReceiverDropped),
        }
    }

    /// Whether the sink can take a value now. The answer is always ready: a
    /// closed sink reports `Closed`, an open one reports by
    /// [`Sink::ready_for`] whether the consumer is still there.
    pub fn poll_ready(&self) -> (ready: Poll<Result<(), SinkError>>)
        ensures
            !self.is_open() ==> ready == Poll::Ready(Err::<(), SinkError>(SinkError::Closed)),
            self.is_open() ==> ready == Poll::Ready(Ok::<(), SinkError>(())) || ready
                == Poll::Ready(Err::<(), SinkError>(SinkError::ReceiverDropped)),
    {
        Poll::Ready(
            match &self.0 {
                Some(sender) => Self::ready_for(sender.is_cancelled()),
                None => Err(SinkError::Closed),
            },
        )
    }

    /// Pushes `item` into the queue. A closed sink refuses with `Closed`; an
    /// open one sends through its sender and answers by [`Sink::forward`].
    /// The sink stays as open or closed as it was.
    pub fn start_send(&mut self, item: T) -> (accepted: Result<(), SinkError>)
        ensures
            final(self)@ == old(self)@,
            final(self).is_open() == SinkStep::Send.leaves_open(old(self).is_open()),
            !old(self).is_open() ==> accepted == Err::<(), SinkError>(SinkError::Closed),
            old(self).is_open() ==> accepted == Ok::<(), SinkError>(()) || accepted == Err::<
                (),
                SinkError,
            >(SinkError::ReceiverDropped),
    {
        match &self.0 {
            Some(sender) => Self::forward(sender.send(item)),
            None => Err(SinkError::Closed),
        }
    }

    /// Nothing is held back in the sink, so a flush is done at once.
    pub fn poll_flush(&self) -> (flushed: Poll<Result<(), SinkError>>)
        ensures
            flushed == Poll::Ready(Ok::<(), SinkError>(())),
    {
        Poll::Ready(Ok(()))
    }

    /// Closes the sink: an open sink releases its sender, a closed one stays
    /// closed. Either way the call succeeds at once, and the sink is closed
    /// from here on.
    pub fn poll_close(&mut self) -> (closed: Poll<Result<(), SinkError>>)
        ensures
            final(self)@ is None,
            final(self).is_open() == SinkStep::Close.leaves_open(old(self).is_open()),
            closed == Poll::Ready(Ok::<(), SinkError>(())),
    {
        match self.0.take() {
            Some(sender) => sender.release(),
            None => {},
        }
        Poll::Ready(Ok(()))
    }
}

} // verus!
