//! What holds of every history of a queue.
//!
//! A history is a sequence of [`Step`]s in the order in which they took the
//! lock, applied to some starting [`Channel`]. The methods of
//! [`QueueInner`](crate::QueueInner) take exactly these steps, so what is
//! proved here of `run`, `accepted` and `delivered` holds of every way in
//! which producers and the consumer can interleave.

use crate::model::Channel;
use crate::model::SinkStep;
use crate::model::Step;
use std::task::Poll;
use vstd::prelude::*;

verus! {

/// First in, first out. What the consumer has been handed, followed by what
/// still waits in the buffer, is what waited at the start followed by the
/// accepted values in the order in which their sends completed. Nothing is
/// lost, doubled or reordered.
///
/// On a queue that starts empty the consumer therefore sees the accepted
/// values from the first one on, in order and without a gap.
pub proof fn fifo_order<T>(start: Channel<T>, steps: Seq<Step<T>>)
    ensures
        start.delivered(steps) + start.run(steps).buffer == start.buffer + start.accepted(steps),
        start.buffer.len() == 0 ==> start.delivered(steps).is_prefix_of(start.accepted(steps)),
    decreases steps.len(),
{
    if steps.len() > 0 {
        let earlier = steps.drop_last();
        let before = start.run(earlier);
        fifo_order(start, earlier);
        assert(start.delivered(steps) + start.run(steps).buffer =~= start.buffer + start.accepted(
            steps,
        )) by {
            assert(start.delivered(earlier) + before.buffer == start.buffer + start.accepted(
                earlier,
            ));
            match steps.last() {
                Step::Send(value) => {
                    if before.receiver_live {
                        assert(start.delivered(steps) + start.run(steps).buffer =~= (
                        start.delivered(earlier) + before.buffer).push(value));
                        assert(start.buffer + start.accepted(steps) =~= (start.buffer
                            + start.accepted(earlier)).push(value));
                    }
                },
                Step::Pull { .. } => {
                    if before.buffer.len() > 0 {
                        assert(start.delivered(steps) + start.run(steps).buffer
                            =~= start.delivered(earlier) + before.buffer);
                    }
                },
                Step::ReleaseSender => {},
                Step::ReleaseReceiver => {},
            }
        }
    }
    if start.buffer.len() == 0 {
        let whole = start.delivered(steps) + start.run(steps).buffer;
        assert(start.buffer + start.accepted(steps) =~= start.accepted(steps));
        assert(start.delivered(steps) =~= whole.subrange(0, start.delivered(steps).len() as int));
    }
}

/// Each producer's values arrive in that producer's own order. For any way
/// `from` of telling one producer's values from the others', the values of
/// that producer that the consumer has been handed are an initial stretch of
/// the values of that producer that were waiting or accepted, in their
/// order. How the values of different producers interleave is left open.
pub proof fn per_producer_order<T>(
    start: Channel<T>,
    steps: Seq<Step<T>>,
    from: spec_fn(T) -> bool,
)
    ensures
        start.delivered(steps).filter(from).is_prefix_of(
            (start.buffer + start.accepted(steps)).filter(from),
        ),
{
    let handed = start.delivered(steps);
    let waiting = start.run(steps).buffer;
    fifo_order(start, steps);
    Seq::filter_distributes_over_add(handed, waiting, from);
    let whole = handed.filter(from) + waiting.filter(from);
    assert(handed.filter(from) =~= whole.subrange(0, handed.filter(from).len() as int));
}

/// The length of the buffer is the number of values that waited at the
/// start, plus the number of successful sends, minus the number of values
/// handed to the consumer. With no pull in between, each successful send
/// makes it one longer.
pub proof fn queue_length<T>(start: Channel<T>, steps: Seq<Step<T>>)
    ensures
        start.run(steps).buffer.len() == start.buffer.len() + start.accepted(steps).len()
            - start.delivered(steps).len(),
{
    fifo_order(start, steps);
    assert((start.delivered(steps) + start.run(steps).buffer).len() == (start.buffer
        + start.accepted(steps)).len());
}

/// One successful send makes the buffer exactly one longer, and a refused
/// send leaves its length alone.
pub proof fn send_adds_one<T>(before: Channel<T>, value: T)
    ensures
        before.receiver_live ==> before.send(value).buffer.len() == before.buffer.len() + 1,
        !before.receiver_live ==> before.send(value).buffer.len() == before.buffer.len(),
{
}

/// The end of the stream is final. Once the buffer is empty and no producer
/// is left, a pull answers with the end of the stream and changes nothing,
/// so after any number of such pulls the next one answers the same.
pub proof fn end_of_stream_is_final<T>(drained: Channel<T>, steps: Seq<Step<T>>)
    requires
        drained.buffer.len() == 0,
        forall|i: int|
            0 <= i < steps.len() ==> steps[i] == (Step::<T>::Pull { senders_gone: true }),
    ensures
        drained.pull_result(true) == Poll::<Option<T>>::Ready(None),
        drained.run(steps) == drained,
        drained.run(steps).pull_result(true) == Poll::<Option<T>>::Ready(None),
        drained.delivered(steps) == Seq::<T>::empty(),
    decreases steps.len(),
{
    if steps.len() > 0 {
        end_of_stream_is_final(drained, steps.drop_last());
    }
}

/// Release of the consumer is for good. Whatever steps follow it, the queue
/// stays cancelled, no send is accepted, and the buffer gains nothing: it
/// holds what was left at the release, less what has been pulled since.
pub proof fn cancelled_for_good<T>(before: Channel<T>, steps: Seq<Step<T>>)
    ensures
        !before.receiver_released().receiver_live,
        !before.receiver_released().run(steps).receiver_live,
        before.receiver_released().accepted(steps) == Seq::<T>::empty(),
        before.receiver_released().delivered(steps) + before.receiver_released().run(
            steps,
        ).buffer == before.buffer,
    decreases steps.len(),
{
    let gone = before.receiver_released();
    if steps.len() > 0 {
        cancelled_for_good(before, steps.drop_last());
    }
    fifo_order(gone, steps);
    assert(gone.buffer + gone.accepted(steps) =~= before.buffer);
}

/// Closing a sink is for good. Once a close is among the steps taken, the
/// sink is closed whatever came before and whatever follows, a second close
/// included; and a sink that is closed stays closed under every step.
pub proof fn closing_is_final(open: bool, steps: Seq<SinkStep>)
    ensures
        !open ==> !SinkStep::leave_open(steps, open),
        steps.contains(SinkStep::Close) ==> !SinkStep::leave_open(steps, open),
    decreases steps.len(),
{
    if steps.len() > 0 {
        let earlier = steps.drop_last();
        closing_is_final(open, earlier);
        if steps.contains(SinkStep::Close) && !(steps.last() is Close) {
            let i = choose|i: int| 0 <= i < steps.len() && steps[i] == SinkStep::Close;
            assert(earlier[i] == SinkStep::Close);
        }
    }
}

} // verus!
