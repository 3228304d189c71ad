//! Construction of a queue.

use crate::receiver::Receiver;
use crate::sender::Sender;
use crate::shared::new_lock;
use crate::state::QueueInner;
use std::sync::Arc;
use vstd::prelude::*;

verus! {

/// Creates a queue and returns its first producer handle and its consumer
/// handle. Both refer to one new state, which starts out as
/// [`QueueInner::new`] leaves it: empty, nobody parked, consumer alive.
pub fn mpsc<T>() -> (pair: (Sender<T>, Receiver<T>))
    ensures
        pair.0.shared() == pair.1.shared(),
{
    let inner = Arc::new(new_lock(QueueInner::new()));
    (Sender::attach(inner.clone()), Receiver::attach(inner))
}

} // verus!
