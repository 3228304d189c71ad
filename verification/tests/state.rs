use futures::task::noop_waker;
use kiss_queue::QueueInner;
use kiss_queue::SendError;
use std::sync::atomic::AtomicUsize;
use std::sync::atomic::Ordering;
use std::sync::Arc;
use std::task::Poll;
use std::task::Wake;
use std::task::Waker;

struct Bell(AtomicUsize);

impl Wake for Bell {
    fn wake(self: Arc<Self>) {
        self.0.fetch_add(1, Ordering::SeqCst);
    }

    fn wake_by_ref(self: &Arc<Self>) {
        self.0.fetch_add(1, Ordering::SeqCst);
    }
}

fn bell() -> (Arc<Bell>, Waker) {
    let bell = Arc::new(Bell(AtomicUsize::new(0)));
    let waker = Waker::from(bell.clone());
    (bell, waker)
}

fn rung(bell: &Arc<Bell>) -> usize {
    bell.0.load(Ordering::SeqCst)
}

#[test]
fn new_state_is_empty_and_live() {
    let mut state = QueueInner::<u32>::new();
    assert_eq!(state.len(), 0);
    assert!(!state.is_cancelled());
    assert!(state.take_wake().is_none());
    assert_eq!(state.try_dequeue(), None);
}

#[test]
fn enqueue_returns_the_new_length() {
    let mut state = QueueInner::<u32>::new();
    assert_eq!(state.enqueue(10), Ok(1));
    assert_eq!(state.enqueue(20), Ok(2));
    assert_eq!(state.enqueue(30), Ok(3));
    assert_eq!(state.len(), 3);
}

#[test]
fn try_dequeue_takes_the_oldest() {
    let mut state = QueueInner::<u32>::new();
    state.enqueue(10).unwrap();
    state.enqueue(20).unwrap();
    assert_eq!(state.try_dequeue(), Some(10));
    assert_eq!(state.len(), 1);
    assert_eq!(state.try_dequeue(), Some(20));
    assert_eq!(state.try_dequeue(), None);
    assert_eq!(state.len(), 0);
}

#[test]
fn enqueue_after_release_is_refused_and_changes_nothing() {
    let mut state = QueueInner::<u32>::new();
    state.enqueue(1).unwrap();
    state.release_receiver();
    assert!(state.is_cancelled());
    assert_eq!(state.enqueue(2), Err(SendError::ReceiverDropped));
    assert_eq!(state.len(), 1);
    assert_eq!(state.try_dequeue(), Some(1));
    assert_eq!(state.try_dequeue(), None);
    assert!(state.is_cancelled());
}

#[test]
fn poll_hands_out_values_whatever_the_senders_do() {
    let waker = noop_waker();
    let mut state = QueueInner::<u32>::new();
    state.enqueue(1).unwrap();
    state.enqueue(2).unwrap();
    assert_eq!(state.poll(false, &waker), Poll::Ready(Some(1)));
    assert_eq!(state.poll(true, &waker), Poll::Ready(Some(2)));
    assert!(state.take_wake().is_none());
}

#[test]
fn poll_on_empty_buffer_ends_or_parks() {
    let waker = noop_waker();
    let mut state = QueueInner::<u32>::new();
    assert_eq!(state.poll(true, &waker), Poll::Ready(None));
    assert!(state.take_wake().is_none());
    assert_eq!(state.poll(false, &waker), Poll::Pending);
    assert!(state.take_wake().is_some());
    assert!(state.take_wake().is_none());
}

#[test]
fn end_of_stream_leaves_a_parked_handle_alone() {
    let (bell, waker) = bell();
    let mut state = QueueInner::<u32>::new();
    assert_eq!(state.poll(false, &waker), Poll::Pending);
    assert_eq!(state.poll(true, &waker), Poll::Ready(None));
    assert_eq!(state.poll(true, &waker), Poll::Ready(None));
    state.notify();
    assert_eq!(rung(&bell), 1);
}

#[test]
fn enqueue_fires_the_stored_handle_once() {
    let (bell, waker) = bell();
    let mut state = QueueInner::<u32>::new();
    state.register_wake(waker);
    assert_eq!(state.enqueue(1), Ok(1));
    assert_eq!(rung(&bell), 1);
    assert!(state.take_wake().is_none());
    assert_eq!(state.enqueue(2), Ok(2));
    assert_eq!(rung(&bell), 1);
}

#[test]
fn refused_enqueue_fires_nothing() {
    let (bell, waker) = bell();
    let mut state = QueueInner::<u32>::new();
    state.release_receiver();
    state.register_wake(waker);
    assert_eq!(state.enqueue(1), Err(SendError::ReceiverDropped));
    assert_eq!(rung(&bell), 0);
    assert!(state.take_wake().is_some());
}

#[test]
fn register_wake_replaces_the_earlier_handle() {
    let (old, old_waker) = bell();
    let (new, new_waker) = bell();
    let mut state = QueueInner::<u32>::new();
    state.register_wake(old_waker);
    state.register_wake(new_waker);
    state.notify();
    assert_eq!(rung(&old), 0);
    assert_eq!(rung(&new), 1);
}

#[test]
fn take_wake_hands_back_the_stored_handle() {
    let (bell, waker) = bell();
    let mut state = QueueInner::<u32>::new();
    state.register_wake(waker);
    let taken = state.take_wake().unwrap();
    assert_eq!(rung(&bell), 0);
    taken.wake();
    assert_eq!(rung(&bell), 1);
    state.notify();
    assert_eq!(rung(&bell), 1);
}

#[test]
fn notify_fires_and_clears() {
    let (bell, waker) = bell();
    let mut state = QueueInner::<u32>::new();
    state.notify();
    assert_eq!(rung(&bell), 0);
    state.register_wake(waker);
    state.notify();
    assert_eq!(rung(&bell), 1);
    state.notify();
    assert_eq!(rung(&bell), 1);
}

#[test]
fn release_receiver_drops_the_handle_unfired() {
    let (bell, waker) = bell();
    let mut state = QueueInner::<u32>::new();
    state.enqueue(5).unwrap();
    state.register_wake(waker);
    assert_eq!(Arc::strong_count(&bell), 2);
    state.release_receiver();
    assert_eq!(Arc::strong_count(&bell), 1);
    assert_eq!(rung(&bell), 0);
    assert!(state.take_wake().is_none());
    assert!(state.is_cancelled());
    assert_eq!(state.len(), 1);
}

#[test]
fn poll_parks_a_copy_of_the_callers_handle() {
    let (bell, waker) = bell();
    let mut state = QueueInner::<u32>::new();
    assert_eq!(Arc::strong_count(&bell), 2);
    assert_eq!(state.poll(false, &waker), Poll::Pending);
    assert_eq!(Arc::strong_count(&bell), 3);
    assert_eq!(state.enqueue(1), Ok(1));
    assert_eq!(rung(&bell), 1);
    assert_eq!(Arc::strong_count(&bell), 2);
    assert_eq!(state.poll(false, &waker), Poll::Ready(Some(1)));
    assert_eq!(Arc::strong_count(&bell), 2);
}
