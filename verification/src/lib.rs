//! An unbounded multi-producer, single-consumer queue for cooperative tasks.
//!
//! Any number of [`Sender`] handles push values into one shared buffer; a
//! single [`Receiver`] pulls them out one at a time, parking a wake handle
//! when the buffer is empty and producers are still around. The buffer, the
//! parked wake handle and the consumer's liveness flag form one unit,
//! [`QueueInner`], guarded by one lock.
//!
//! Every rule of the queue is a verified method of [`QueueInner`], stated
//! against the mathematical [`Channel`] it stands for. The handles only take
//! the lock and apply one such method. What holds of whole histories of
//! sends and pulls is proved in [`laws`].
//!
//! Handles are given up by an explicit call: [`Sender::release`],
//! [`Receiver::release`], and [`Sink::poll_close`] for a sink. That call is
//! what wakes a parked consumer when a producer leaves, and what makes sends
//! fail once the consumer has left.

pub mod channel;
pub mod error;
pub mod laws;
pub mod model;
pub mod receiver;
pub mod sender;
pub mod shared;
pub mod sink;
pub mod state;
pub mod task;

pub use channel::mpsc;
pub use error::SendError;
pub use error::SinkError;
pub use model::Channel;
pub use model::SinkStep;
pub use model::Step;
pub use receiver::Receiver;
pub use sender::Sender;
pub use sink::Sink;
pub use state::QueueInner;
