//! The failures a producer can be handed.

use vstd::prelude::*;

verus! {

/// Why a value offered through a [`Sender`](crate::Sender) was refused.
#[derive(Debug, Clone, Copy, PartialEq, Eq, Structural)]
pub enum SendError {
    /// The consumer has been released: nothing would ever read the value.
    ReceiverDropped,
}

/// Why a [`Sink`](crate::Sink) refused an operation.
#[derive(Debug, Clone, Copy, PartialEq, Eq, Structural)]
pub enum SinkError {
    /// The consumer has been released: nothing would ever read the value.
    ReceiverDropped,
    /// The sink was closed by its own holder.
    Closed,
}

impl SendError {
    /// The text this error is shown as.
    pub open spec fn text(self) -> Seq<char> {
        "ReceiverDropped"@
    }

    /// Renders the error as its variant's name.
    pub fn to_string(&self) -> (rendered: String)
        ensures
            rendered@ == self.text(),
    {
        match self {
            SendError::ReceiverDropped => "ReceiverDropped".to_owned(),
        }
    }
}

impl SinkError {
    /// The text this error is shown as.
    pub open spec fn text(self) -> Seq<char> {
        match self {
            SinkError::ReceiverDropped => "ReceiverDropped"@,
            SinkError::Closed => "Closed"@,
        }
    }

    /// Renders the error as its variant's name.
    pub fn to_string(&self) -> (rendered: String)
        ensures
            rendered@ == self.text(),
    {
        match self {
            SinkError::ReceiverDropped => "ReceiverDropped".to_owned(),
            SinkError::Closed => "Closed".to_owned(),
        }
    }

    /// The sink's error for a refusal by the underlying sender.
    pub open spec fn of_send(e: SendError) -> SinkError {
        match e {
            SendError::ReceiverDropped => SinkError::ReceiverDropped,
        }
    }
}

} // verus!
