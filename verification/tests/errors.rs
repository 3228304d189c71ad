use kiss_queue::SendError;
use kiss_queue::SinkError;

#[test]
fn send_error_is_shown_by_name() {
    assert_eq!(SendError::ReceiverDropped.to_string(), "ReceiverDropped");
    assert_eq!(format!("{:?}", SendError::ReceiverDropped), "ReceiverDropped");
}

#[test]
fn sink_errors_are_shown_by_name() {
    assert_eq!(SinkError::ReceiverDropped.to_string(), "ReceiverDropped");
    assert_eq!(SinkError::Closed.to_string(), "Closed");
    assert_eq!(format!("{:?}", SinkError::Closed), "Closed");
}

#[test]
fn errors_can_be_copied_and_compared() {
    let first = SinkError::Closed;
    let second = first;
    assert_eq!(first, second);
    assert_ne!(SinkError::Closed, SinkError::ReceiverDropped);
    assert_eq!(SendError::ReceiverDropped.clone(), SendError::ReceiverDropped);
}
