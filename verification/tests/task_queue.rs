//! The consumer's lease protocol: what each receive answer yields, and the
//! parameters with which leases are surrendered.

use facilitator::sqs::{
    acknowledge_parameters, dequeue_disposition, nacknowledge_parameters,
    receive_message_parameters, QueueError, SqsReceivedMessage, TaskHandle,
};

#[test]
fn receive_parameters_request_one_leased_message() {
    let params = receive_message_parameters();
    assert_eq!(params.max_number_of_messages, 1);
    assert_eq!(params.wait_time_seconds, 20);
    assert_eq!(params.visibility_timeout, 600);
}

#[test]
fn empty_poll_yields_nothing() {
    assert_eq!(dequeue_disposition(None), Ok(None));
    assert_eq!(dequeue_disposition(Some(Vec::new())), Ok(None));
}

#[test]
fn round_trip_through_dequeue_and_acknowledge() {
    let messages = vec![SqsReceivedMessage {
        body: Some(String::from("{\"kind\":\"X\"}")),
        receipt_handle: Some(String::from("R")),
    }];
    let handle = dequeue_disposition(Some(messages)).unwrap().unwrap();
    assert_eq!(handle.task, "{\"kind\":\"X\"}");
    assert_eq!(handle.acknowledgment_id, "R");

    let decoded: serde_json::Value = serde_json::from_str(&handle.task).unwrap();
    assert_eq!(decoded.get("kind").and_then(|v| v.as_str()), Some("X"));

    assert_eq!(acknowledge_parameters(handle), "R");
}

#[test]
fn nacknowledge_zeroes_the_visibility_timeout() {
    let handle = TaskHandle { task: String::from("t"), acknowledgment_id: String::from("lease") };
    let (receipt, visibility) = nacknowledge_parameters(handle);
    assert_eq!(receipt, "lease");
    assert_eq!(visibility, 0);
}

#[test]
fn more_than_one_message_is_rejected() {
    let message = || SqsReceivedMessage {
        body: Some(String::from("{}")),
        receipt_handle: Some(String::from("R")),
    };
    let out = dequeue_disposition(Some(vec![message(), message()]));
    assert_eq!(out, Err(QueueError::UnexpectedBatch));
}

#[test]
fn message_without_body_or_receipt_is_malformed() {
    let no_body = vec![SqsReceivedMessage { body: None, receipt_handle: Some(String::from("R")) }];
    assert_eq!(dequeue_disposition(Some(no_body)), Err(QueueError::MalformedMessage));

    let no_receipt =
        vec![SqsReceivedMessage { body: Some(String::from("{}")), receipt_handle: None }];
    assert_eq!(dequeue_disposition(Some(no_receipt)), Err(QueueError::MalformedMessage));
}
