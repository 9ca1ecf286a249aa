//! Lease protocol of the task-queue consumer: what one long-poll answer
//! means, and how a lease is surrendered when a task is acknowledged or
//! handed back for redelivery.

use vstd::prelude::*;

verus! {

/// A dequeued task paired with the lease that must be surrendered to
/// acknowledge or nack it. The lease is the queue's opaque receipt handle;
/// it stays exclusively with the holder of this value.
#[derive(Debug, PartialEq, Eq)]
pub struct TaskHandle<T> {
    pub task: T,
    pub acknowledgment_id: String,
}

/// The two fields of a received queue message that the consumer reads.
pub struct SqsReceivedMessage {
    pub body: Option<String>,
    pub receipt_handle: Option<String>,
}

/// Parameters of one long-poll receive call.
pub struct ReceiveMessageParameters {
    pub max_number_of_messages: i64,
    pub wait_time_seconds: i64,
    pub visibility_timeout: i64,
}

/// Everything that can go wrong while consuming the queue.
#[derive(Debug, PartialEq, Eq)]
pub enum QueueError {
    /// More than one message arrived although one was requested.
    UnexpectedBatch,
    /// A message arrived without a body or without a receipt handle.
    MalformedMessage,
    /// The message body did not decode as a task; the raw body is kept for
    /// diagnosis.
    TaskDecodeFailed { body: String },
    /// An underlying queue call failed.
    QueueRpcFailed { detail: String },
}

/// How the consumer polls: one message at a time, long polling for up to
/// 20 seconds, leasing the message for 600 seconds.
pub fn receive_message_parameters() -> (r: ReceiveMessageParameters)
    ensures
        r.max_number_of_messages == 1,
        r.wait_time_seconds == 20,
        r.visibility_timeout == 600,
{
    ReceiveMessageParameters { max_number_of_messages: 1, wait_time_seconds: 20, visibility_timeout: 600 }
}

/// Interpret one receive answer. No message is a clean empty poll; more
/// than one violates the request; a single message must carry both a body
/// and a receipt handle, which become the task's raw text and its lease.
pub fn dequeue_disposition(messages: Option<Vec<SqsReceivedMessage>>) -> (r: Result<
    Option<TaskHandle<String>>,
    QueueError,
>)
    ensures
        match r {
            Ok(t) => match t {
                Some(handle) => {
                    &&& messages matches Some(ms)
                    &&& ms@.len() == 1
                    &&& ms@[0].body matches Some(b) && handle.task == b
                    &&& ms@[0].receipt_handle matches Some(h) && handle.acknowledgment_id == h
                },
                None => messages is None || (messages matches Some(ms) && ms@.len() == 0),
            },
            Err(e) => match e {
                QueueError::UnexpectedBatch => messages matches Some(ms) && ms@.len() > 1,
                QueueError::MalformedMessage => {
                    &&& messages matches Some(ms)
                    &&& ms@.len() == 1
                    &&& (ms@[0].body is None || ms@[0].receipt_handle is None)
                },
                _ => false,
            },
        },
{
    let mut ms = match messages {
        None => {
            return Ok(None);
        },
        Some(ms) => ms,
    };
    if ms.len() == 0 {
        return Ok(None);
    }
    if ms.len() > 1 {
        return Err(QueueError::UnexpectedBatch);
    }
    let msg = ms.remove(0);
    match (msg.body, msg.receipt_handle) {
        (Some(body), Some(receipt_handle)) => Ok(
            Some(TaskHandle { task: body, acknowledgment_id: receipt_handle }),
        ),
        _ => Err(QueueError::MalformedMessage),
    }
}

/// Surrender a lease to acknowledge its task: the receipt handle to delete
/// the message with. Deleting prevents redelivery.
pub fn acknowledge_parameters<T>(handle: TaskHandle<T>) -> (r: String)
    ensures
        r == handle.acknowledgment_id,
{
    handle.acknowledgment_id
}

/// Surrender a lease to hand its task back: the receipt handle and the new
/// visibility timeout, zero, which makes the message immediately visible to
/// other consumers again without deleting it.
pub fn nacknowledge_parameters<T>(handle: TaskHandle<T>) -> (r: (String, i64))
    ensures
        r.0 == handle.acknowledgment_id,
        r.1 == 0,
{
    (handle.acknowledgment_id, 0)
}

} // verus!
