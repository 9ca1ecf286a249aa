//! Streaming object upload to Google Cloud Storage and a task-queue consumer
//! backed by Amazon SQS.
//!
//! The heart of the crate is the resumable-upload state machine: a writer
//! buffers caller bytes, cuts them into chunk PUT requests that carry a
//! `Content-Range` header, and interprets the server's partial-acceptance
//! responses. All protocol decisions are verified; the network calls
//! themselves are issued by the embedding program, which feeds each response
//! back into the state machine.

pub mod sqs;
pub mod transport;
pub mod upload;
pub mod wire;
