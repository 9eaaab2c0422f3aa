//! Receiver side of a token-approval callback protocol.
//!
//! An [`receiver::ApprovalReceiver`] is configured with the one account that
//! is allowed to deliver approval notifications. Its handler validates the
//! caller, then either answers immediately or schedules a deferred call to the
//! service's own echo continuation; the continuation's result becomes the
//! overall result. [`service::ApprovalCallbackService`] adds the
//! initialize-exactly-once lifecycle around the receiver.

pub mod laws;
pub mod protocol;
pub mod receiver;
pub mod service;
