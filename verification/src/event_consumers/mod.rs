//! Consumers of the message queue.

pub mod drone_status_consumer;
