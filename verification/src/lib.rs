//! Ingestion core for drone telemetry.
//!
//! Drones publish status messages on a queue; this library holds what the
//! consumer of that queue decides for each message:
//!
//! - [`models`] is the telemetry schema: the record of one aircraft, its
//!   nested records and the map of payload measurement blocks, each with its
//!   JSON form;
//! - [`decoder`] turns the body of a message into a record or into the reason
//!   why it is none;
//! - [`event_consumers`] is the state machine of a delivery: when it is
//!   acknowledged, dropped or sent back to the queue;
//! - [`db`] holds the settings of the document store;
//! - [`json`] is the JSON document model that the schema is written against,
//!   and [`text`] a helper for comparing names.
//!
//! The queue and the store themselves are outside this library: the caller
//! owns them, does what a step asks for and reports how it went.

pub mod db;
pub mod decoder;
pub mod error;
pub mod event_consumers;
pub mod json;
pub mod models;
pub mod text;
