//! The telemetry schema.

pub mod battery;
pub mod camera;
pub mod drone_status;
pub mod flight;
pub mod maintain;
pub mod payload;
pub mod payload_map;
pub mod psdk;
