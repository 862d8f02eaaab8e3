//! Why a message body is no telemetry record.

use vstd::prelude::*;

verus! {

/// The ways in which decoding a message body fails. None of them is worth a
/// retry: the same body fails in the same way again.
#[derive(Clone, Copy, Debug, PartialEq, Eq, Structural)]
pub enum DecodeError {
    /// The body is no JSON text.
    Malformed,
    /// The document is no object, or one of the fixed fields of the record is
    /// missing or has not the shape of its type.
    FixedField,
    /// A member that names no fixed field holds a value that is no payload
    /// measurement block.
    Extension,
}

impl DecodeError {
    /// A line for the log.
    pub fn describe(&self) -> (line: &'static str)
        ensures
            line@ == match *self {
                DecodeError::Malformed => "the message body is not valid JSON"@,
                DecodeError::FixedField => "a fixed field is missing or has the wrong type"@,
                DecodeError::Extension => "a payload key does not hold a measurement block"@,
            },
    {
        match self {
            DecodeError::Malformed => "the message body is not valid JSON",
            DecodeError::FixedField => "a fixed field is missing or has the wrong type",
            DecodeError::Extension => "a payload key does not hold a measurement block",
        }
    }
}

} // verus!
