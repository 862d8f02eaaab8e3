//! The decoder: from the body of a message to a telemetry record.
//!
//! A body is read as text, the text is parsed as JSON, and the document is
//! checked against the schema of the record. A body yields a whole record or
//! an error, never a part of a record.

use crate::error::DecodeError;
use crate::json::parse::{parse, parsed};
use crate::json::{Json, JsonView};
use crate::models::drone_status::{decoded, DroneStatus, DroneStatusView};
use vstd::prelude::*;
use vstd::utf8::{
    decode_utf8, encode_utf8, encode_utf8_decode_utf8, encode_utf8_valid_utf8, valid_utf8,
};

verus! {

/// The text that a body which is no UTF-8 is read as: what of it decodes,
/// with the replacement character in the place of each ill-formed part.
pub uninterp spec fn lossy_text(body: Seq<u8>) -> Seq<char>;

/// The text that a body is read as: its UTF-8 decoding where it has one,
/// else its lossy reading.
pub open spec fn body_text(body: Seq<u8>) -> Seq<char> {
    if valid_utf8(body) {
        decode_utf8(body)
    } else {
        lossy_text(body)
    }
}

/// Calls `String::from_utf8_lossy` and takes the text as an owned string.
/// Bytes that are UTF-8 are converted as they are; for others the text
/// depends on the bytes alone, and is the one named by [`lossy_text`].
#[verifier::external_body]
fn text_of(body: &[u8]) -> (text: String)
    ensures
        text@ == if valid_utf8(body@) {
            decode_utf8(body@)
        } else {
            lossy_text(body@)
        },
{
    String::from_utf8_lossy(body).into_owned()
}

/// What a parsed text decodes to: `document` is what the JSON parser made of
/// the text, `None` where it rejected it.
pub open spec fn decoded_document(document: Option<JsonView>) -> Result<
    DroneStatusView,
    DecodeError,
> {
    match document {
        Some(json) => decoded(json),
        None => Err(DecodeError::Malformed),
    }
}

/// What a text decodes to.
pub open spec fn decoded_text(text: Seq<char>) -> Result<DroneStatusView, DecodeError> {
    decoded_document(parsed(text))
}

/// What a message body decodes to.
pub open spec fn decoded_body(body: Seq<u8>) -> Result<DroneStatusView, DecodeError> {
    decoded_text(body_text(body))
}

/// The model of what the JSON parser made of a text.
pub open spec fn document_view(document: Option<Json>) -> Option<JsonView> {
    match document {
        Some(json) => Some(json@),
        None => None,
    }
}

/// Checks a parsed text against the schema. `document` is what the JSON
/// parser made of the text, `None` where it rejected it.
pub fn decode_document(document: Option<Json>) -> (record: Result<DroneStatus, DecodeError>)
    ensures
        match record {
            Ok(r) => decoded_document(document_view(document)) == Ok::<
                DroneStatusView,
                DecodeError,
            >(r@),
            Err(e) => decoded_document(document_view(document)) == Err::<
                DroneStatusView,
                DecodeError,
            >(e),
        },
{
    match document {
        Some(json) => DroneStatus::from_json(&json),
        None => Err(DecodeError::Malformed),
    }
}

/// Decodes a JSON text.
pub fn decode_text(text: &str) -> (record: Result<DroneStatus, DecodeError>)
    ensures
        match record {
            Ok(r) => decoded_text(text@) == Ok::<DroneStatusView, DecodeError>(r@),
            Err(e) => decoded_text(text@) == Err::<DroneStatusView, DecodeError>(e),
        },
{
    decode_document(parse(text))
}

/// Decodes a message body. Bytes that are no UTF-8 do not fail by
/// themselves: they are replaced, and the text is parsed as it then stands.
pub fn decode(body: &[u8]) -> (record: Result<DroneStatus, DecodeError>)
    ensures
        match record {
            Ok(r) => decoded_body(body@) == Ok::<DroneStatusView, DecodeError>(r@),
            Err(e) => decoded_body(body@) == Err::<DroneStatusView, DecodeError>(e),
        },
{
    let text = text_of(body);
    decode_text(text.as_str())
}

/// A body that is the UTF-8 encoding of a text decodes as the text does.
pub proof fn body_of_text_decodes_as_text(text: Seq<char>)
    ensures
        decoded_body(encode_utf8(text)) == decoded_text(text),
{
    encode_utf8_valid_utf8(text);
    encode_utf8_decode_utf8(text);
}

/// A body whose text is no JSON is rejected as malformed, and only such a
/// body is.
pub proof fn malformed_is_rejected(body: Seq<u8>)
    ensures
        parsed(body_text(body)) is None <==> decoded_body(body) == Err::<
            DroneStatusView,
            DecodeError,
        >(DecodeError::Malformed),
{
}

} // verus!
