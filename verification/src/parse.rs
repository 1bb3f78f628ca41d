//! Decoding and parsing of the inbound payload.
//!
//! The two steps that read the request — UTF-8 decoding and JSON parsing
//! — are calls into `core::str` and `serde_json`. Each stands behind one
//! trusted wrapper whose contract names what the call returns; everything
//! downstream is verified against those names.

use vstd::prelude::*;
use vstd::utf8::valid_utf8;
use vstd::utf8::decode_utf8;

verus! {

/// The description that `core::str::from_utf8` gives for `bytes` when
/// they are not valid UTF-8. It depends on the bytes alone.
pub uninterp spec fn utf8_error_text(bytes: Seq<u8>) -> Seq<char>;

/// Whether serde_json accepts `text` as a well-formed JSON document, by
/// its own grammar and nesting limit. It depends on the text alone.
pub uninterp spec fn json_document_ok(text: Seq<char>) -> bool;

/// The `message` member of the JSON document `text`: the member's text
/// when the document is an object holding a JSON string under that key,
/// `None` when the member is absent or not a string. Meaningful only
/// where `json_document_ok(text)` holds. It depends on the text alone.
pub uninterp spec fn json_message_field(text: Seq<char>) -> Option<Seq<char>>;

/// The description that serde_json gives for `text` when it is not a
/// well-formed JSON document. It depends on the text alone.
pub uninterp spec fn json_error_text(text: Seq<char>) -> Seq<char>;

/// Relies on `core::str::from_utf8`: it returns `Ok` exactly on valid
/// UTF-8 and decodes the bytes; the `Err` text is the `Utf8Error`
/// description.
#[verifier::external_body]
pub(crate) fn utf8_to_text(bytes: &[u8]) -> (r: Result<String, String>)
    ensures
        r is Ok <==> valid_utf8(bytes@),
        r matches Ok(text) ==> text@ == decode_utf8(bytes@),
        r matches Err(e) ==> e@ == utf8_error_text(bytes@),
{
    match core::str::from_utf8(bytes) {
        Ok(text) => Ok(text.to_string()),
        Err(e) => Err(e.to_string()),
    }
}

/// Relies on `serde_json::from_str::<Value>` for the JSON grammar, and
/// on `Value::get` and `Value::as_str` to read the `message` member:
/// `get` with a string key returns `None` on every non-object document,
/// and `as_str` returns the text exactly when the member is a JSON
/// string. The `Err` text is serde_json's error description.
#[verifier::external_body]
pub(crate) fn parse_message_field(text: &str) -> (r: Result<Option<String>, String>)
    ensures
        r is Ok <==> json_document_ok(text@),
        r matches Ok(m) ==> m.deep_view() == json_message_field(text@),
        r matches Err(e) ==> e@ == json_error_text(text@),
{
    match serde_json::from_str::<serde_json::Value>(text) {
        Ok(doc) => Ok(match doc.get("message") {
            Some(member) => match member.as_str() {
                Some(m) => Some(m.to_string()),
                None => None,
            },
            None => None,
        }),
        Err(e) => Err(e.to_string()),
    }
}

} // verus!
