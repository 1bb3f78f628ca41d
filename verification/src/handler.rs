//! The request handler and the laws that hold of it.
//!
//! [`handle`] is the whole pipeline: decode the body as UTF-8, parse the
//! JSON object, and answer with the greeting or with a 400 error that
//! carries the failure description. Its result is pinned down, for every
//! input, by the model [`handler_model`]; the proof functions below
//! state the visible behavior case by case.

use vstd::prelude::*;
use vstd::utf8::valid_utf8;
use vstd::utf8::decode_utf8;
use crate::parse::json_document_ok;
use crate::parse::json_error_text;
use crate::parse::json_message_field;
use crate::parse::parse_message_field;
use crate::parse::utf8_error_text;
use crate::parse::utf8_to_text;
use crate::response::dec_digits;
use crate::response::error_body;
use crate::response::error_model;
use crate::response::error_response;
use crate::response::json_content_type;
use crate::response::lemma_error_body_prefix;
use crate::response::success_body;
use crate::response::success_model;
use crate::response::success_response;
use crate::response::HttpResponse;
use crate::response::ResponseModel;

verus! {

/// The description used when a well-formed document has no text member
/// named `message`.
pub open spec fn missing_message_text() -> Seq<char> {
    "invalid request: expected a text field named 'message'"@
}

/// What the handler returns, as a function of the raw input bytes.
pub open spec fn handler_model(input: Seq<u8>) -> ResponseModel {
    if !valid_utf8(input) {
        error_model(400, utf8_error_text(input))
    } else {
        let text = decode_utf8(input);
        if !json_document_ok(text) {
            error_model(400, json_error_text(text))
        } else {
            match json_message_field(text) {
                Some(message) => success_model(message),
                None => error_model(400, missing_message_text()),
            }
        }
    }
}

/// Handles one request: decodes the body as UTF-8, parses it as a JSON
/// object with a text member `message`, and answers with the greeting,
/// or with a 400 error carrying the failure description.
pub fn handle(input: &[u8]) -> (r: HttpResponse)
    ensures
        r@ == handler_model(input@),
{
    match utf8_to_text(input) {
        Err(e) => error_response(400, e.as_str()),
        Ok(text) => match parse_message_field(text.as_str()) {
            Err(e) => error_response(400, e.as_str()),
            Ok(Some(message)) => {
                proof {
                    assert(json_message_field(decode_utf8(input@)) == Some(message@));
                }
                success_response(message.as_str())
            },
            Ok(None) => {
                proof {
                    assert(json_message_field(decode_utf8(input@)) is None);
                }
                error_response(400, "invalid request: expected a text field named 'message'")
            },
        },
    }
}

/// A valid request is greeted: when the bytes decode as UTF-8, the text
/// is a well-formed JSON document, and the document has a text member
/// `message`, the response has status 200, the JSON `content-type`, and
/// the body `{"answer":"Hello, <message>!"}` with the message escaped.
pub proof fn lemma_valid_request_greeted(input: Seq<u8>, message: Seq<char>)
    requires
        valid_utf8(input),
        json_document_ok(decode_utf8(input)),
        json_message_field(decode_utf8(input)) == Some(message),
    ensures
        handler_model(input) == success_model(message),
        handler_model(input).status == 200,
        handler_model(input).content_type == Some(json_content_type()),
        handler_model(input).body == success_body(message),
{
}

/// Bytes that are not valid UTF-8 are rejected: status 400, no
/// `content-type` header, and an error body that opens with
/// `{"statusCode":400`.
pub proof fn lemma_invalid_utf8_rejected(input: Seq<u8>)
    requires
        !valid_utf8(input),
    ensures
        handler_model(input).status == 400,
        handler_model(input).content_type is None,
        handler_model(input).body == error_body(400, utf8_error_text(input)),
        handler_model(input).body.take(17) == "{\"statusCode\":400"@,
{
    lemma_error_status_prefix(utf8_error_text(input));
}

/// Text that is not a well-formed JSON document is rejected: status
/// 400, no `content-type` header, and an error body that opens with
/// `{"statusCode":400`.
pub proof fn lemma_malformed_json_rejected(input: Seq<u8>)
    requires
        valid_utf8(input),
        !json_document_ok(decode_utf8(input)),
    ensures
        handler_model(input).status == 400,
        handler_model(input).content_type is None,
        handler_model(input).body == error_body(400, json_error_text(decode_utf8(input))),
        handler_model(input).body.take(17) == "{\"statusCode\":400"@,
{
    lemma_error_status_prefix(json_error_text(decode_utf8(input)));
}

/// A well-formed document without a text member `message` — the member
/// absent, or not a JSON string — is rejected: status 400, no
/// `content-type` header, and an error body that opens with
/// `{"statusCode":400`.
pub proof fn lemma_missing_message_rejected(input: Seq<u8>)
    requires
        valid_utf8(input),
        json_document_ok(decode_utf8(input)),
        json_message_field(decode_utf8(input)) is None,
    ensures
        handler_model(input).status == 400,
        handler_model(input).content_type is None,
        handler_model(input).body == error_body(400, missing_message_text()),
        handler_model(input).body.take(17) == "{\"statusCode\":400"@,
{
    lemma_error_status_prefix(missing_message_text());
}

/// The handler's visible result is a function of the input bytes alone:
/// two responses that both meet the handler's contract for the same
/// input are the same response.
pub proof fn lemma_handler_deterministic(input: Seq<u8>, r1: ResponseModel, r2: ResponseModel)
    requires
        r1 == handler_model(input),
        r2 == handler_model(input),
    ensures
        r1 == r2,
{
}

/// The body of a 400 error opens with `{"statusCode":400`.
proof fn lemma_error_status_prefix(message: Seq<char>)
    ensures
        error_body(400, message).take(17) == "{\"statusCode\":400"@,
{
    lemma_error_body_prefix(400, message);
    assert(dec_digits(4) =~= seq!['4']);
    assert(dec_digits(40) =~= seq!['4', '0']);
    assert(dec_digits(400) =~= seq!['4', '0', '0']);
    reveal_strlit("{\"statusCode\":");
    reveal_strlit("{\"statusCode\":400");
    assert("{\"statusCode\":"@ + dec_digits(400) =~= "{\"statusCode\":400"@);
}

} // verus!
