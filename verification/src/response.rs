//! Responses and their construction.
//!
//! A response is a status code, an optional `content-type` header value,
//! and a body. The two body shapes the service emits — the success
//! object under `answer` and the error object under `statusCode` and
//! `message` — are built here by verified code, character for character.

use vstd::prelude::*;
use vstd::string::StringExecFns;
use crate::escape::escape_json_string;
use crate::escape::hex_char;
use crate::escape::hex_digit_char;
use crate::escape::json_escape;
use crate::escape::push_char;

verus! {

/// An HTTP-style response: a status code, an optional `content-type`
/// header value, and a body.
pub struct HttpResponse {
    pub status: u16,
    pub content_type: Option<String>,
    pub body: String,
}

/// The mathematical model of a response.
#[verifier::ext_equal]
pub ghost struct ResponseModel {
    pub status: int,
    pub content_type: Option<Seq<char>>,
    pub body: Seq<char>,
}

impl View for HttpResponse {
    type V = ResponseModel;

    open spec fn view(&self) -> ResponseModel {
        ResponseModel {
            status: self.status as int,
            content_type: self.content_type.deep_view(),
            body: self.body@,
        }
    }
}

/// The decimal digit string of `n`, most significant digit first.
pub open spec fn dec_digits(n: nat) -> Seq<char>
    decreases n,
{
    if n < 10 {
        seq![hex_digit_char(n)]
    } else {
        dec_digits(n / 10).push(hex_digit_char(n % 10))
    }
}

/// The `content-type` value sent with every success response.
pub open spec fn json_content_type() -> Seq<char> {
    "application/json; charset=utf-8"@
}

/// The body of an error response: a JSON object with the status under
/// `statusCode` and the escaped description under `message`.
pub open spec fn error_body(status: nat, message: Seq<char>) -> Seq<char> {
    "{\"statusCode\":"@ + dec_digits(status) + ",\"message\":\""@ + json_escape(message) + "\"}"@
}

/// The model of an error response: the given status, no `content-type`
/// header, and the JSON error body.
pub open spec fn error_model(status: nat, message: Seq<char>) -> ResponseModel {
    ResponseModel { status: status as int, content_type: None, body: error_body(status, message) }
}

/// The body of a success response: a JSON object holding the escaped
/// greeting under `answer`.
pub open spec fn success_body(message: Seq<char>) -> Seq<char> {
    "{\"answer\":\""@ + json_escape("Hello, "@ + message + "!"@) + "\"}"@
}

/// The model of a success response: status 200, the JSON
/// `content-type`, and the greeting body.
pub open spec fn success_model(message: Seq<char>) -> ResponseModel {
    ResponseModel {
        status: 200,
        content_type: Some(json_content_type()),
        body: success_body(message),
    }
}

/// The fixed body of the response of last resort.
pub open spec fn internal_error_body() -> Seq<char> {
    "{\"statusCode\":500,\"message\":\"Internal server error\"}"@
}

/// Every error body opens by naming its status: the body of
/// `error_model(status, message)` begins with `{"statusCode":` followed
/// by the decimal digits of the status.
pub proof fn lemma_error_body_prefix(status: nat, message: Seq<char>)
    ensures
        error_body(status, message).take(14 + dec_digits(status).len() as int) == "{\"statusCode\":"@
            + dec_digits(status),
{
    reveal_strlit("{\"statusCode\":");
    let head = "{\"statusCode\":"@ + dec_digits(status);
    let tail = ",\"message\":\""@ + json_escape(message) + "\"}"@;
    assert(error_body(status, message) =~= head + tail);
    assert((head + tail).take(head.len() as int) =~= head);
}

/// Appends the decimal digits of `n` to `out`.
fn push_decimal(out: &mut String, n: u16)
    ensures
        final(out)@ == old(out)@ + dec_digits(n as nat),
    decreases n,
{
    if n < 10 {
        push_char(out, hex_char(n as u8));
        proof {
            assert(out@ =~= old(out)@ + dec_digits(n as nat));
        }
    } else {
        push_decimal(out, n / 10);
        push_char(out, hex_char((n % 10) as u8));
        proof {
            assert(out@ =~= old(out)@ + dec_digits(n as nat));
        }
    }
}

/// Builds the error response for the given status code and failure
/// description.
pub fn error_response(status: u16, message: &str) -> (r: HttpResponse)
    ensures
        r@ == error_model(status as nat, message@),
{
    let mut body = String::from_str("{\"statusCode\":");
    push_decimal(&mut body, status);
    body.append(",\"message\":\"");
    let escaped = escape_json_string(message);
    body.append(escaped.as_str());
    body.append("\"}");
    let r = HttpResponse { status: status, content_type: None, body: body };
    proof {
        assert(r@.body =~= error_body(status as nat, message@));
        assert(r@ =~= error_model(status as nat, message@));
    }
    r
}

/// Builds the success response for the given message: status 200, the
/// JSON `content-type`, and the greeting body.
pub fn success_response(message: &str) -> (r: HttpResponse)
    ensures
        r@ == success_model(message@),
{
    let mut answer = String::from_str("Hello, ");
    answer.append(message);
    answer.append("!");
    let mut body = String::from_str("{\"answer\":\"");
    let escaped = escape_json_string(answer.as_str());
    body.append(escaped.as_str());
    body.append("\"}");
    let r = HttpResponse {
        status: 200,
        content_type: Some(String::from_str("application/json; charset=utf-8")),
        body: body,
    };
    proof {
        assert(answer@ =~= "Hello, "@ + message@ + "!"@);
        assert(r@.body =~= success_body(message@));
        assert(r@ =~= success_model(message@));
    }
    r
}

/// The response of last resort: status 500 with a hardcoded body, for a
/// caller whose own response construction failed downstream. The body
/// is a fixed literal so that emitting it cannot itself fail.
pub fn internal_error_response() -> (r: HttpResponse)
    ensures
        r@.status == 500,
        r@.content_type is None,
        r@.body == internal_error_body(),
{
    HttpResponse {
        status: 500,
        content_type: None,
        body: String::from_str("{\"statusCode\":500,\"message\":\"Internal server error\"}"),
    }
}

} // verus!
