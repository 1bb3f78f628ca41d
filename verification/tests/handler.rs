use greeting_handler::escape::escape_json_string;
use greeting_handler::handler::handle;
use greeting_handler::response::error_response;
use greeting_handler::response::internal_error_response;

const MISSING_MESSAGE_BODY: &str =
    "{\"statusCode\":400,\"message\":\"invalid request: expected a text field named 'message'\"}";
const JSON_CONTENT_TYPE: &str = "application/json; charset=utf-8";

#[test]
fn greets_world() {
    let r = handle(b"{\"message\":\"World\"}");
    assert_eq!(r.status, 200);
    assert_eq!(r.body, "{\"answer\":\"Hello, World!\"}");
    assert_eq!(r.content_type.as_deref(), Some(JSON_CONTENT_TYPE));
}

#[test]
fn rejects_invalid_utf8() {
    let r = handle(&[0xff, 0xfe, 0xfd]);
    assert_eq!(r.status, 400);
    assert!(r.body.starts_with("{\"statusCode\":400,\"message\":\""));
    assert!(r.body.ends_with("\"}"));
    assert!(r.body.contains("invalid utf-8"));
    assert_eq!(r.content_type, None);
}

#[test]
fn rejects_text_that_is_not_json() {
    let r = handle(b"not json");
    assert_eq!(r.status, 400);
    assert!(r.body.starts_with("{\"statusCode\":400,\"message\":\""));
    assert!(r.body.ends_with("\"}"));
    assert_eq!(r.content_type, None);
}

#[test]
fn rejects_empty_input() {
    let r = handle(b"");
    assert_eq!(r.status, 400);
    assert!(r.body.starts_with("{\"statusCode\":400,\"message\":\""));
}

#[test]
fn rejects_object_without_message() {
    let r = handle(b"{}");
    assert_eq!(r.status, 400);
    assert_eq!(r.body, MISSING_MESSAGE_BODY);
    assert_eq!(r.content_type, None);
}

#[test]
fn rejects_message_that_is_not_text() {
    let r = handle(b"{\"message\": 5}");
    assert_eq!(r.status, 400);
    assert_eq!(r.body, MISSING_MESSAGE_BODY);
}

#[test]
fn rejects_document_that_is_not_an_object() {
    let r = handle(b"[1, 2]");
    assert_eq!(r.status, 400);
    assert_eq!(r.body, MISSING_MESSAGE_BODY);
}

#[test]
fn greets_despite_extra_members() {
    let r = handle(br#"{"count": [1, 2], "message": "Bob"}"#);
    assert_eq!(r.status, 200);
    assert_eq!(r.body, "{\"answer\":\"Hello, Bob!\"}");
}

#[test]
fn greets_empty_message() {
    let r = handle(br#"{"message": ""}"#);
    assert_eq!(r.status, 200);
    assert_eq!(r.body, "{\"answer\":\"Hello, !\"}");
}

#[test]
fn escapes_quote_and_backslash_in_answer() {
    let r = handle(br#"{"message":"a\"b\\c"}"#);
    assert_eq!(r.status, 200);
    assert_eq!(r.body, r#"{"answer":"Hello, a\"b\\c!"}"#);
}

#[test]
fn escapes_newline_in_answer() {
    let r = handle(br#"{"message":"a\nb"}"#);
    assert_eq!(r.status, 200);
    assert_eq!(r.body, r#"{"answer":"Hello, a\nb!"}"#);
}

#[test]
fn escapes_bare_control_character_in_answer() {
    let r = handle(br#"{"message":"a\u001fb"}"#);
    assert_eq!(r.status, 200);
    assert_eq!(r.body, r#"{"answer":"Hello, a\u001fb!"}"#);
}

#[test]
fn passes_non_ascii_text_through() {
    let input = "{\"message\":\"h\u{e9}llo \u{4e16}\u{754c}\"}".as_bytes();
    let r = handle(input);
    assert_eq!(r.status, 200);
    assert_eq!(r.body, "{\"answer\":\"Hello, h\u{e9}llo \u{4e16}\u{754c}!\"}");
}

#[test]
fn same_input_gives_same_output() {
    let input: &[u8] = br#"{"message":"twice"}"#;
    let a = handle(input);
    let b = handle(input);
    assert_eq!(a.status, b.status);
    assert_eq!(a.body, b.body);
    assert_eq!(a.content_type, b.content_type);

    let bad: &[u8] = &[0x80];
    let c = handle(bad);
    let d = handle(bad);
    assert_eq!(c.status, d.status);
    assert_eq!(c.body, d.body);
}

#[test]
fn escape_covers_every_class() {
    let escaped = escape_json_string("a\"b\\c\nd\re\tf\u{8}g\u{c}h\u{1}i");
    assert_eq!(escaped, "a\\\"b\\\\c\\nd\\re\\tf\\bg\\fh\\u0001i");
    assert_eq!(escape_json_string("plain"), "plain");
    assert_eq!(escape_json_string(""), "");
}

#[test]
fn error_response_names_status_and_message() {
    let r = error_response(404, "nope");
    assert_eq!(r.status, 404);
    assert_eq!(r.body, "{\"statusCode\":404,\"message\":\"nope\"}");
    assert_eq!(r.content_type, None);
}

#[test]
fn error_response_escapes_the_description() {
    let r = error_response(400, "a \"quoted\" thing");
    assert_eq!(r.body, r#"{"statusCode":400,"message":"a \"quoted\" thing"}"#);
}

#[test]
fn internal_error_response_is_the_fixed_literal() {
    let r = internal_error_response();
    assert_eq!(r.status, 500);
    assert_eq!(r.body, "{\"statusCode\":500,\"message\":\"Internal server error\"}");
    assert_eq!(r.content_type, None);
}
