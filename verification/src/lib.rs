//! A verified request handler for a small greeting service.
//!
//! The library takes the raw bytes of one request body, decodes them as
//! UTF-8, parses them as a JSON object with a text field `message`, and
//! builds an HTTP-style response: on success, status 200 with the body
//! `{"answer":"Hello, <message>!"}`; on a decoding or parsing failure,
//! status 400 with a JSON error body carrying the failure description.
//! The whole pipeline is a pure function of the input bytes, and its
//! result is pinned down by the contracts in [`handler`].

pub mod escape;
pub mod parse;
pub mod response;
pub mod handler;
