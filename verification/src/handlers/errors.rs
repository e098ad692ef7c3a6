//! Where domain errors become responses.
//!
//! The error enums in `crate::dtos::error` know nothing about HTTP, so a
//! service can be called from the runner or a background job. This module
//! holds the mapping to status codes and bodies.
//!
//! A database failure never reaches the caller in detail. Its text can leak
//! schema and query shape, so it goes to the log line and the caller gets a
//! flat internal error.
use vstd::prelude::*;

use crate::dtos::error::{ApiError, internal_error_message};
use crate::json::JsonValue;

verus! {

pub const OK: u16 = 200;
pub const CREATED: u16 = 201;
pub const BAD_REQUEST: u16 = 400;
pub const UNAUTHORIZED: u16 = 401;
pub const FORBIDDEN: u16 = 403;
pub const NOT_FOUND: u16 = 404;
pub const CONFLICT: u16 = 409;
pub const INTERNAL_SERVER_ERROR: u16 = 500;

/// The response an error turns into: its status, its body, and what goes
/// onto the request's log line under the `error` key, if anything.
#[derive(Debug, PartialEq)]
pub struct ErrorReply {
    pub status: u16,
    pub body: ApiError,
    pub log_context: Option<JsonValue>,
}

/// `v` is the object `{ key: text }`.
pub open spec fn is_single_text_entry(v: JsonValue, key: Seq<char>, text: Seq<char>) -> bool {
    match v {
        JsonValue::Object(es) => es@.len() == 1 && es@[0].0@ == key && (match es@[0].1 {
            JsonValue::String(t) => t@ == text,
            _ => false,
        }),
        _ => false,
    }
}

/// The object `{ key: text }`.
pub fn single_text_entry(key: &str, text: String) -> (v: JsonValue)
    ensures
        is_single_text_entry(v, key@, text@),
{
    let entries = vec![(String::from_str(key), JsonValue::String(text))];
    JsonValue::Object(entries)
}

/// `r` is the reply for an error that is the caller's to fix: the message
/// is the body, and the same message goes onto the log line as the reason.
pub open spec fn is_client_error(r: ErrorReply, status: u16, message: Seq<char>) -> bool {
    &&& r.status == status
    &&& r.body.error@ == message
    &&& r.log_context matches Some(v) && is_single_text_entry(v, "reason"@, message)
}

/// `r` is the reply for a failure on our side: a flat internal error, with
/// the cause on the log line only.
pub open spec fn is_internal_error(r: ErrorReply, cause: Seq<char>) -> bool {
    &&& r.status == 500
    &&& r.body.error@ == internal_error_message()
    &&& r.log_context matches Some(v) && is_single_text_entry(v, "cause"@, cause)
}

/// Builds the response for an error that is the caller's to fix, so the
/// message is safe and useful to show them.
///
/// The same message goes onto the log line. Without it a 4xx says only that
/// something was refused, not which rule refused it.
pub fn client_error(status: u16, message: String) -> (r: ErrorReply)
    ensures
        is_client_error(r, status, message@),
{
    let body = ApiError { error: message.clone() };
    let log = single_text_entry("reason", message);
    proof {
        reveal_strlit("reason");
    }
    ErrorReply { status, body, log_context: Some(log) }
}

/// Builds the response for a failure on our side. The cause goes onto the
/// request's log line, never into the response.
pub fn internal_error(cause: String) -> (r: ErrorReply)
    ensures
        is_internal_error(r, cause@),
{
    let log = single_text_entry("cause", cause);
    ErrorReply { status: 500, body: ApiError::internal_server_error(), log_context: Some(log) }
}

/// A response with the given status and body, and nothing for the log line.
pub fn plain_reply(status: u16, message: String) -> (r: ErrorReply)
    ensures
        r.status == status,
        r.body.error@ == message@,
        r.log_context is None,
{
    ErrorReply { status, body: ApiError { error: message }, log_context: None }
}

} // verus!
