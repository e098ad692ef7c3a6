//! The agreed keys for `add_context`.
//!
//! The named ones are concerns any request can have, whatever it was asking
//! for, so a log query can filter on them across every route. Domain detail
//! does not get its own key, it goes under `CONTEXT` where the code doing the
//! work names its own fields.
use vstd::prelude::*;

verus! {

/// A failure on our side, with its cause.
pub const ERROR: &'static str = "error";

/// How the caller authenticated, beyond the id on the line itself.
pub const AUTH: &'static str = "auth";

/// Database work done for the request.
pub const DB: &'static str = "db";

/// Whatever the code doing the work knows: `{ "workflow_id": ..., "steps": 4 }`.
/// Merges, so several layers can each add their own fields.
pub const CONTEXT: &'static str = "context";

} // verus!
