pub mod task;
pub mod user;
pub mod workflow;
pub mod workflow_task;
pub mod workflow_task_edge;

use vstd::prelude::*;

verus! {

/// The body of every error response.
#[derive(Debug, PartialEq, Eq)]
pub struct ApiError {
    pub error: String,
}

pub open spec fn internal_error_message() -> Seq<char> {
    "Something went wrong. Please try again later."@
}

impl ApiError {
    /// The one body a caller gets for any failure on our side.
    pub fn internal_server_error() -> (e: ApiError)
        ensures
            e.error@ == internal_error_message(),
    {
        ApiError { error: String::from_str("Something went wrong. Please try again later.") }
    }
}

/// A request field that breaks a rule, and which rule.
#[derive(Debug, PartialEq, Eq)]
pub struct ValidationError {
    pub field: String,
    pub message: String,
}

impl ValidationError {
    /// `field: message`.
    pub fn to_string(&self) -> (s: String)
        ensures
            s@ == self.field@ + ": "@ + self.message@,
    {
        let mut s = self.field.clone();
        s.append(": ");
        s.append(self.message.as_str());
        s
    }

    /// A validation failure answers 400 with `field: message` as the error.
    pub fn error_response(&self) -> (r: crate::handlers::errors::ErrorReply)
        ensures
            r.status == 400,
            r.body.error@ == self.field@ + ": "@ + self.message@,
            r.log_context is None,
    {
        crate::handlers::errors::ErrorReply {
            status: 400,
            body: ApiError { error: self.to_string() },
            log_context: None,
        }
    }
}

/// Builds a validation error from two texts.
pub fn validation_error(field: &str, message: &str) -> (e: ValidationError)
    ensures
        e.field@ == field@,
        e.message@ == message@,
{
    ValidationError { field: String::from_str(field), message: String::from_str(message) }
}

} // verus!
