//! Task bodies and result schemas, and the response to a deleted task.
use vstd::prelude::*;

use crate::json::JsonValue;

verus! {

/// The JSON schema a task's result is checked against.
#[derive(Debug, PartialEq)]
pub struct TaskResultSchema {
    pub data: JsonValue,
}

/// The JSON body sent to a task's endpoint.
#[derive(Debug, PartialEq)]
pub struct TaskBody {
    pub data: JsonValue,
}

#[derive(Debug, PartialEq, Eq)]
pub struct DeleteTaskResponse {
    pub message: String,
}

} // verus!
