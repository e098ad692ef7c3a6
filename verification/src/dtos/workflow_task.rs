//! Steps: a task placed into a workflow.
use vstd::prelude::*;

use crate::dtos::RequestValidateTrait;
use crate::dtos::error::{ValidationError, validation_error};
use crate::dtos::task::{TaskBody, TaskResultSchema};
use crate::text::contains_char;

verus! {

pub struct CreateWorkflowTaskRequest {
    pub task_id: String,
    pub step_name: String,
    pub task_body: Option<TaskBody>,
    pub task_result_schema: Option<TaskResultSchema>,
    pub run_position: u32,
    pub retry_count: Option<u32>,
    pub retry_delay_secs: Option<u32>,
}

/// The retry settings come as a pair: both set or both absent.
pub open spec fn retry_pair_ok(retry_count: Option<u32>, retry_delay_secs: Option<u32>) -> bool {
    (retry_count is Some) == (retry_delay_secs is Some)
}

/// The error for a retry pair with one half missing.
pub open spec fn is_retry_pair_error(e: ValidationError) -> bool {
    &&& e.field@ == "retry_count/retry_delay_secs"@
    &&& e.message@ == "retry_count and retry_delay_secs must be both set or both null"@
}

/// The retry pair is accepted exactly when both halves are set or both are
/// absent, whatever the values set; so two pairs with the same halves
/// present get the same answer.
pub proof fn law_retry_pair_depends_only_on_presence(
    count1: Option<u32>,
    delay1: Option<u32>,
    count2: Option<u32>,
    delay2: Option<u32>,
)
    ensures
        retry_pair_ok(count1, delay1) <==> ((count1 is Some && delay1 is Some) || (count1 is None
            && delay1 is None)),
        (count1 is Some) == (count2 is Some) && (delay1 is Some) == (delay2 is Some) ==> retry_pair_ok(
            count1,
            delay1,
        ) == retry_pair_ok(count2, delay2),
{
}

fn check_retry_pair(retry_count: Option<u32>, retry_delay_secs: Option<u32>) -> (r: Result<
    (),
    ValidationError,
>)
    ensures
        retry_pair_ok(retry_count, retry_delay_secs) ==> r is Ok,
        !retry_pair_ok(retry_count, retry_delay_secs) ==> (r matches Err(e) && is_retry_pair_error(e)),
{
    if !(retry_count.is_some() == retry_delay_secs.is_some()) {
        return Err(
            validation_error(
                "retry_count/retry_delay_secs",
                "retry_count and retry_delay_secs must be both set or both null",
            ),
        );
    }
    Ok(())
}

impl RequestValidateTrait for CreateWorkflowTaskRequest {
    /// A step name is a single word (no spaces), and the retry settings come
    /// as a pair.
    fn validate(&self) -> (r: Result<(), ValidationError>)
        ensures
            self.step_name@.contains(' ') ==> (r matches Err(e) && e.field@ == "step_name"@
                && e.message@
                == "Step name cannot contain spaces. It should be a single word or use underscores."@),
            !self.step_name@.contains(' ') && !retry_pair_ok(self.retry_count, self.retry_delay_secs)
                ==> (r matches Err(e) && is_retry_pair_error(e)),
            !self.step_name@.contains(' ') && retry_pair_ok(self.retry_count, self.retry_delay_secs)
                ==> r is Ok,
    {
        if contains_char(self.step_name.as_str(), ' ') {
            return Err(
                validation_error(
                    "step_name",
                    "Step name cannot contain spaces. It should be a single word or use underscores.",
                ),
            );
        }
        check_retry_pair(self.retry_count, self.retry_delay_secs)
    }
}

pub struct EditWorkflowTaskRequest {
    pub step_name: Option<String>,
    pub task_body: Option<TaskBody>,
    pub task_result_schema: Option<TaskResultSchema>,
    pub run_position: Option<u32>,
    pub retry_count: Option<u32>,
    pub retry_delay_secs: Option<u32>,
}

impl RequestValidateTrait for EditWorkflowTaskRequest {
    /// The retry settings come as a pair. The step name is not checked on an
    /// edit.
    fn validate(&self) -> (r: Result<(), ValidationError>)
        ensures
            retry_pair_ok(self.retry_count, self.retry_delay_secs) ==> r is Ok,
            !retry_pair_ok(self.retry_count, self.retry_delay_secs) ==> (r matches Err(e)
                && is_retry_pair_error(e)),
    {
        check_retry_pair(self.retry_count, self.retry_delay_secs)
    }
}

#[derive(Debug, PartialEq, Eq)]
pub struct DeleteWorkflowTaskResponse {
    pub message: String,
}

} // verus!
