pub mod error;
pub mod task;
pub mod workflow;
pub mod workflow_task;

use vstd::prelude::*;

use crate::dtos::error::ValidationError;

verus! {

/// A request body that checks its own fields before any work is done.
pub trait RequestValidateTrait {
    fn validate(&self) -> Result<(), ValidationError>;
}

} // verus!
