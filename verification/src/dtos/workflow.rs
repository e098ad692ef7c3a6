//! Workflows: how they may be run, what a request to create or edit one must
//! hold, and what a response shows of one.
use vstd::prelude::*;

use crate::dtos::RequestValidateTrait;
use crate::dtos::error::{ValidationError, validation_error};
use crate::ids::{uuid_text, uuid_to_text};
use crate::schedule::{
    cron_expression_parses, parses_as_cron_schedule, parses_as_timestamp, timestamp_parses,
};
use crate::text::text_eq;
use crate::timestamps::{UtcTimestamp, renderable, rfc3339, rfc3339_text};

verus! {

#[derive(Debug, Clone, Copy, PartialEq, Eq)]
pub enum WorkflowRunType {
    Manual,
    Scheduled,
    Cron,
}

/// The name of a run type.
pub open spec fn run_type_text(t: WorkflowRunType) -> Seq<char> {
    match t {
        WorkflowRunType::Manual => "manual"@,
        WorkflowRunType::Scheduled => "scheduled"@,
        WorkflowRunType::Cron => "cron"@,
    }
}

/// The run type a name stands for, if any.
pub open spec fn run_type_named(s: Seq<char>) -> Option<WorkflowRunType> {
    if s == "manual"@ {
        Some(WorkflowRunType::Manual)
    } else if s == "scheduled"@ {
        Some(WorkflowRunType::Scheduled)
    } else if s == "cron"@ {
        Some(WorkflowRunType::Cron)
    } else {
        None
    }
}

impl WorkflowRunType {
    pub fn from_string(s: &str) -> (r: Option<WorkflowRunType>)
        ensures
            r == run_type_named(s@),
    {
        if text_eq(s, "manual") {
            Some(WorkflowRunType::Manual)
        } else if text_eq(s, "scheduled") {
            Some(WorkflowRunType::Scheduled)
        } else if text_eq(s, "cron") {
            Some(WorkflowRunType::Cron)
        } else {
            None
        }
    }

    pub fn to_string(&self) -> (s: String)
        ensures
            s@ == run_type_text(*self),
    {
        match self {
            WorkflowRunType::Manual => String::from_str("manual"),
            WorkflowRunType::Scheduled => String::from_str("scheduled"),
            WorkflowRunType::Cron => String::from_str("cron"),
        }
    }
}

/// A run type's name reads back as that run type, and a name that reads as a
/// run type is that run type's name.
pub proof fn law_run_type_names_round_trip(t: WorkflowRunType, s: Seq<char>)
    ensures
        run_type_named(run_type_text(t)) == Some(t),
        run_type_named(s) == Some(t) ==> run_type_text(t) == s,
{
    reveal_strlit("manual");
    reveal_strlit("scheduled");
    reveal_strlit("cron");
    assert("manual"@.len() == 6);
    assert("scheduled"@.len() == 9);
    assert("cron"@.len() == 4);
    assert("manual"@ != "scheduled"@);
    assert("manual"@ != "cron"@);
    assert("scheduled"@ != "cron"@);
}

// ---------------------------------------------------------------------------
// Run type and schedule fields
// ---------------------------------------------------------------------------

/// What the run type fields of a request break, as the field and the message,
/// or `None` when they are fine. `schedule_time_ok` and `cron_expression_ok`
/// say whether the schedule time and the cron expression parse; they count
/// only for the run type that uses them.
pub open spec fn run_type_verdict(
    run_type: Seq<char>,
    schedule_time: Option<String>,
    cron_expression: Option<String>,
    schedule_time_ok: bool,
    cron_expression_ok: bool,
) -> Option<(Seq<char>, Seq<char>)> {
    if run_type_named(run_type) is None {
        Some(("run_type"@, "Invalid run_type, must be 'manual', 'scheduled', or 'cron'"@))
    } else if run_type == "scheduled"@ && schedule_time is None {
        Some(("schedule_time"@, "schedule_time is required for scheduled run_type"@))
    } else if run_type == "cron"@ && cron_expression is None {
        Some(("cron_expression"@, "cron_expression is required for cron run_type"@))
    } else if run_type == "scheduled"@ && !schedule_time_ok {
        Some(("schedule_time"@, "Invalid schedule_time format, must be ISO 8601"@))
    } else if run_type == "cron"@ && !cron_expression_ok {
        Some(("cron_expression"@, "Invalid cron_expression format"@))
    } else {
        None
    }
}

/// A workflow's run type fields pass only when the run type is one of the
/// three, a scheduled workflow has a schedule time that parses, and a cron
/// workflow has a cron expression that parses.
pub proof fn law_accepted_run_types_carry_their_schedule(
    run_type: Seq<char>,
    schedule_time: Option<String>,
    cron_expression: Option<String>,
    schedule_time_ok: bool,
    cron_expression_ok: bool,
)
    requires
        run_type_verdict(run_type, schedule_time, cron_expression, schedule_time_ok, cron_expression_ok) is None,
    ensures
        run_type_named(run_type) is Some,
        run_type == "scheduled"@ ==> schedule_time is Some && schedule_time_ok,
        run_type == "cron"@ ==> cron_expression is Some && cron_expression_ok,
{
}

/// The run type fields pass exactly when the run type is `manual`, or
/// `scheduled` with a schedule time that parses, or `cron` with a cron
/// expression that parses. Nothing else about the schedule time or the cron
/// expression counts, and a field the run type does not use is never looked
/// at. A refusal names the field at fault: `run_type` for an unknown run
/// type, otherwise the field that run type needs.
pub proof fn law_run_type_fields_pass_exactly_when_the_schedule_reads(
    run_type: Seq<char>,
    schedule_time: Option<String>,
    cron_expression: Option<String>,
    schedule_time_ok: bool,
    cron_expression_ok: bool,
)
    ensures
        run_type_verdict(run_type, schedule_time, cron_expression, schedule_time_ok, cron_expression_ok) is None
            <==> (run_type == "manual"@
            || (run_type == "scheduled"@ && schedule_time is Some && schedule_time_ok)
            || (run_type == "cron"@ && cron_expression is Some && cron_expression_ok)),
        ({
            let v = run_type_verdict(run_type, schedule_time, cron_expression, schedule_time_ok, cron_expression_ok);
            v is Some ==> (v.unwrap().0 == "run_type"@ && run_type_named(run_type) is None)
                || (v.unwrap().0 == "schedule_time"@ && run_type == "scheduled"@)
                || (v.unwrap().0 == "cron_expression"@ && run_type == "cron"@)
        }),
{
    reveal_strlit("manual");
    reveal_strlit("scheduled");
    reveal_strlit("cron");
    assert("manual"@.len() == 6);
    assert("scheduled"@.len() == 9);
    assert("cron"@.len() == 4);
    assert("manual"@ != "scheduled"@);
    assert("manual"@ != "cron"@);
    assert("scheduled"@ != "cron"@);
}

/// A refusal says what is wrong: an unknown run type is named as such, a
/// missing schedule field is reported as required, and one that is there but
/// does not read is reported as badly formatted.
pub proof fn law_run_type_refusals_say_what_is_wrong(
    run_type: Seq<char>,
    schedule_time: Option<String>,
    cron_expression: Option<String>,
    schedule_time_ok: bool,
    cron_expression_ok: bool,
)
    ensures
        ({
            let v = run_type_verdict(run_type, schedule_time, cron_expression, schedule_time_ok, cron_expression_ok);
            &&& !(run_type == "manual"@ || run_type == "scheduled"@ || run_type == "cron"@) ==> v == Some(
                ("run_type"@, "Invalid run_type, must be 'manual', 'scheduled', or 'cron'"@),
            )
            &&& run_type == "scheduled"@ && schedule_time is None ==> v == Some(
                ("schedule_time"@, "schedule_time is required for scheduled run_type"@),
            )
            &&& run_type == "scheduled"@ && schedule_time is Some && !schedule_time_ok ==> v == Some(
                ("schedule_time"@, "Invalid schedule_time format, must be ISO 8601"@),
            )
            &&& run_type == "cron"@ && cron_expression is None ==> v == Some(
                ("cron_expression"@, "cron_expression is required for cron run_type"@),
            )
            &&& run_type == "cron"@ && cron_expression is Some && !cron_expression_ok ==> v == Some(
                ("cron_expression"@, "Invalid cron_expression format"@),
            )
        }),
{
    reveal_strlit("manual");
    reveal_strlit("scheduled");
    reveal_strlit("cron");
    assert("manual"@.len() == 6);
    assert("scheduled"@.len() == 9);
    assert("cron"@.len() == 4);
    assert("manual"@ != "scheduled"@);
    assert("manual"@ != "cron"@);
    assert("scheduled"@ != "cron"@);
}

/// The fields a run type does not use do not count: a manual workflow's
/// verdict is the same whatever its schedule time and cron expression hold,
/// a scheduled one's whatever its cron expression holds, a cron one's
/// whatever its schedule time holds.
pub proof fn law_unused_schedule_fields_do_not_count(
    run_type: Seq<char>,
    schedule_time1: Option<String>,
    cron_expression1: Option<String>,
    schedule_time_ok1: bool,
    cron_expression_ok1: bool,
    schedule_time2: Option<String>,
    cron_expression2: Option<String>,
    schedule_time_ok2: bool,
    cron_expression_ok2: bool,
)
    ensures
        run_type == "manual"@ ==> run_type_verdict(run_type, schedule_time1, cron_expression1, schedule_time_ok1, cron_expression_ok1)
            == run_type_verdict(run_type, schedule_time2, cron_expression2, schedule_time_ok2, cron_expression_ok2),
        run_type == "scheduled"@ ==> run_type_verdict(run_type, schedule_time1, cron_expression1, schedule_time_ok1, cron_expression_ok1)
            == run_type_verdict(run_type, schedule_time1, cron_expression2, schedule_time_ok1, cron_expression_ok2),
        run_type == "cron"@ ==> run_type_verdict(run_type, schedule_time1, cron_expression1, schedule_time_ok1, cron_expression_ok1)
            == run_type_verdict(run_type, schedule_time2, cron_expression1, schedule_time_ok2, cron_expression_ok1),
{
    reveal_strlit("manual");
    reveal_strlit("scheduled");
    reveal_strlit("cron");
    assert("manual"@.len() == 6);
    assert("scheduled"@.len() == 9);
    assert("cron"@.len() == 4);
    assert("manual"@ != "scheduled"@);
    assert("manual"@ != "cron"@);
    assert("scheduled"@ != "cron"@);
}

/// `r` is what a validation with verdict `v` returns.
pub open spec fn matches_verdict(
    r: Result<(), ValidationError>,
    v: Option<(Seq<char>, Seq<char>)>,
) -> bool {
    match v {
        None => r is Ok,
        Some(fm) => r matches Err(e) && e.field@ == fm.0 && e.message@ == fm.1,
    }
}

/// Whether the optional schedule time reads as a timestamp (absent counts
/// as fine).
pub open spec fn schedule_time_reads(schedule_time: Option<String>) -> bool {
    match schedule_time {
        Some(s) => parses_as_timestamp(s@),
        None => true,
    }
}

/// Whether the optional cron expression reads as a schedule (absent counts
/// as fine).
pub open spec fn cron_expression_reads(cron_expression: Option<String>) -> bool {
    match cron_expression {
        Some(s) => parses_as_cron_schedule(s@),
        None => true,
    }
}

/// Checks the run type fields given whether the schedule time and the cron
/// expression parse.
pub fn check_run_type_fields(
    run_type: &str,
    schedule_time: &Option<String>,
    cron_expression: &Option<String>,
    schedule_time_ok: bool,
    cron_expression_ok: bool,
) -> (r: Result<(), ValidationError>)
    ensures
        matches_verdict(
            r,
            run_type_verdict(
                run_type@,
                *schedule_time,
                *cron_expression,
                schedule_time_ok,
                cron_expression_ok,
            ),
        ),
{
    if WorkflowRunType::from_string(run_type).is_none() {
        return Err(
            validation_error(
                "run_type",
                "Invalid run_type, must be 'manual', 'scheduled', or 'cron'",
            ),
        );
    }
    let scheduled = text_eq(run_type, "scheduled");
    let cron = text_eq(run_type, "cron");
    if scheduled && schedule_time.is_none() {
        return Err(
            validation_error("schedule_time", "schedule_time is required for scheduled run_type"),
        );
    }
    if cron && cron_expression.is_none() {
        return Err(
            validation_error(
                "cron_expression",
                "cron_expression is required for cron run_type",
            ),
        );
    }
    if scheduled && !schedule_time_ok {
        return Err(
            validation_error("schedule_time", "Invalid schedule_time format, must be ISO 8601"),
        );
    }
    if cron && !cron_expression_ok {
        return Err(validation_error("cron_expression", "Invalid cron_expression format"));
    }
    Ok(())
}

/// Checks the run type fields, parsing the schedule time with `jiff` and the
/// cron expression with `cron` where the run type uses them.
pub fn validate_run_type_fields(
    run_type: &str,
    schedule_time: &Option<String>,
    cron_expression: &Option<String>,
) -> (r: Result<(), ValidationError>)
    ensures
        matches_verdict(
            r,
            run_type_verdict(
                run_type@,
                *schedule_time,
                *cron_expression,
                schedule_time_reads(*schedule_time),
                cron_expression_reads(*cron_expression),
            ),
        ),
{
    let scheduled = text_eq(run_type, "scheduled");
    let cron = text_eq(run_type, "cron");
    let schedule_time_ok = match schedule_time {
        Some(s) => {
            if scheduled {
                timestamp_parses(s.as_str())
            } else {
                true
            }
        },
        None => true,
    };
    let cron_expression_ok = match cron_expression {
        Some(s) => {
            if cron {
                cron_expression_parses(s.as_str())
            } else {
                true
            }
        },
        None => true,
    };
    check_run_type_fields(run_type, schedule_time, cron_expression, schedule_time_ok, cron_expression_ok)
}

// ---------------------------------------------------------------------------
// Requests
// ---------------------------------------------------------------------------

pub struct CreateWorkflowRequest {
    pub name: String,
    pub description: Option<String>,
    pub run_type: String,
    pub schedule_time: Option<String>,
    pub cron_expression: Option<String>,
}

impl RequestValidateTrait for CreateWorkflowRequest {
    /// The run type must be manual, scheduled or cron; a scheduled workflow
    /// needs a schedule time that reads as an ISO 8601 timestamp, a cron
    /// workflow a cron expression that reads as a schedule.
    fn validate(&self) -> (r: Result<(), ValidationError>)
        ensures
            matches_verdict(
                r,
                run_type_verdict(
                    self.run_type@,
                    self.schedule_time,
                    self.cron_expression,
                    schedule_time_reads(self.schedule_time),
                    cron_expression_reads(self.cron_expression),
                ),
            ),
    {
        validate_run_type_fields(self.run_type.as_str(), &self.schedule_time, &self.cron_expression)
    }
}

pub struct EditWorkflowRequest {
    pub name: Option<String>,
    pub description: Option<String>,
    pub is_active: Option<bool>,
    pub run_type: Option<String>,
    pub schedule_time: Option<String>,
    pub cron_expression: Option<String>,
}

impl RequestValidateTrait for EditWorkflowRequest {
    /// An edit that leaves the run type alone is accepted; one that sets it is
    /// held to the same rules as a new workflow.
    fn validate(&self) -> (r: Result<(), ValidationError>)
        ensures
            match self.run_type {
                None => r is Ok,
                Some(rt) => matches_verdict(
                    r,
                    run_type_verdict(
                        rt@,
                        self.schedule_time,
                        self.cron_expression,
                        schedule_time_reads(self.schedule_time),
                        cron_expression_reads(self.cron_expression),
                    ),
                ),
            },
    {
        match &self.run_type {
            Some(rt) => validate_run_type_fields(
                rt.as_str(),
                &self.schedule_time,
                &self.cron_expression,
            ),
            None => Ok(()),
        }
    }
}

// ---------------------------------------------------------------------------
// Responses
// ---------------------------------------------------------------------------

/// A stored workflow, with its identifiers as 128-bit values.
pub struct WorkflowRow {
    pub id: u128,
    pub name: String,
    pub description: Option<String>,
    pub run_type: String,
    pub schedule_time: Option<UtcTimestamp>,
    pub cron_expression: Option<String>,
    pub is_active: bool,
    pub date_created: UtcTimestamp,
    pub date_updated: UtcTimestamp,
}

impl WorkflowRow {
    /// Every instant of the row can be rendered.
    pub open spec fn renderable(self) -> bool {
        &&& renderable(self.date_created)
        &&& renderable(self.date_updated)
        &&& (self.schedule_time matches Some(t) ==> renderable(t))
    }
}

#[derive(Debug, PartialEq, Eq)]
pub struct WorkflowResponse {
    pub id: String,
    pub name: String,
    pub description: Option<String>,
    pub run_type: String,
    pub schedule_time: Option<String>,
    pub cron_expression: Option<String>,
    pub is_active: bool,
    pub date_created: String,
    pub date_updated: String,
}

impl WorkflowResponse {
    /// Shows a stored workflow: its id as hyphenated text, its instants in
    /// RFC 3339, everything else as stored.
    pub fn from_workflow_row(workflow_row: WorkflowRow) -> (r: WorkflowResponse)
        requires
            workflow_row.renderable(),
        ensures
            r.id@ == uuid_text(workflow_row.id),
            r.name == workflow_row.name,
            r.description == workflow_row.description,
            r.run_type == workflow_row.run_type,
            match workflow_row.schedule_time {
                Some(t) => r.schedule_time matches Some(s) && s@ == rfc3339_text(t.secs, t.nanos),
                None => r.schedule_time is None,
            },
            r.cron_expression == workflow_row.cron_expression,
            r.is_active == workflow_row.is_active,
            r.date_created@ == rfc3339_text(
                workflow_row.date_created.secs,
                workflow_row.date_created.nanos,
            ),
            r.date_updated@ == rfc3339_text(
                workflow_row.date_updated.secs,
                workflow_row.date_updated.nanos,
            ),
    {
        let schedule_time = match workflow_row.schedule_time {
            Some(t) => Some(rfc3339(t)),
            None => None,
        };
        WorkflowResponse {
            id: uuid_to_text(workflow_row.id),
            name: workflow_row.name,
            description: workflow_row.description,
            run_type: workflow_row.run_type,
            schedule_time,
            cron_expression: workflow_row.cron_expression,
            is_active: workflow_row.is_active,
            date_created: rfc3339(workflow_row.date_created),
            date_updated: rfc3339(workflow_row.date_updated),
        }
    }
}

#[derive(Debug, PartialEq, Eq)]
pub struct DeleteWorkflowResponse {
    pub message: String,
}

} // verus!
