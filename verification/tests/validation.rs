use cursus::dto::user::{RequestValidateTrait as _, SignUpRequest};
use cursus::dto::workflow_task_edge::WorkflowTaskEdgeRequest;
use cursus::dto::RequestValidateTrait as _;
use cursus::dtos::error::ValidationError;
use cursus::dtos::workflow::{
    check_run_type_fields, CreateWorkflowRequest, EditWorkflowRequest, WorkflowRunType,
};
use cursus::dtos::workflow_task::{CreateWorkflowTaskRequest, EditWorkflowTaskRequest};
use cursus::dtos::RequestValidateTrait;

fn err(field: &str, message: &str) -> Result<(), ValidationError> {
    Err(ValidationError { field: field.to_string(), message: message.to_string() })
}

fn create(run_type: &str, schedule_time: Option<&str>, cron: Option<&str>) -> CreateWorkflowRequest {
    CreateWorkflowRequest {
        name: "nightly".to_string(),
        description: None,
        run_type: run_type.to_string(),
        schedule_time: schedule_time.map(str::to_string),
        cron_expression: cron.map(str::to_string),
    }
}

const BAD_RUN_TYPE: &str = "Invalid run_type, must be 'manual', 'scheduled', or 'cron'";

#[test]
fn run_types_read_and_write_their_names() {
    for (t, name) in [
        (WorkflowRunType::Manual, "manual"),
        (WorkflowRunType::Scheduled, "scheduled"),
        (WorkflowRunType::Cron, "cron"),
    ] {
        assert_eq!(t.to_string(), name);
        assert_eq!(WorkflowRunType::from_string(name), Some(t));
        assert_eq!(WorkflowRunType::from_string(&t.to_string()), Some(t));
    }
    assert_eq!(WorkflowRunType::from_string("Manual"), None);
    assert_eq!(WorkflowRunType::from_string(""), None);
    assert_eq!(WorkflowRunType::from_string("cron "), None);
}

#[test]
fn create_workflow_checks_the_run_type() {
    assert_eq!(create("manual", None, None).validate(), Ok(()));
    assert_eq!(create("weekly", None, None).validate(), err("run_type", BAD_RUN_TYPE));
    assert_eq!(
        create("scheduled", None, None).validate(),
        err("schedule_time", "schedule_time is required for scheduled run_type")
    );
    assert_eq!(
        create("cron", None, None).validate(),
        err("cron_expression", "cron_expression is required for cron run_type")
    );
}

#[test]
fn create_workflow_parses_the_schedule_fields() {
    assert_eq!(create("scheduled", Some("2024-06-01T12:00:00Z"), None).validate(), Ok(()));
    assert_eq!(create("scheduled", Some("2024-06-01T12:00:00+02:00"), None).validate(), Ok(()));
    assert_eq!(
        create("scheduled", Some("tomorrow"), None).validate(),
        err("schedule_time", "Invalid schedule_time format, must be ISO 8601")
    );
    assert_eq!(
        create("scheduled", Some("2024-06-01"), None).validate(),
        err("schedule_time", "Invalid schedule_time format, must be ISO 8601")
    );
    assert_eq!(create("cron", None, Some("0 30 9 * * Mon-Fri")).validate(), Ok(()));
    assert_eq!(
        create("cron", None, Some("every day")).validate(),
        err("cron_expression", "Invalid cron_expression format")
    );
    // A field the run type does not use is not parsed.
    assert_eq!(create("manual", Some("tomorrow"), Some("every day")).validate(), Ok(()));
    assert_eq!(create("cron", Some("tomorrow"), Some("0 0 * * * *")).validate(), Ok(()));
}

#[test]
fn the_checks_take_the_parse_outcomes_as_given() {
    let st = Some("x".to_string());
    let ce = Some("y".to_string());
    assert_eq!(check_run_type_fields("scheduled", &st, &ce, true, false), Ok(()));
    assert_eq!(
        check_run_type_fields("scheduled", &st, &ce, false, true),
        err("schedule_time", "Invalid schedule_time format, must be ISO 8601")
    );
    assert_eq!(
        check_run_type_fields("cron", &st, &ce, true, false),
        err("cron_expression", "Invalid cron_expression format")
    );
    assert_eq!(check_run_type_fields("manual", &None, &None, false, false), Ok(()));
    assert_eq!(check_run_type_fields("", &st, &ce, true, true), err("run_type", BAD_RUN_TYPE));
}

#[test]
fn edit_workflow_checks_only_a_new_run_type() {
    let mut edit = EditWorkflowRequest {
        name: Some("renamed".to_string()),
        description: None,
        is_active: Some(false),
        run_type: None,
        schedule_time: Some("garbage".to_string()),
        cron_expression: None,
    };
    assert_eq!(edit.validate(), Ok(()));
    edit.run_type = Some("scheduled".to_string());
    assert_eq!(
        edit.validate(),
        err("schedule_time", "Invalid schedule_time format, must be ISO 8601")
    );
    edit.run_type = Some("cron".to_string());
    assert_eq!(
        edit.validate(),
        err("cron_expression", "cron_expression is required for cron run_type")
    );
    edit.run_type = Some("hourly".to_string());
    assert_eq!(edit.validate(), err("run_type", BAD_RUN_TYPE));
}

fn step(step_name: &str, retry_count: Option<u32>, retry_delay_secs: Option<u32>) -> CreateWorkflowTaskRequest {
    CreateWorkflowTaskRequest {
        task_id: "t".to_string(),
        step_name: step_name.to_string(),
        task_body: None,
        task_result_schema: None,
        run_position: 0,
        retry_count,
        retry_delay_secs,
    }
}

const RETRY_FIELD: &str = "retry_count/retry_delay_secs";
const RETRY_MESSAGE: &str = "retry_count and retry_delay_secs must be both set or both null";

#[test]
fn a_step_name_is_one_word_and_retries_come_in_pairs() {
    assert_eq!(step("fetch_data", None, None).validate(), Ok(()));
    assert_eq!(step("fetch_data", Some(3), Some(10)).validate(), Ok(()));
    assert_eq!(
        step("fetch data", None, None).validate(),
        err(
            "step_name",
            "Step name cannot contain spaces. It should be a single word or use underscores."
        )
    );
    assert_eq!(step("fetch", Some(3), None).validate(), err(RETRY_FIELD, RETRY_MESSAGE));
    assert_eq!(step("fetch", None, Some(1)).validate(), err(RETRY_FIELD, RETRY_MESSAGE));
    let edit = EditWorkflowTaskRequest {
        step_name: Some("has space".to_string()),
        task_body: None,
        task_result_schema: None,
        run_position: None,
        retry_count: None,
        retry_delay_secs: Some(5),
    };
    assert_eq!(edit.validate(), err(RETRY_FIELD, RETRY_MESSAGE));
    let edit = EditWorkflowTaskRequest { retry_delay_secs: None, ..edit };
    assert_eq!(edit.validate(), Ok(()));
}

fn sign_up(username: &str, email: &str, password: &str) -> SignUpRequest {
    SignUpRequest {
        username: username.to_string(),
        email: email.to_string(),
        password: password.to_string(),
    }
}

#[test]
fn sign_up_checks_email_username_and_password() {
    assert_eq!(sign_up("ada", "ada@example.com", "correcthorse").validate(), Ok(()));
    assert_eq!(
        sign_up("ada", "ada.example.com", "correcthorse").validate(),
        err("email", "Invalid email format")
    );
    assert_eq!(
        sign_up("ada", "ada@example", "correcthorse").validate(),
        err("email", "Invalid email format")
    );
    assert_eq!(
        sign_up("ada", "a@b@c.com", "correcthorse").validate(),
        err("email", "Invalid email format")
    );
    assert_eq!(
        sign_up("al", "al@example.com", "correcthorse").validate(),
        err("username", "Username must be at least 3 characters long")
    );
    // Characters, not bytes.
    assert_eq!(sign_up("\u{e9}\u{e9}\u{e9}", "x@y.z", "12345678").validate(), Ok(()));
    assert_eq!(
        sign_up("ada", "ada@example.com", "short").validate(),
        err("password", "Password must be at least 8 characters long")
    );
    assert_eq!(
        sign_up("ada", "ada@example.com", "\u{e9}\u{e9}\u{e9}\u{e9}").validate(),
        err("password", "Password must be at least 8 characters long")
    );
}

#[test]
fn an_edge_cannot_join_a_step_to_itself() {
    let same = WorkflowTaskEdgeRequest { from_task_id: "s1".to_string(), to_task_id: "s1".to_string() };
    assert_eq!(
        same.validate(),
        err("from_task_id/to_task_id", "from_task_id and to_task_id cannot be the same")
    );
    let other = WorkflowTaskEdgeRequest { from_task_id: "s1".to_string(), to_task_id: "s2".to_string() };
    assert_eq!(other.validate(), Ok(()));
}
