use cursus::dto::workflow_task_edge::{WorkflowTaskEdgeResponse, WorkflowTaskEdgeRow};
use cursus::dtos::workflow::{WorkflowResponse, WorkflowRow};
use cursus::ids::{parse_uuid, uuid_to_text};
use cursus::timestamps::{rfc3339, UtcTimestamp};

const ID: u128 = 0x936da01f9abd4d9d80c702af85c822a8;

fn at(secs: i64, nanos: u32) -> UtcTimestamp {
    UtcTimestamp { secs, nanos }
}

#[test]
fn ids_render_hyphenated_and_lower_case() {
    assert_eq!(uuid_to_text(ID), "936da01f-9abd-4d9d-80c7-02af85c822a8");
    assert_eq!(uuid_to_text(0), "00000000-0000-0000-0000-000000000000");
    assert_eq!(parse_uuid("936DA01F-9ABD-4D9D-80C7-02AF85C822A8"), Some(ID));
    assert_eq!(parse_uuid(&uuid_to_text(ID)), Some(ID));
    assert_eq!(parse_uuid(""), None);
}

#[test]
fn instants_render_as_rfc3339() {
    assert_eq!(rfc3339(at(0, 0)), "1970-01-01T00:00:00+00:00");
    assert_eq!(rfc3339(at(1_717_243_200, 500_000_000)), "2024-06-01T12:00:00.500+00:00");
}

#[test]
fn a_workflow_row_shows_as_a_response() {
    let row = WorkflowRow {
        id: ID,
        name: "nightly".to_string(),
        description: Some("d".to_string()),
        run_type: "scheduled".to_string(),
        schedule_time: Some(at(1_717_243_200, 0)),
        cron_expression: None,
        is_active: true,
        date_created: at(0, 0),
        date_updated: at(86_400, 0),
    };
    let r = WorkflowResponse::from_workflow_row(row);
    assert_eq!(
        r,
        WorkflowResponse {
            id: "936da01f-9abd-4d9d-80c7-02af85c822a8".to_string(),
            name: "nightly".to_string(),
            description: Some("d".to_string()),
            run_type: "scheduled".to_string(),
            schedule_time: Some("2024-06-01T12:00:00+00:00".to_string()),
            cron_expression: None,
            is_active: true,
            date_created: "1970-01-01T00:00:00+00:00".to_string(),
            date_updated: "1970-01-02T00:00:00+00:00".to_string(),
        }
    );
}

#[test]
fn an_edge_row_shows_as_a_response() {
    let row = WorkflowTaskEdgeRow {
        id: 1,
        workflow_id: 2,
        from_task_id: ID,
        to_task_id: u128::MAX,
        date_created: at(0, 0),
        date_updated: at(0, 0),
    };
    assert_eq!(
        WorkflowTaskEdgeResponse::from_workflow_task_edge_row(row),
        WorkflowTaskEdgeResponse {
            id: "00000000-0000-0000-0000-000000000001".to_string(),
            from_task_id: "936da01f-9abd-4d9d-80c7-02af85c822a8".to_string(),
            to_task_id: "ffffffff-ffff-ffff-ffff-ffffffffffff".to_string(),
        }
    );
}

#[test]
fn every_instant_chrono_holds_renders() {
    const MIN: i64 = -8_334_601_228_800;
    const MAX: i64 = 8_210_266_876_799;
    assert!(chrono::DateTime::from_timestamp(MIN, 0).is_some());
    assert!(chrono::DateTime::from_timestamp(MIN - 1, 0).is_none());
    assert!(chrono::DateTime::from_timestamp(MAX, 999_999_999).is_some());
    assert!(chrono::DateTime::from_timestamp(MAX + 1, 0).is_none());
    assert!(chrono::DateTime::from_timestamp(59, 1_500_000_000).is_some());
    assert!(chrono::DateTime::from_timestamp(58, 1_000_000_000).is_none());
    assert!(chrono::DateTime::from_timestamp(59, 2_000_000_000).is_none());
    assert_eq!(rfc3339(at(MIN, 0)), chrono::DateTime::from_timestamp(MIN, 0).unwrap().to_rfc3339());
    assert_eq!(rfc3339(at(MAX, 0)), chrono::DateTime::from_timestamp(MAX, 0).unwrap().to_rfc3339());
    assert_eq!(rfc3339(at(59, 1_500_000_000)), "1970-01-01T00:00:60.500+00:00");
}
