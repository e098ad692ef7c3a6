use cursus::json::{combine, JsonValue};
use cursus::middlewares::request_event::context_key;
use cursus::middlewares::request_event::{
    add_context, line_message, log_level, query_shape, request_id, set_user_id, LogLevel,
    RequestEventFields,
};

fn text(s: &str) -> JsonValue {
    JsonValue::String(s.to_string())
}

fn num(s: &str) -> JsonValue {
    JsonValue::Number(s.to_string())
}

fn obj(entries: Vec<(&str, JsonValue)>) -> JsonValue {
    JsonValue::Object(entries.into_iter().map(|(k, v)| (k.to_string(), v)).collect())
}

#[test]
fn objects_under_one_key_merge() {
    let mut slot = obj(vec![("cause", text("timeout"))]);
    combine(&mut slot, obj(vec![("retries", num("2"))]));
    assert_eq!(slot, obj(vec![("cause", text("timeout")), ("retries", num("2"))]));
}

#[test]
fn a_repeated_field_takes_the_later_value() {
    let mut slot = obj(vec![("status", text("running"))]);
    combine(&mut slot, obj(vec![("status", text("failed"))]));
    assert_eq!(slot, obj(vec![("status", text("failed"))]));
}

#[test]
fn non_objects_collect_rather_than_overwrite() {
    let mut slot = text("first");
    combine(&mut slot, text("second"));
    combine(&mut slot, text("third"));
    assert_eq!(slot, JsonValue::Array(vec![text("first"), text("second"), text("third")]));
}

#[test]
fn query_shape_keeps_keys_and_drops_values() {
    assert_eq!(query_shape("b=secret&a=1&b=other"), "a,b");
    assert_eq!(query_shape(""), "");
}

#[test]
fn query_shape_skips_empty_keys_and_bare_separators() {
    assert_eq!(query_shape("&&=x&c&b=&"), "b,c");
    assert_eq!(query_shape("=only-a-value"), "");
    assert_eq!(query_shape("a==b&a"), "a");
}

#[test]
fn query_shape_sorts_by_code_point() {
    assert_eq!(query_shape("\u{e9}=1&z=2&B=3&a=4"), "B,a,z,\u{e9}");
    assert_eq!(query_shape("ab=1&a=2&abc=3"), "a,ab,abc");
}

#[test]
fn an_object_meeting_a_scalar_collects_into_an_array() {
    let mut slot = obj(vec![("k", JsonValue::Bool(true))]);
    combine(&mut slot, JsonValue::Null);
    assert_eq!(
        slot,
        JsonValue::Array(vec![obj(vec![("k", JsonValue::Bool(true))]), JsonValue::Null])
    );
}

#[test]
fn an_array_collects_an_object() {
    let mut slot = JsonValue::Array(vec![num("1")]);
    combine(&mut slot, obj(vec![("x", num("2"))]));
    assert_eq!(slot, JsonValue::Array(vec![num("1"), obj(vec![("x", num("2"))])]));
}

fn fields(inbound: Option<&str>) -> RequestEventFields {
    RequestEventFields::extract(
        inbound.map(|s| s.to_string()),
        "GET".to_string(),
        None,
        "/api/v1/tasks".to_string(),
        "page=2&sort=asc",
        Some("curl/8".to_string()),
        None,
    )
}

#[test]
fn an_inbound_request_id_is_kept() {
    let f = fields(Some("abc-123"));
    assert_eq!(f.request_id, "abc-123");
    assert_eq!(f.route, "/api/v1/tasks");
    assert_eq!(f.query_shape, "page,sort");
    assert_eq!(f.user_agent, "curl/8");
    assert_eq!(f.remote_addr, "");
    assert_eq!(f.user_id, None);
    assert!(f.context.is_empty());
}

#[test]
fn a_missing_or_empty_request_id_is_generated() {
    for f in [fields(None), fields(Some(""))] {
        assert_eq!(f.request_id.len(), 32);
        assert!(f.request_id.chars().all(|c| c.is_ascii_hexdigit() && !c.is_ascii_uppercase()));
        assert_eq!(f.request_id.as_bytes()[12], b'7');
    }
}

#[test]
fn the_route_pattern_wins_over_the_path() {
    let f = RequestEventFields::extract(
        None,
        "PATCH".to_string(),
        Some("/api/v1/tasks/{task_id}".to_string()),
        "/api/v1/tasks/42".to_string(),
        "",
        None,
        Some("10.0.0.1".to_string()),
    );
    assert_eq!(f.route, "/api/v1/tasks/{task_id}");
    assert_eq!(f.path, "/api/v1/tasks/42");
    assert_eq!(f.remote_addr, "10.0.0.1");
    assert_eq!(f.user_agent, "");
    assert_eq!(f.query_shape, "");
}

#[test]
fn context_under_one_key_merges_and_new_keys_are_added() {
    let mut f = fields(Some("r1"));
    add_context(&mut f, context_key::CONTEXT, obj(vec![("workflow_id", text("w1"))]));
    add_context(&mut f, context_key::CONTEXT, obj(vec![("steps", num("4"))]));
    add_context(&mut f, context_key::DB, num("3"));
    assert_eq!(f.context.len(), 2);
    assert_eq!(f.context[0].0, "context");
    assert_eq!(f.context[0].1, obj(vec![("workflow_id", text("w1")), ("steps", num("4"))]));
    assert_eq!(f.context[1], ("db".to_string(), num("3")));
}

#[test]
fn the_user_id_and_request_id_are_recorded() {
    let mut f = fields(Some("r2"));
    set_user_id(&mut f, "user-7");
    assert_eq!(f.user_id.as_deref(), Some("user-7"));
    assert_eq!(request_id(Some(&f)), Some("r2".to_string()));
    assert_eq!(request_id(None), None);
}

#[test]
fn the_level_follows_the_status_class() {
    assert_eq!(log_level(500), LogLevel::Error);
    assert_eq!(log_level(503), LogLevel::Error);
    assert_eq!(log_level(404), LogLevel::Warn);
    assert_eq!(log_level(401), LogLevel::Warn);
    assert_eq!(log_level(200), LogLevel::Info);
    assert_eq!(log_level(302), LogLevel::Info);
    assert_eq!(log_level(600), LogLevel::Info);
    assert_eq!(line_message(LogLevel::Error), "request failed");
    assert_eq!(line_message(LogLevel::Warn), "request rejected");
    assert_eq!(line_message(LogLevel::Info), "request completed");
}

#[test]
fn the_shape_ignores_order_repetition_and_values() {
    assert_eq!(query_shape("a=1&b=2"), query_shape("b=9&a=0&a=3"));
    assert_eq!(query_shape("a=1&b=2"), "a,b");
}
