use gateway::api::{lookup_response, validate_request, LookupOutcome, ValidationError};
use gateway::json::{deep_clone, merge_json, JsonField, JsonValue};

fn num(text: &str) -> JsonValue {
    JsonValue::Num(text.to_string())
}

fn txt(text: &str) -> JsonValue {
    JsonValue::Str(text.to_string())
}

fn obj(fields: Vec<(&str, JsonValue)>) -> JsonValue {
    JsonValue::Obj(
        fields
            .into_iter()
            .map(|(k, v)| JsonField { key: k.to_string(), value: v })
            .collect(),
    )
}

#[test]
fn merge_overrides_only_existing_keys() {
    let defaults = obj(vec![("a", num("1")), ("b", num("2"))]);
    let overrides = obj(vec![("b", num("3")), ("c", num("4"))]);
    let merged = merge_json(&defaults, &overrides);
    // "b" is overridden; "c" is not in the defaults and is dropped.
    assert_eq!(merged, obj(vec![("a", num("1")), ("b", num("3"))]));
}

#[test]
fn merge_recurses_into_nested_objects() {
    let defaults = obj(vec![
        ("o", obj(vec![("x", num("1")), ("y", num("2"))])),
        ("k", txt("keep")),
    ]);
    let overrides = obj(vec![("o", obj(vec![("y", num("9"))]))]);
    let merged = merge_json(&defaults, &overrides);
    assert_eq!(
        merged,
        obj(vec![
            ("o", obj(vec![("x", num("1")), ("y", num("9"))])),
            ("k", txt("keep")),
        ])
    );
}

#[test]
fn merge_replaces_when_shapes_differ() {
    let defaults = obj(vec![("o", obj(vec![("x", num("1"))]))]);
    let overrides = obj(vec![("o", num("7"))]);
    let merged = merge_json(&defaults, &overrides);
    assert_eq!(merged, obj(vec![("o", num("7"))]));
}

#[test]
fn merge_with_non_object_override_keeps_defaults() {
    let defaults = obj(vec![("a", num("1"))]);
    let merged = merge_json(&defaults, &num("5"));
    assert_eq!(merged, defaults);
}

#[test]
fn merge_with_non_object_defaults_keeps_defaults() {
    let defaults = txt("plain");
    let merged = merge_json(&defaults, &obj(vec![("a", num("1"))]));
    assert_eq!(merged, defaults);
}

#[test]
fn deep_clone_copies_everything() {
    let v = obj(vec![
        ("list", JsonValue::Arr(vec![JsonValue::Null, JsonValue::Bool(true), num("3")])),
        ("inner", obj(vec![("s", txt("deep"))])),
    ]);
    assert_eq!(deep_clone(&v), v);
}

#[test]
fn validation_rejects_empty_task_id() {
    match validate_request(&"".to_string(), &num("1")) {
        Err(e @ ValidationError::EmptyTaskId) => {
            assert_eq!(e.message(), "task_id cannot be empty");
        }
        _ => panic!("expected the empty-identifier rejection"),
    }
}

#[test]
fn validation_rejects_null_input() {
    match validate_request(&"t1".to_string(), &JsonValue::Null) {
        Err(e @ ValidationError::NullInput) => {
            assert_eq!(e.message(), "input cannot be null");
        }
        _ => panic!("expected the null-input rejection"),
    }
}

#[test]
fn validation_accepts_named_task_with_input() {
    assert!(validate_request(&"t1".to_string(), &txt("work")).is_ok());
}

#[test]
fn lookup_reports_completed_when_result_exists() {
    let task = Some("{\"status\": \"processing\"}".to_string());
    assert_eq!(lookup_response(true, &task), LookupOutcome::Completed);
    assert_eq!(lookup_response(true, &None), LookupOutcome::Completed);
}

#[test]
fn lookup_reports_task_status_without_result() {
    let task = Some("{\"status\": \"processing\"}".to_string());
    assert_eq!(
        lookup_response(false, &task),
        LookupOutcome::InProgress("processing".to_string())
    );
}

#[test]
fn lookup_falls_back_to_unknown_status() {
    let no_status = Some("{\"input\": \"x\"}".to_string());
    assert_eq!(
        lookup_response(false, &no_status),
        LookupOutcome::InProgress("unknown".to_string())
    );
    let unreadable = Some("not json".to_string());
    assert_eq!(
        lookup_response(false, &unreadable),
        LookupOutcome::InProgress("unknown".to_string())
    );
}

#[test]
fn lookup_reports_missing_task() {
    assert_eq!(lookup_response(false, &None), LookupOutcome::NotFound);
}
