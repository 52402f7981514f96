use ember::checkpoint::Checkpoint;
use ember::intent::{Intent, ParamMap};
use ember::json::JsonValue;
use ember::state::AgentState;
use ember::time::{TimeDelta, Timestamp};
use uuid::Uuid;

#[test]
fn test_intent_builder() {
    let intent = Intent::new("web.navigate")
        .with_param("url", JsonValue::Str("https://flights.google.com".to_string()))
        .with_description("Navigate to Google Flights")
        .with_expected_artifact("page_loaded");

    assert_eq!(intent.kind, "web.navigate");
    assert_eq!(intent.params.get("url"), Some(&JsonValue::Str("https://flights.google.com".to_string())));
    assert_eq!(intent.expected_artifacts, vec!["page_loaded"]);
}

#[test]
fn test_checkpoint_creation() {
    let task_id = Uuid::new_v4();
    let intent = Intent::new("web.navigate");
    let checkpoint = Checkpoint::new(task_id, AgentState::Planning, intent);

    assert_eq!(checkpoint.task_id, task_id);
    assert_eq!(checkpoint.state, AgentState::Planning);
    assert_eq!(checkpoint.steps_completed, 0);
}

#[test]
fn param_read_after_write_and_replace() {
    let mut params = ParamMap::new();
    assert_eq!(params.len(), 0);
    params.insert("a".to_string(), JsonValue::UInt(1));
    params.insert("b".to_string(), JsonValue::Bool(true));
    params.insert("a".to_string(), JsonValue::UInt(2));
    assert_eq!(params.len(), 2);
    assert_eq!(params.get("a"), Some(&JsonValue::UInt(2)));
    assert_eq!(params.get("b"), Some(&JsonValue::Bool(true)));
    assert_eq!(params.get("c"), None);
}

#[test]
fn intent_builder_keeps_other_parts() {
    let intent = Intent::new("web.click")
        .with_param("selector", JsonValue::Str("#search-btn".to_string()))
        .with_description("Click search button");
    assert_eq!(intent.kind, "web.click");
    assert_eq!(intent.description.as_deref(), Some("Click search button"));
    assert!(intent.expected_artifacts.is_empty());
    assert_eq!(intent.params.len(), 1);
}

#[test]
fn checkpoint_staleness_at_a_given_time() {
    let cp = Checkpoint::new(Uuid::new_v4(), AgentState::Planning, Intent::new("x"));
    let created = cp.created_at;
    let later = Timestamp { secs: created.secs + 10, nanos: created.nanos };
    assert!(cp.is_stale_at(&later, &TimeDelta { secs: 9, nanos: 999_999_999 }));
    assert!(!cp.is_stale_at(&later, &TimeDelta { secs: 10, nanos: 0 }));
    assert!(!cp.is_stale(&TimeDelta { secs: 3600, nanos: 0 }));
    assert!(cp.is_stale(&TimeDelta { secs: -1, nanos: 0 }));
    assert_ne!(cp.id, cp.task_id);
}
