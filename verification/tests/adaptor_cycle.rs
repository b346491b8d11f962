use gateway::adaptor::AdaptorState;
use gateway::channel::{ChannelError, ChatMessage, ChatUser, Update};
use gateway::channel::send_outcome;
use gateway::task::TaskStatus;
use gateway::task::{result_key, task_key};
use gateway::registry::PendingRegistry;

fn msg(chat_id: i64, message_id: i64, text: &str) -> ChatMessage {
    ChatMessage {
        message_id,
        from: None,
        chat_id,
        chat_type: "private".to_string(),
        text: text.to_string(),
    }
}

fn upd(update_id: i64, message: Option<ChatMessage>) -> Update {
    Update { update_id, message }
}

#[test]
fn cursor_advances_to_max_plus_one() {
    let mut state = AdaptorState::new();
    let updates = vec![
        upd(5, Some(msg(1, 10, "alpha"))),
        upd(7, None),
        upd(9, Some(msg(2, 11, "beta"))),
    ];
    let plans = state.ingest_updates(true, updates).unwrap();
    assert_eq!(state.cursor, 10);
    assert_eq!(plans.len(), 2);
    assert_eq!(plans[0].record.input, "alpha");
    assert_eq!(plans[1].record.input, "beta");
    assert_eq!(state.pending_snapshot().len(), 2);
}

#[test]
fn rejected_poll_changes_nothing() {
    let mut state = AdaptorState::new();
    let updates = vec![upd(3, Some(msg(1, 1, "hi")))];
    let r = state.ingest_updates(false, updates);
    assert!(r.is_err());
    assert_eq!(state.cursor, 0);
    assert!(state.pending_snapshot().is_empty());
}

#[test]
fn empty_text_advances_cursor_without_task() {
    let mut state = AdaptorState::new();
    let updates = vec![upd(11, Some(msg(5, 2, "")))];
    let plans = state.ingest_updates(true, updates).unwrap();
    assert_eq!(state.cursor, 12);
    assert!(plans.is_empty());
    assert!(state.pending_snapshot().is_empty());
}

#[test]
fn missing_message_advances_cursor_without_task() {
    let mut state = AdaptorState::new();
    let plans = state.ingest_updates(true, vec![upd(4, None)]).unwrap();
    assert_eq!(state.cursor, 5);
    assert!(plans.is_empty());
}

#[test]
fn empty_batch_keeps_cursor() {
    let mut state = AdaptorState::new();
    let plans = state.ingest_updates(true, Vec::new()).unwrap();
    assert_eq!(state.cursor, 0);
    assert!(plans.is_empty());
}

#[test]
fn message_round_trip_creates_one_task() {
    let mut state = AdaptorState::new();
    let m = msg(42, 7, "hello");
    let plan = state.create_task(&m);
    assert_eq!(plan.record.input, "hello");
    assert_eq!(plan.record.config.chat_id, 42);
    assert_eq!(plan.record.config.message_id, 7);
    assert_eq!(plan.record.config.user_id, None);
    assert_eq!(plan.record.config.username, None);
    assert_eq!(plan.record.status.as_text(), "pending");
    assert!(!plan.record.created_at.is_empty());
    assert_eq!(plan.task_id.len(), 36);
    assert_eq!(plan.task_key, format!("task:{}", plan.task_id));
    assert_eq!(plan.queue_key, "agent:queue");
    let snapshot = state.pending_snapshot();
    assert_eq!(snapshot, vec![plan.task_id.clone()]);
    // The registered chat is the one the message came from.
    let fetched = Some("{\"result\": \"done\"}".to_string());
    let d = state.plan_delivery(&plan.task_id, &fetched).unwrap();
    assert_eq!(d.chat_id, 42);
}

#[test]
fn sender_metadata_is_carried() {
    let mut state = AdaptorState::new();
    let mut m = msg(8, 3, "question");
    m.from = Some(ChatUser {
        id: 9,
        first_name: "Ada".to_string(),
        last_name: "".to_string(),
        username: "ada_l".to_string(),
    });
    let plan = state.create_task(&m);
    assert_eq!(plan.record.config.user_id, Some(9));
    assert_eq!(plan.record.config.username, Some("ada_l".to_string()));
}

#[test]
fn empty_username_is_dropped() {
    let mut state = AdaptorState::new();
    let mut m = msg(8, 3, "question");
    m.from = Some(ChatUser {
        id: 9,
        first_name: "Ada".to_string(),
        last_name: "".to_string(),
        username: "".to_string(),
    });
    let plan = state.create_task(&m);
    assert_eq!(plan.record.config.user_id, Some(9));
    assert_eq!(plan.record.config.username, None);
}

#[test]
fn found_result_is_delivered_then_cleared() {
    let mut state = AdaptorState::new();
    let plan = state.create_task(&msg(42, 7, "hello"));
    let fetched = Some("{\"result\": \"done\"}".to_string());
    let d = state.plan_delivery(&plan.task_id, &fetched).unwrap();
    assert_eq!(d.chat_id, 42);
    assert_eq!(d.text, "done");
    assert_eq!(d.result_key, format!("result:{}", plan.task_id));
    let cleanup = state.confirm_delivery(&plan.task_id, true);
    assert!(cleanup);
    assert!(state.pending_snapshot().is_empty());
    assert!(state.plan_delivery(&plan.task_id, &fetched).is_none());
}

#[test]
fn failed_send_keeps_entry_for_retry() {
    let mut state = AdaptorState::new();
    let plan = state.create_task(&msg(42, 7, "hello"));
    let fetched = Some("{\"result\": \"done\"}".to_string());
    assert!(state.plan_delivery(&plan.task_id, &fetched).is_some());
    let cleanup = state.confirm_delivery(&plan.task_id, false);
    assert!(!cleanup);
    assert_eq!(state.pending_snapshot(), vec![plan.task_id.clone()]);
    // A later cycle retries the same delivery.
    let d = state.plan_delivery(&plan.task_id, &fetched).unwrap();
    assert_eq!(d.text, "done");
}

#[test]
fn reconcile_with_no_results_changes_nothing() {
    let mut state = AdaptorState::new();
    let a = state.create_task(&msg(1, 1, "one"));
    let b = state.create_task(&msg(2, 2, "two"));
    let before = {
        let mut v = state.pending_snapshot();
        v.sort();
        v
    };
    for id in state.pending_snapshot() {
        assert!(state.plan_delivery(&id, &None).is_none());
    }
    let after = {
        let mut v = state.pending_snapshot();
        v.sort();
        v
    };
    assert_eq!(before, after);
    assert!(after.contains(&a.task_id));
    assert!(after.contains(&b.task_id));
}

#[test]
fn result_without_string_field_is_not_delivered() {
    let mut state = AdaptorState::new();
    let plan = state.create_task(&msg(42, 7, "hello"));
    assert!(state.plan_delivery(&plan.task_id, &Some("{\"result\": 5}".to_string())).is_none());
    assert!(state.plan_delivery(&plan.task_id, &Some("{\"error\": \"x\"}".to_string())).is_none());
    assert!(state.plan_delivery(&plan.task_id, &Some("not json".to_string())).is_none());
    // The entry stays registered indefinitely.
    assert_eq!(state.pending_snapshot().len(), 1);
}

#[test]
fn unregistered_task_is_not_delivered() {
    let state = AdaptorState::new();
    let fetched = Some("{\"result\": \"done\"}".to_string());
    assert!(state.plan_delivery(&"nobody".to_string(), &fetched).is_none());
}

#[test]
fn send_outcome_follows_envelope() {
    assert!(send_outcome(true, None).is_ok());
    match send_outcome(false, Some("boom".to_string())) {
        Err(ChannelError::Rejected(Some(d))) => assert_eq!(d, "boom"),
        _ => panic!("expected a rejection with its description"),
    }
}

#[test]
fn registry_insert_get_remove() {
    let mut reg = PendingRegistry::new();
    reg.insert("a".to_string(), 10);
    reg.insert("b".to_string(), 20);
    assert_eq!(reg.get(&"a".to_string()), Some(10));
    assert_eq!(reg.get(&"b".to_string()), Some(20));
    assert!(reg.contains(&"a".to_string()));
    assert!(!reg.contains(&"c".to_string()));
    // Re-registering a task replaces its chat.
    reg.insert("a".to_string(), 30);
    assert_eq!(reg.get(&"a".to_string()), Some(30));
    let mut ids = reg.task_ids();
    ids.sort();
    assert_eq!(ids, vec!["a".to_string(), "b".to_string()]);
    assert!(reg.remove(&"a".to_string()));
    assert!(!reg.remove(&"a".to_string()));
    assert_eq!(reg.get(&"a".to_string()), None);
    assert_eq!(reg.task_ids(), vec!["b".to_string()]);
}

#[test]
fn status_words() {
    assert_eq!(TaskStatus::Pending.as_text(), "pending");
    assert_eq!(TaskStatus::Processing.as_text(), "processing");
    assert_eq!(TaskStatus::Completed.as_text(), "completed");
    assert_eq!(TaskStatus::Failed.as_text(), "failed");
}

#[test]
fn store_keys_are_prefixed_identifiers() {
    let id = "0123".to_string();
    assert_eq!(task_key(&id), "task:0123");
    assert_eq!(result_key(&id), "result:0123");
}

#[test]
fn polling_keeps_existing_registrations() {
    let mut state = AdaptorState::new();
    let first = state.create_task(&msg(1, 1, "first"));
    let updates = vec![upd(20, Some(msg(2, 2, "second")))];
    let plans = state.ingest_updates(true, updates).unwrap();
    assert_eq!(plans.len(), 1);
    let ids = state.pending_snapshot();
    assert_eq!(ids.len(), 2);
    assert!(ids.contains(&first.task_id));
    assert!(ids.contains(&plans[0].task_id));
}
