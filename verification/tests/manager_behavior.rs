use tomatic::manager::{SessionManager, SubmitOutcome};
use tomatic::store::{SessionStore, SCHEMA_VERSION};
use tomatic::types::{MessageCost, ModelPricing, Role, Usage};
use tomatic::DEBOUNCE_MS;

fn api_key() -> String {
    String::from("SECRET-REDACTED")
}

fn pricing() -> ModelPricing {
    ModelPricing {
        prompt_nano_usd_per_token: Some(2500),
        completion_nano_usd_per_token: Some(10000),
    }
}

#[test]
fn empty_input_is_rejected_without_any_change() {
    let mut mgr = SessionManager::new();
    let outcome = mgr.submit(String::new(), &api_key(), 1000);
    assert_eq!(outcome, SubmitOutcome::EmptyInput);
    assert!(mgr.current_session_id.is_none());
    assert!(mgr.messages.is_empty());
    assert!(mgr.save_deadline_ms.is_none());
}

#[test]
fn submit_without_api_key_sets_error_and_starts_nothing() {
    let mut mgr = SessionManager::new();
    let outcome = mgr.submit(String::from("hello"), &String::new(), 1000);
    assert_eq!(outcome, SubmitOutcome::MissingApiKey);
    assert_eq!(mgr.messages.len(), 1);
    assert!(!mgr.busy);
    assert_eq!(
        mgr.error,
        Some(String::from("No API key provided. Please add one in Settings."))
    );
    // The session id was still minted lazily for the first message.
    assert_eq!(mgr.current_session_id.as_ref().unwrap().len(), 36);
}

#[test]
fn submit_mints_id_once_and_keeps_it() {
    let mut mgr = SessionManager::new();
    mgr.submit(String::from("one"), &api_key(), 1000);
    let first_id = mgr.current_session_id.clone().unwrap();
    assert_eq!(first_id.len(), 36);
    mgr.submit(String::from("two"), &api_key(), 2000);
    assert_eq!(mgr.current_session_id.as_ref().unwrap(), &first_id);
    assert_eq!(mgr.messages.len(), 2);
}

#[test]
fn end_to_end_submit_stream_and_persist() {
    let mut mgr = SessionManager::new();
    let mut store = SessionStore::new();
    store.open(SCHEMA_VERSION);

    // submit("Hello") on an Empty session: Active with a fresh id,
    // one user message; the placeholder arrives with the stream run.
    let outcome = mgr.submit(String::from("Hello"), &api_key(), 1_000);
    assert_eq!(outcome, SubmitOutcome::StreamStarted);
    let id = mgr.current_session_id.clone().unwrap();
    assert_eq!(id.len(), 36);
    assert!(mgr.busy);
    assert_eq!(mgr.error, None);

    let mut st = mgr.begin_stream(String::from("openai/gpt-4o"), 1_010);
    assert_eq!(mgr.messages.len(), 2);
    assert!(matches!(mgr.messages[0].role, Role::User));
    assert!(matches!(mgr.messages[1].role, Role::Assistant));

    mgr.stream_delta(&mut st, "Hi", 1_020);
    mgr.stream_delta(&mut st, " there", 1_030);
    let usage = Usage { prompt_tokens: 10, completion_tokens: 5 };
    mgr.stream_usage(&mut st, &usage, &pricing(), 1_040);
    mgr.stream_end(st, 1_050);

    assert!(!mgr.busy);
    assert_eq!(mgr.messages.len(), 2);
    assert_eq!(mgr.messages[1].content, "Hi there");
    assert_eq!(
        mgr.messages[1].cost,
        Some(MessageCost { prompt_nano_usd: 10 * 2500, completion_nano_usd: 5 * 10000 })
    );

    // Before the debounce window elapses nothing is written.
    assert!(!mgr.flush_save_if_due(&mut store, 1_060));
    assert!(store.get(&id).is_none());

    // After it elapses the store holds exactly one record, with both turns.
    assert!(mgr.flush_save_if_due(&mut store, 1_050 + DEBOUNCE_MS));
    let ids = store.list_ids_by_recency();
    assert_eq!(ids, vec![id.clone()]);
    let record = store.get(&id).unwrap();
    assert_eq!(record.messages.len(), 2);
    assert_eq!(record.messages[1].content, "Hi there");
}

#[test]
fn cancellation_is_not_an_error_and_discards_the_turn() {
    let mut mgr = SessionManager::new();
    mgr.submit(String::from("question"), &api_key(), 1_000);
    let mut st = mgr.begin_stream(String::from("m"), 1_010);
    mgr.stream_delta(&mut st, "partial", 1_020);
    mgr.cancel_stream(st, 1_030);
    assert_eq!(mgr.messages.len(), 1);
    assert!(matches!(mgr.messages[0].role, Role::User));
    assert_eq!(mgr.error, None);
    assert!(!mgr.busy);
}

#[test]
fn stream_failure_surfaces_error_and_discards_the_turn() {
    let mut mgr = SessionManager::new();
    mgr.submit(String::from("question"), &api_key(), 1_000);
    let mut st = mgr.begin_stream(String::from("m"), 1_010);
    mgr.stream_delta(&mut st, "partial", 1_020);
    mgr.stream_error(st, String::from("connection reset"), 1_030);
    assert_eq!(mgr.messages.len(), 1);
    assert_eq!(mgr.error, Some(String::from("connection reset")));
    assert!(!mgr.busy);
}

#[test]
fn stale_stream_events_cannot_touch_a_newly_loaded_session() {
    let mut store = SessionStore::new();
    store.open(SCHEMA_VERSION);

    // A finished session sits in the store.
    let mut other = SessionManager::new();
    other.submit(String::from("old question"), &api_key(), 1_000);
    let st = other.begin_stream(String::from("m"), 1_010);
    other.stream_end(st, 1_020);
    let other_id = other.current_session_id.clone().unwrap();
    assert!(other.flush_save_if_due(&mut store, 1_020 + DEBOUNCE_MS));

    // A new manager starts a stream, then loads the stored session while
    // the stream is still in flight.
    let mut mgr = SessionManager::new();
    mgr.submit(String::from("fresh question"), &api_key(), 5_000);
    let mut st = mgr.begin_stream(String::from("m"), 5_010);
    assert!(mgr.load_session(&store, &other_id));
    let loaded_len = mgr.messages.len();

    // The in-flight run is no longer current; its events are ignored.
    assert!(!mgr.stream_is_current(&st));
    mgr.stream_delta(&mut st, "must not appear", 5_020);
    mgr.stream_end(st, 5_030);
    assert_eq!(mgr.messages.len(), loaded_len);
    for m in &mgr.messages {
        assert_ne!(m.content, "must not appear");
    }
}

#[test]
fn debounced_writes_coalesce_into_one() {
    let mut mgr = SessionManager::new();
    let mut store = SessionStore::new();
    store.open(SCHEMA_VERSION);

    // Five rapid mutations within one debounce window.
    mgr.submit(String::from("m1"), &api_key(), 1_000);
    mgr.submit(String::from("m2"), &api_key(), 1_100);
    mgr.submit(String::from("m3"), &api_key(), 1_200);
    mgr.submit(String::from("m4"), &api_key(), 1_300);
    mgr.submit(String::from("m5"), &api_key(), 1_400);
    let id = mgr.current_session_id.clone().unwrap();

    // Flush attempts before the final deadline write nothing.
    assert!(!mgr.flush_save_if_due(&mut store, 1_500));
    assert!(!mgr.flush_save_if_due(&mut store, 1_400 + DEBOUNCE_MS - 1));
    assert!(store.get(&id).is_none());

    // Exactly one write happens, reflecting the fifth (final) state.
    assert!(mgr.flush_save_if_due(&mut store, 1_400 + DEBOUNCE_MS));
    let record = store.get(&id).unwrap();
    assert_eq!(record.messages.len(), 5);
    assert_eq!(record.messages[4].content, "m5");

    // The deadline is spent: no further write until the next mutation.
    assert!(!mgr.flush_save_if_due(&mut store, 1_400 + 2 * DEBOUNCE_MS));
    assert_eq!(store.list_ids_by_recency().len(), 1);
}

#[test]
fn created_at_is_preserved_and_updated_at_advances() {
    let mut mgr = SessionManager::new();
    let mut store = SessionStore::new();
    store.open(SCHEMA_VERSION);

    mgr.submit(String::from("first"), &api_key(), 1_000);
    let id = mgr.current_session_id.clone().unwrap();
    assert!(mgr.flush_save_if_due(&mut store, 1_000 + DEBOUNCE_MS));
    let first = store.get(&id).unwrap();
    assert_eq!(first.created_at_ms, 1_000 + DEBOUNCE_MS);
    assert_eq!(first.updated_at_ms, 1_000 + DEBOUNCE_MS);

    mgr.submit(String::from("second"), &api_key(), 9_000);
    assert!(mgr.flush_save_if_due(&mut store, 9_000 + DEBOUNCE_MS));
    let second = store.get(&id).unwrap();
    assert_eq!(second.created_at_ms, 1_000 + DEBOUNCE_MS);
    assert_eq!(second.updated_at_ms, 9_000 + DEBOUNCE_MS);
    assert_eq!(second.messages.len(), 2);
}

#[test]
fn session_with_zero_messages_is_never_written() {
    let mut mgr = SessionManager::new();
    let mut store = SessionStore::new();
    store.open(SCHEMA_VERSION);
    // No session, no messages: nothing to write even when a deadline is
    // forced by a mutation-free manager.
    assert!(!mgr.flush_save_if_due(&mut store, u64::MAX - DEBOUNCE_MS));
    assert_eq!(store.list_ids_by_recency().len(), 0);
}

#[test]
fn regenerate_truncates_and_restarts() {
    let mut mgr = SessionManager::new();
    mgr.submit(String::from("q1"), &api_key(), 1_000);
    let st = mgr.begin_stream(String::from("m"), 1_010);
    mgr.stream_end(st, 1_020);
    assert_eq!(mgr.messages.len(), 2);
    let outcome = mgr.regenerate(1, &api_key(), 2_000);
    assert_eq!(outcome, SubmitOutcome::StreamStarted);
    assert_eq!(mgr.messages.len(), 1);
    assert_eq!(mgr.messages[0].content, "q1");
    assert!(mgr.busy);
}

#[test]
fn load_session_restores_stored_state() {
    let mut store = SessionStore::new();
    store.open(SCHEMA_VERSION);
    let mut writer = SessionManager::new();
    writer.selected_prompt_name = Some(String::from("helper"));
    writer.submit(String::from("saved text"), &api_key(), 1_000);
    let id = writer.current_session_id.clone().unwrap();
    assert!(writer.flush_save_if_due(&mut store, 1_000 + DEBOUNCE_MS));

    let mut mgr = SessionManager::new();
    assert!(mgr.load_session(&store, &id));
    assert_eq!(mgr.current_session_id, Some(id));
    assert_eq!(mgr.messages.len(), 1);
    assert_eq!(mgr.messages[0].content, "saved text");
    assert_eq!(mgr.selected_prompt_name, Some(String::from("helper")));
    assert_eq!(mgr.error, None);
}

#[test]
fn load_absent_session_reports_not_found_and_goes_empty() {
    let mut store = SessionStore::new();
    store.open(SCHEMA_VERSION);
    let mut mgr = SessionManager::new();
    mgr.submit(String::from("something"), &api_key(), 1_000);
    let found = mgr.load_session(&store, &String::from("no-such-id"));
    assert!(!found);
    assert!(mgr.current_session_id.is_none());
    assert!(mgr.messages.is_empty());
    assert_eq!(mgr.error, Some(String::from("Session not found.")));
}

#[test]
fn load_current_session_is_a_no_op() {
    let mut store = SessionStore::new();
    store.open(SCHEMA_VERSION);
    let mut mgr = SessionManager::new();
    mgr.submit(String::from("text"), &api_key(), 1_000);
    let id = mgr.current_session_id.clone().unwrap();
    let gen_before = mgr.run_gen;
    // The id matches the in-memory session: no store read, no reset.
    assert!(mgr.load_session(&store, &id));
    assert_eq!(mgr.messages.len(), 1);
    assert_eq!(mgr.run_gen, gen_before);
}

#[test]
fn new_session_goes_empty_but_keeps_prompt_selection() {
    let mut mgr = SessionManager::new();
    mgr.selected_prompt_name = Some(String::from("helper"));
    mgr.submit(String::from("text"), &api_key(), 1_000);
    mgr.new_session();
    assert!(mgr.current_session_id.is_none());
    assert!(mgr.messages.is_empty());
    assert_eq!(mgr.selected_prompt_name, Some(String::from("helper")));
    assert_eq!(mgr.error, None);
    assert!(mgr.save_deadline_ms.is_none());
}

#[test]
fn navigation_moves_through_recency_order() {
    let ids = vec![String::from("new"), String::from("mid"), String::from("old")];
    let mut mgr = SessionManager::new();

    // Without a current session, prev enters the listing at the newest.
    assert_eq!(mgr.prev_session_id(&ids), Some(String::from("new")));
    assert_eq!(mgr.next_session_id(&ids), None);

    mgr.current_session_id = Some(String::from("mid"));
    assert_eq!(mgr.prev_session_id(&ids), Some(String::from("old")));
    assert_eq!(mgr.next_session_id(&ids), Some(String::from("new")));

    // Past either end navigation is a no-op.
    mgr.current_session_id = Some(String::from("old"));
    assert_eq!(mgr.prev_session_id(&ids), None);
    mgr.current_session_id = Some(String::from("new"));
    assert_eq!(mgr.next_session_id(&ids), None);

    // A current id absent from the listing behaves like none at all.
    mgr.current_session_id = Some(String::from("unlisted"));
    assert_eq!(mgr.prev_session_id(&ids), Some(String::from("new")));
    assert_eq!(mgr.next_session_id(&ids), None);

    let empty: Vec<String> = Vec::new();
    assert_eq!(mgr.prev_session_id(&empty), None);
}
