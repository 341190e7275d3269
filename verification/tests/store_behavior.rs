use tomatic::store::{ChatSession, SessionStore, SCHEMA_VERSION};
use tomatic::types::{Message, Role};

fn session(id: &str, text: &str, created: u64, updated: u64) -> ChatSession {
    ChatSession {
        session_id: String::from(id),
        messages: vec![Message {
            role: Role::User,
            content: String::from(text),
            prompt_name: None,
            model_name: None,
            cost: None,
        }],
        name: None,
        prompt_name: None,
        created_at_ms: created,
        updated_at_ms: updated,
    }
}

#[test]
fn put_then_get_returns_the_record() {
    let mut store = SessionStore::new();
    store.open(SCHEMA_VERSION);
    store.put(session("a", "hello", 1, 1));
    let got = store.get(&String::from("a")).unwrap();
    assert_eq!(got.session_id, "a");
    assert_eq!(got.messages.len(), 1);
    assert_eq!(got.messages[0].content, "hello");
    assert_eq!(got.created_at_ms, 1);
}

#[test]
fn get_absent_id_is_none_not_an_error() {
    let mut store = SessionStore::new();
    store.open(SCHEMA_VERSION);
    assert!(store.get(&String::from("missing")).is_none());
}

#[test]
fn put_is_idempotent_replace_by_id() {
    let mut store = SessionStore::new();
    store.open(SCHEMA_VERSION);
    store.put(session("a", "one", 1, 1));
    store.put(session("a", "two", 1, 2));
    let got = store.get(&String::from("a")).unwrap();
    assert_eq!(got.messages[0].content, "two");
    assert_eq!(store.list_ids_by_recency().len(), 1);
}

#[test]
fn list_ids_by_recency_orders_newest_first() {
    let mut store = SessionStore::new();
    store.open(SCHEMA_VERSION);
    store.put(session("s1", "x", 10, 10));
    store.put(session("s2", "x", 20, 20));
    store.put(session("s3", "x", 30, 30));
    assert_eq!(store.list_ids_by_recency(), vec![
        String::from("s3"),
        String::from("s2"),
        String::from("s1"),
    ]);
}

#[test]
fn resaving_oldest_with_newer_time_moves_it_first() {
    let mut store = SessionStore::new();
    store.open(SCHEMA_VERSION);
    store.put(session("s1", "x", 10, 10));
    store.put(session("s2", "x", 20, 20));
    store.put(session("s3", "x", 30, 30));
    store.put(session("s1", "x", 10, 40));
    assert_eq!(store.list_ids_by_recency(), vec![
        String::from("s1"),
        String::from("s3"),
        String::from("s2"),
    ]);
}

#[test]
fn equal_update_times_keep_write_order() {
    let mut store = SessionStore::new();
    store.open(SCHEMA_VERSION);
    store.put(session("a", "x", 5, 5));
    store.put(session("b", "x", 5, 5));
    store.put(session("c", "x", 5, 5));
    // Ties are broken deterministically, by write order.
    assert_eq!(store.list_ids_by_recency(), vec![
        String::from("a"),
        String::from("b"),
        String::from("c"),
    ]);
}

#[test]
fn open_is_idempotent_and_never_loses_records() {
    let mut store = SessionStore::new();
    store.open(SCHEMA_VERSION);
    store.put(session("a", "x", 1, 1));
    store.put(session("b", "x", 2, 2));
    for _ in 0..5 {
        store.open(SCHEMA_VERSION);
        assert!(store.get(&String::from("a")).is_some());
        assert!(store.get(&String::from("b")).is_some());
        assert_eq!(store.list_ids_by_recency().len(), 2);
    }
}

#[test]
fn open_across_schema_versions_preserves_records() {
    let mut store = SessionStore::new();
    store.open(SCHEMA_VERSION);
    store.put(session("a", "x", 1, 1));
    store.open(SCHEMA_VERSION + 1);
    assert_eq!(store.version(), SCHEMA_VERSION + 1);
    assert!(store.get(&String::from("a")).is_some());
    // Opening with an older target does not roll the version back.
    store.open(SCHEMA_VERSION);
    assert_eq!(store.version(), SCHEMA_VERSION + 1);
    assert!(store.get(&String::from("a")).is_some());
}

#[test]
fn open_builds_missing_index_from_legacy_records() {
    // Records written by a schema from before the recency index existed.
    let records = vec![
        session("old1", "x", 10, 10),
        session("old2", "x", 30, 30),
        session("old3", "x", 20, 20),
    ];
    let mut store = SessionStore::from_records(records);
    store.open(SCHEMA_VERSION);
    assert_eq!(store.list_ids_by_recency(), vec![
        String::from("old2"),
        String::from("old3"),
        String::from("old1"),
    ]);
    assert!(store.get(&String::from("old1")).is_some());
}

#[test]
fn delete_removes_record_and_index_entry() {
    let mut store = SessionStore::new();
    store.open(SCHEMA_VERSION);
    store.put(session("a", "x", 1, 1));
    store.put(session("b", "x", 2, 2));
    store.delete(&String::from("a"));
    assert!(store.get(&String::from("a")).is_none());
    assert_eq!(store.list_ids_by_recency(), vec![String::from("b")]);
}

#[test]
fn delete_absent_id_is_idempotent() {
    let mut store = SessionStore::new();
    store.open(SCHEMA_VERSION);
    store.put(session("a", "x", 1, 1));
    store.delete(&String::from("nope"));
    store.delete(&String::from("nope"));
    assert!(store.get(&String::from("a")).is_some());
    assert_eq!(store.list_ids_by_recency().len(), 1);
}
