use tomatic::stream::{validate_request, RequestError, StreamState};
use tomatic::types::{Message, MessageCost, ModelPricing, Role, Usage};

fn user_msg(text: &str) -> Message {
    Message {
        role: Role::User,
        content: String::from(text),
        prompt_name: None,
        model_name: None,
        cost: None,
    }
}

#[test]
fn first_delta_is_visible_immediately() {
    let mut messages = vec![user_msg("question")];
    let mut st = StreamState::begin(&mut messages, String::from("m1"), None, 1);
    assert_eq!(messages.len(), 2);
    assert_eq!(messages[1].content, "");
    st.on_delta(&mut messages, "Hello", 1000);
    assert_eq!(messages[1].content, "Hello");
}

#[test]
fn deltas_within_interval_are_buffered_and_flushed_later() {
    let mut messages = vec![user_msg("question")];
    let mut st = StreamState::begin(&mut messages, String::from("m1"), None, 1);
    st.on_delta(&mut messages, "a", 1000);
    assert_eq!(messages[1].content, "a");
    st.on_delta(&mut messages, "b", 1050);
    st.on_delta(&mut messages, "c", 1100);
    // Still within 200 ms of the last flush: nothing new is visible.
    assert_eq!(messages[1].content, "a");
    st.on_delta(&mut messages, "d", 1200);
    // A full interval elapsed: everything buffered becomes visible at once.
    assert_eq!(messages[1].content, "abcd");
    st.on_delta(&mut messages, "e", 1250);
    assert_eq!(messages[1].content, "abcd");
    st.finish(&mut messages);
    assert_eq!(messages[1].content, "abcde");
}

#[test]
fn finish_flushes_remaining_buffer() {
    let mut messages = vec![user_msg("q")];
    let mut st = StreamState::begin(&mut messages, String::from("m1"), None, 1);
    st.on_delta(&mut messages, "Hi", 10);
    st.on_delta(&mut messages, " there", 20);
    st.finish(&mut messages);
    assert_eq!(messages.len(), 2);
    assert_eq!(messages[1].content, "Hi there");
}

#[test]
fn cancel_discards_partial_content_entirely() {
    let mut messages = vec![user_msg("q")];
    let mut st = StreamState::begin(&mut messages, String::from("m1"), None, 1);
    st.on_delta(&mut messages, "partial ", 10);
    st.on_delta(&mut messages, "answer", 20);
    st.discard(&mut messages);
    // Not truncated: the assistant turn is gone altogether.
    assert_eq!(messages.len(), 1);
    assert_eq!(messages[0].content, "q");
}

#[test]
fn usage_flushes_buffer_before_recording_cost() {
    let mut messages = vec![user_msg("q")];
    let mut st = StreamState::begin(&mut messages, String::from("m1"), None, 1);
    st.on_delta(&mut messages, "Hi", 10);
    st.on_delta(&mut messages, " there", 20);
    // " there" is still buffered when the usage report arrives.
    assert_eq!(messages[1].content, "Hi");
    let pricing = ModelPricing {
        prompt_nano_usd_per_token: Some(2500),
        completion_nano_usd_per_token: Some(10000),
    };
    let usage = Usage { prompt_tokens: 10, completion_tokens: 5 };
    st.on_usage(&mut messages, &usage, &pricing);
    // Content and cost appear together; cost never precedes its text.
    assert_eq!(messages[1].content, "Hi there");
    assert_eq!(
        messages[1].cost,
        Some(MessageCost { prompt_nano_usd: 25000, completion_nano_usd: 50000 })
    );
}

#[test]
fn placeholder_carries_model_and_prompt_names() {
    let mut messages = vec![user_msg("q")];
    let _st = StreamState::begin(
        &mut messages,
        String::from("openai/gpt-4o"),
        Some(String::from("helper")),
        7,
    );
    let placeholder = &messages[1];
    assert!(matches!(placeholder.role, Role::Assistant));
    assert_eq!(placeholder.model_name, Some(String::from("openai/gpt-4o")));
    assert_eq!(placeholder.prompt_name, Some(String::from("helper")));
    assert_eq!(placeholder.cost, None);
}

#[test]
fn validate_request_accepts_complete_request() {
    let history = vec![user_msg("hello")];
    let key = String::from("SECRET-REDACTED");
    assert_eq!(validate_request(&history, &key), Ok(()));
}

#[test]
fn validate_request_rejects_missing_api_key_first() {
    let history: Vec<Message> = Vec::new();
    let key = String::new();
    assert_eq!(validate_request(&history, &key), Err(RequestError::MissingApiKey));
}

#[test]
fn validate_request_rejects_empty_history() {
    let history: Vec<Message> = Vec::new();
    let key = String::from("k");
    assert_eq!(validate_request(&history, &key), Err(RequestError::EmptyHistory));
}

#[test]
fn validate_request_rejects_history_not_ending_with_user_turn() {
    let mut history = vec![user_msg("hello")];
    history.push(Message {
        role: Role::Assistant,
        content: String::from("answer"),
        prompt_name: None,
        model_name: None,
        cost: None,
    });
    let key = String::from("k");
    assert_eq!(validate_request(&history, &key), Err(RequestError::NoUserTurn));
}
