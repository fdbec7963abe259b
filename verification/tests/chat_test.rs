use cleuly::chat::build_chat_prompt;
use cleuly::chat::prepare_chat_call;
use cleuly::chat::record_chat_exchange;
use cleuly::chat::render_context;
use cleuly::chat::CHAT_SYSTEM_PROMPT;
use cleuly::chat::DEFAULT_CONTEXT_WINDOW;
use cleuly::llm::LlmClient;
use cleuly::session::Message;
use cleuly::session::Session;
use cleuly::store::SessionStore;

fn client() -> LlmClient {
    LlmClient::new(Some("k".to_string()), None).unwrap()
}

#[test]
fn test_render_context_joins_lines() {
    let msgs = vec![
        Message::user("hi".to_string(), 1),
        Message::assistant("hello".to_string(), 2),
    ];
    assert_eq!(render_context(&msgs), "user: hi\nassistant: hello");
    let empty: Vec<Message> = Vec::new();
    assert_eq!(render_context(&empty), "");
}

#[test]
fn test_build_chat_prompt_without_history() {
    let s = Session::new(None, None, None, 0);
    let p = build_chat_prompt(&s, "first question", DEFAULT_CONTEXT_WINDOW);
    assert_eq!(p, "first question");
}

#[test]
fn test_build_chat_prompt_with_history() {
    let mut s = Session::new(None, None, None, 0);
    s.add_message(Message::user("hi".to_string(), 1), 1);
    s.add_message(Message::assistant("hello".to_string(), 2), 2);
    let p = build_chat_prompt(&s, "what now?", DEFAULT_CONTEXT_WINDOW);
    assert_eq!(
        p,
        "Previous conversation:\nuser: hi\nassistant: hello\n\nUser: what now?"
    );
}

#[test]
fn test_build_chat_prompt_window_bounds_history() {
    let mut s = Session::new(None, None, None, 0);
    for i in 0..4i64 {
        s.add_message(Message::user(format!("m{}", i), i), i);
    }
    let p = build_chat_prompt(&s, "q", 2);
    assert_eq!(p, "Previous conversation:\nuser: m2\nuser: m3\n\nUser: q");
}

#[test]
fn test_prepare_chat_call_model_selection() {
    let c = client();
    let s = Session::new(None, None, None, 0);
    let explicit = prepare_chat_call(&c, &s, "q", Some("chosen"), None, Some("env-model"), 10);
    assert_eq!(explicit.model, "chosen");
    let from_env = prepare_chat_call(&c, &s, "q", None, None, Some("env-model"), 10);
    assert_eq!(from_env.model, "env-model");
    let fallback = prepare_chat_call(&c, &s, "q", None, None, None, 10);
    assert_eq!(fallback.model, "xiaomi/mimo-v2-flash:free");
}

#[test]
fn test_prepare_chat_call_uses_persona_and_budgets() {
    let c = client();
    let s = Session::new(None, None, None, 0);
    let p = prepare_chat_call(&c, &s, "q", None, None, None, 10);
    assert_eq!(p.call.request.messages[0].role, "system");
    assert_eq!(p.call.request.messages[0].content, CHAT_SYSTEM_PROMPT);
    assert_eq!(p.call.request.messages[1].content, "q");
    assert_eq!(p.call.request.max_tokens, Some(1000));
    assert_eq!(p.call.request.temperature_milli, Some(700));
    let own = prepare_chat_call(&c, &s, "q", None, Some("be blunt"), None, 10);
    assert_eq!(own.call.request.messages[0].content, "be blunt");
}

#[test]
fn test_two_chat_turns_append_four_messages() {
    let mut store = SessionStore::new();
    let id = store
        .create(Session::new(Some("Chat Test".to_string()), None, None, 0))
        .unwrap();
    assert!(record_chat_exchange(
        &mut store,
        id,
        Message::user("My name is Alice".to_string(), 10),
        Message::assistant("Nice to meet you".to_string(), 10),
        10,
    ));
    assert!(record_chat_exchange(
        &mut store,
        id,
        Message::user("What is my name?".to_string(), 20),
        Message::assistant("Alice".to_string(), 20),
        20,
    ));
    let s = store.find_by_id(id, 30).unwrap();
    assert_eq!(s.messages.len(), 4);
    assert_eq!(s.messages[0].role.as_str(), "user");
    assert_eq!(s.messages[0].content.as_str(), "My name is Alice");
    assert_eq!(s.messages[1].role.as_str(), "assistant");
    assert_eq!(s.messages[2].content.as_str(), "What is my name?");
    assert_eq!(s.messages[3].role.as_str(), "assistant");
    assert_eq!(s.messages[3].content.as_str(), "Alice");
}

#[test]
fn test_chat_exchange_on_missing_session() {
    let mut store = SessionStore::new();
    assert!(!record_chat_exchange(
        &mut store,
        3,
        Message::user("hello".to_string(), 1),
        Message::assistant("hi".to_string(), 1),
        1,
    ));
    assert_eq!(store.count(), 0);
}
