use cleuly::session::AddMessageRequest;
use cleuly::session::ChatRequest;
use cleuly::session::CreateSessionRequest;
use cleuly::session::Message;
use cleuly::session::Session;
use cleuly::session::to_message_response;
use cleuly::session::to_session_response;
use cleuly::session::to_session_summary;

#[test]
fn test_create_session_with_defaults() {
    let s = Session::new(None, None, None, 5);
    assert_eq!(s.session_type.as_str(), "general");
    assert_eq!(s.messages.len(), 0);
    assert!(s.id.is_none());
    assert!(s.title.is_none());
    assert_eq!(s.created_at_ms, 5);
    assert_eq!(s.updated_at_ms, 5);
}

#[test]
fn test_create_session_with_fields() {
    let s = Session::new(
        Some("Test Session".to_string()),
        Some("interview".to_string()),
        None,
        7,
    );
    assert_eq!(s.title.as_deref(), Some("Test Session"));
    assert_eq!(s.session_type.as_str(), "interview");
    assert_eq!(s.messages.len(), 0);
}

#[test]
fn test_message_constructors_set_roles() {
    let u = Message::user("a".to_string(), 1);
    let a = Message::assistant("b".to_string(), 2);
    let s = Message::system("c".to_string(), 3);
    assert_eq!(u.role.as_str(), "user");
    assert_eq!(a.role.as_str(), "assistant");
    assert_eq!(s.role.as_str(), "system");
    assert_eq!(u.content.as_str(), "a");
    assert_eq!(u.timestamp_ms, 1);
}

#[test]
fn test_add_message_appends_and_touches() {
    let mut s = Session::new(None, None, None, 10);
    s.add_message(Message::user("one".to_string(), 20), 20);
    s.add_message(Message::assistant("two".to_string(), 30), 30);
    assert_eq!(s.messages.len(), 2);
    assert_eq!(s.messages[0].content.as_str(), "one");
    assert_eq!(s.messages[1].content.as_str(), "two");
    assert_eq!(s.updated_at_ms, 30);
    assert_eq!(s.created_at_ms, 10);
    // A clock that went backwards never rewinds the update timestamp.
    s.add_message(Message::user("three".to_string(), 25), 25);
    assert_eq!(s.updated_at_ms, 30);
}

#[test]
fn test_context_window_shorter_than_limit() {
    let mut s = Session::new(None, None, None, 0);
    for i in 0..3i64 {
        s.add_message(Message::user(format!("m{}", i), i), i);
    }
    let w = s.get_context_messages(10);
    assert_eq!(w.len(), 3);
    assert_eq!(w[0].content.as_str(), "m0");
    assert_eq!(w[2].content.as_str(), "m2");
}

#[test]
fn test_context_window_takes_trailing_messages() {
    let mut s = Session::new(None, None, None, 0);
    for i in 0..5i64 {
        s.add_message(Message::user(format!("m{}", i), i), i);
    }
    let w = s.get_context_messages(2);
    assert_eq!(w.len(), 2);
    assert_eq!(w[0].content.as_str(), "m3");
    assert_eq!(w[1].content.as_str(), "m4");
    let none = s.get_context_messages(0);
    assert_eq!(none.len(), 0);
    let exact = s.get_context_messages(5);
    assert_eq!(exact.len(), 5);
    assert_eq!(exact[0].content.as_str(), "m0");
}

#[test]
fn test_create_session_request_validation() {
    let ok = CreateSessionRequest { title: Some("T".repeat(100)), session_type: None, metadata: None };
    assert!(ok.validate().is_ok());
    let too_long = CreateSessionRequest { title: Some("T".repeat(101)), session_type: None, metadata: None };
    assert_eq!(too_long.validate().unwrap_err(), "Title too long");
    let absent = CreateSessionRequest { title: None, session_type: None, metadata: None };
    assert!(absent.validate().is_ok());
}

#[test]
fn test_add_message_request_validation() {
    let ok = AddMessageRequest { role: "user".to_string(), content: "hi".to_string() };
    assert!(ok.validate().is_ok());
    let no_role = AddMessageRequest { role: String::new(), content: "hi".to_string() };
    assert_eq!(no_role.validate().unwrap_err(), "Role cannot be empty");
    let no_content = AddMessageRequest { role: "user".to_string(), content: String::new() };
    assert_eq!(no_content.validate().unwrap_err(), "Content cannot be empty");
}

#[test]
fn test_chat_request_validation() {
    let ok = ChatRequest { message: "hello".to_string(), model: None, system_prompt: None };
    assert!(ok.validate().is_ok());
    let empty = ChatRequest { message: String::new(), model: None, system_prompt: None };
    assert_eq!(empty.validate().unwrap_err(), "Message cannot be empty");
}

#[test]
fn test_timestamp_rendering_through_chrono() {
    let m = Message::user("x".to_string(), 0);
    assert_eq!(m.timestamp_rfc3339(), "1970-01-01T00:00:00+00:00");
    let m2 = Message::user("y".to_string(), 1700000000000);
    assert_eq!(m2.timestamp_rfc3339(), "2023-11-14T22:13:20+00:00");
}

#[test]
fn test_to_message_response_renders_fields() {
    let m = Message::assistant("sure".to_string(), 1700000000000);
    let r = to_message_response(&m);
    assert_eq!(r.role, "assistant");
    assert_eq!(r.content, "sure");
    assert_eq!(r.timestamp, "2023-11-14T22:13:20+00:00");
}

#[test]
fn test_to_session_response_renders_fields() {
    let mut s = Session::new(Some("T".to_string()), Some("interview".to_string()), None, 0);
    s.add_message(Message::user("hi".to_string(), 1), 1);
    s.id = Some(42);
    let r = to_session_response(&s);
    assert_eq!(r.id, "42");
    assert_eq!(r.title.as_deref(), Some("T"));
    assert_eq!(r.session_type, "interview");
    assert_eq!(r.message_count, 1);
    assert_eq!(r.messages.len(), 1);
    assert_eq!(r.messages[0].content, "hi");
    assert_eq!(r.created_at, "1970-01-01T00:00:00+00:00");
}

#[test]
fn test_to_session_summary_counts_without_messages() {
    let mut s = Session::new(None, None, None, 0);
    s.add_message(Message::user("a".to_string(), 1), 1);
    s.add_message(Message::user("b".to_string(), 2), 2);
    let r = to_session_summary(&s);
    assert_eq!(r.id, "");
    assert_eq!(r.message_count, 2);
    assert_eq!(r.session_type, "general");
}
