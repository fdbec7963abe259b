use cleuly::llm::analysis_kind;
use cleuly::llm::create_llm_client;
use cleuly::llm::suggestion_kind;
use cleuly::llm::AnalysisKind;
use cleuly::llm::LlmClient;
use cleuly::llm::LlmError;
use cleuly::llm::LlmProvider;
use cleuly::llm::SuggestionKind;
use cleuly::llm::COMPETITIVE_PROGRAMMER_PROMPT;
use cleuly::llm::GENERIC_ASSISTANT_PROMPT;
use cleuly::llm::INTERVIEW_COACH_PROMPT;
use cleuly::llm::SENTIMENT_PROMPT;

fn openrouter() -> LlmClient {
    LlmClient::new(Some("sk-or-key".to_string()), None).unwrap()
}

fn groq() -> LlmClient {
    LlmClient::new_groq(Some("gsk-key".to_string()), None).unwrap()
}

#[test]
fn test_new_requires_api_key() {
    let err = LlmClient::new(None, None).unwrap_err();
    assert!(matches!(err, LlmError::MissingApiKey));
    let c = openrouter();
    assert_eq!(c.base_url, "https://openrouter.ai/api/v1");
    assert_eq!(c.api_key, "sk-or-key");
    assert!(matches!(c.provider, LlmProvider::OpenRouter));
}

#[test]
fn test_new_groq_defaults() {
    let c = groq();
    assert_eq!(c.base_url, "https://api.groq.com/openai/v1");
    assert!(matches!(c.provider, LlmProvider::Groq));
    let c2 = LlmClient::new_groq(Some("k".to_string()), Some("http://local".to_string())).unwrap();
    assert_eq!(c2.base_url, "http://local");
}

#[test]
fn test_fallback_prefers_groq_at_construction() {
    let c = create_llm_client(
        Some("g".to_string()),
        None,
        Some("o".to_string()),
        None,
    )
    .unwrap();
    assert!(matches!(c.provider, LlmProvider::Groq));
    let c2 = create_llm_client(None, None, Some("o".to_string()), None).unwrap();
    assert!(matches!(c2.provider, LlmProvider::OpenRouter));
    let err = create_llm_client(None, None, None, None).unwrap_err();
    assert!(matches!(err, LlmError::MissingApiKey));
}

#[test]
fn test_default_model_per_provider() {
    assert_eq!(groq().default_model(), "llama-3.1-8b-instant");
    assert_eq!(openrouter().default_model(), "nvidia/nemotron-3-nano-30b-a3b:free");
}

#[test]
fn test_prepare_complete_builds_message_list() {
    let c = openrouter();
    let call = c.prepare_complete("hello", "model-x", Some("be brief"), Some(50), Some(700));
    assert_eq!(call.url, "https://openrouter.ai/api/v1/chat/completions");
    assert_eq!(call.bearer, "Bearer sk-or-key");
    assert_eq!(call.request.model, "model-x");
    assert_eq!(call.request.max_tokens, Some(50));
    assert_eq!(call.request.temperature_milli, Some(700));
    assert_eq!(call.request.messages.len(), 2);
    assert_eq!(call.request.messages[0].role, "system");
    assert_eq!(call.request.messages[0].content, "be brief");
    assert_eq!(call.request.messages[1].role, "user");
    assert_eq!(call.request.messages[1].content, "hello");
    let bare = c.prepare_complete("hi", "m", None, None, None);
    assert_eq!(bare.request.messages.len(), 1);
    assert_eq!(bare.request.messages[0].role, "user");
}

#[test]
fn test_provider_headers() {
    let or_call = openrouter().prepare_complete("p", "m", None, None, None);
    assert_eq!(or_call.extra_headers.len(), 2);
    assert_eq!(or_call.extra_headers[0].0, "HTTP-Referer");
    assert_eq!(or_call.extra_headers[0].1, "https://cleuly.app");
    assert_eq!(or_call.extra_headers[1].0, "X-Title");
    assert_eq!(or_call.extra_headers[1].1, "Cleuly");
    let groq_call = groq().prepare_complete("p", "m", None, None, None);
    assert!(groq_call.extra_headers.is_empty());
}

#[test]
fn test_complete_structured_error_body() {
    let r = LlmClient::complete_response(401, "{\"error\":{\"message\":\"invalid key\"}}");
    match r {
        Err(LlmError::ApiError(m)) => assert_eq!(m, "invalid key"),
        other => panic!("expected ApiError, got {:?}", other),
    }
}

#[test]
fn test_complete_raw_error_body() {
    let r = LlmClient::complete_response(500, "upstream exploded");
    match r {
        Err(LlmError::ApiError(m)) => assert_eq!(m, "upstream exploded"),
        other => panic!("expected ApiError, got {:?}", other),
    }
}

#[test]
fn test_complete_success_first_choice_and_usage() {
    let body = "{\"id\":\"cmpl-1\",\"choices\":[{\"message\":{\"content\":\"hello there\"}},{\"message\":{\"content\":\"ignored\"}}],\"usage\":{\"prompt_tokens\":3,\"completion_tokens\":5,\"total_tokens\":8}}";
    let r = LlmClient::complete_response(200, body).unwrap();
    assert_eq!(r.id, "cmpl-1");
    assert_eq!(r.content, "hello there");
    let u = r.usage.unwrap();
    assert_eq!(u.prompt_tokens, 3);
    assert_eq!(u.completion_tokens, 5);
    assert_eq!(u.total_tokens, 8);
}

#[test]
fn test_complete_success_without_usage() {
    let body = "{\"id\":\"cmpl-2\",\"choices\":[{\"message\":{\"content\":\"ok\"}}]}";
    let r = LlmClient::complete_response(200, body).unwrap();
    assert_eq!(r.content, "ok");
    assert!(r.usage.is_none());
}

#[test]
fn test_complete_zero_choices_is_invalid_response() {
    let body = "{\"id\":\"cmpl-3\",\"choices\":[]}";
    let r = LlmClient::complete_response(200, body);
    match r {
        Err(LlmError::InvalidResponse(m)) => assert_eq!(m, "No choices in response"),
        other => panic!("expected InvalidResponse, got {:?}", other),
    }
}

#[test]
fn test_complete_undecodable_success_body() {
    let r = LlmClient::complete_response(200, "not json at all");
    match r {
        Err(LlmError::RequestError(m)) => assert_eq!(m, "error decoding response body"),
        other => panic!("expected RequestError, got {:?}", other),
    }
}

#[test]
fn test_suggestion_kind_dispatch() {
    assert!(matches!(suggestion_kind(Some("interview")), SuggestionKind::Interview));
    assert!(matches!(suggestion_kind(Some("coding_interview")), SuggestionKind::Interview));
    assert!(matches!(suggestion_kind(Some("leetcode")), SuggestionKind::Coding));
    assert!(matches!(suggestion_kind(Some("coding")), SuggestionKind::Coding));
    assert!(matches!(suggestion_kind(Some("meeting")), SuggestionKind::Meeting));
    assert!(matches!(suggestion_kind(Some("something else")), SuggestionKind::General));
    assert!(matches!(suggestion_kind(None), SuggestionKind::General));
}

#[test]
fn test_prepare_suggest_frames_context() {
    let c = groq();
    let call = c.prepare_suggest("reverse a list", "m", Some("interview"));
    assert_eq!(call.request.messages[0].content, INTERVIEW_COACH_PROMPT);
    assert_eq!(call.request.messages[1].content, "Solve this:\n\nreverse a list");
    assert_eq!(call.request.max_tokens, Some(800));
    assert_eq!(call.request.temperature_milli, Some(300));
    let coding = c.prepare_suggest("two sum", "m", Some("leetcode"));
    assert_eq!(coding.request.messages[0].content, COMPETITIVE_PROGRAMMER_PROMPT);
    let general = c.prepare_suggest("plan my day", "m", None);
    assert_eq!(general.request.messages[0].content, GENERIC_ASSISTANT_PROMPT);
    assert_eq!(general.request.messages[1].content, "Help with this:\n\nplan my day");
}

#[test]
fn test_analysis_kind_dispatch() {
    assert!(matches!(analysis_kind(Some("sentiment")), AnalysisKind::Sentiment));
    assert!(matches!(analysis_kind(Some("intent")), AnalysisKind::Intent));
    assert!(matches!(analysis_kind(Some("summary")), AnalysisKind::Summary));
    assert!(matches!(analysis_kind(Some("technical")), AnalysisKind::Technical));
    assert!(matches!(analysis_kind(Some("debug")), AnalysisKind::Debug));
    assert!(matches!(analysis_kind(Some("???")), AnalysisKind::General));
    assert!(matches!(analysis_kind(None), AnalysisKind::General));
}

#[test]
fn test_prepare_analyze_budgets() {
    let c = groq();
    let call = c.prepare_analyze("I am thrilled!", "m", Some("sentiment"));
    assert_eq!(call.request.messages[0].content, SENTIMENT_PROMPT);
    assert_eq!(call.request.messages[1].content, "I am thrilled!");
    assert_eq!(call.request.max_tokens, Some(600));
    assert_eq!(call.request.temperature_milli, Some(300));
}

#[test]
fn test_llm_error_message_rendering() {
    assert_eq!(
        LlmError::ApiError("invalid key".to_string()).message(),
        "API error: invalid key"
    );
    assert_eq!(LlmError::MissingApiKey.message(), "Missing API key");
    assert_eq!(
        LlmError::InvalidResponse("No choices in response".to_string()).message(),
        "Invalid response: No choices in response"
    );
    assert_eq!(
        LlmError::RequestError("timeout".to_string()).message(),
        "HTTP request failed: timeout"
    );
}
