use cleuly::ai::list_models;
use cleuly::ai::AiCompletion;
use cleuly::ai::AiModel;
use cleuly::ai::AnalyzeRequest;
use cleuly::ai::CompleteRequest;
use cleuly::ai::SuggestRequest;
use cleuly::ai::UsageInfo;

#[test]
fn test_model_tags() {
    assert_eq!(AiModel::MimoV2Flash.as_str(), "xiaomi/mimo-v2-flash:free");
    assert_eq!(AiModel::NemotronNano.as_str(), "nvidia/nemotron-3-nano-30b-a3b:free");
    assert_eq!(AiModel::Devstral.as_str(), "mistralai/devstral-2512:free");
    assert_eq!(AiModel::DeepSeekNex.as_str(), "nex-agi/deepseek-v3.1-nex-n1:free");
    assert_eq!(AiModel::KatCoderPro.as_str(), "kwaipilot/kat-coder-pro:free");
}

#[test]
fn test_all_models_listed() {
    let all = AiModel::all();
    assert_eq!(all.len(), 5);
    assert_eq!(all[0].as_str(), "xiaomi/mimo-v2-flash:free");
    assert_eq!(all[4].as_str(), "kwaipilot/kat-coder-pro:free");
}

#[test]
fn test_default_model_is_mimo() {
    let d: AiModel = Default::default();
    assert_eq!(d.as_str(), "xiaomi/mimo-v2-flash:free");
}

#[test]
fn test_list_models() {
    let r = list_models();
    assert_eq!(r.models.len(), 6);
    assert_eq!(r.models[0].id, "llama-3.1-8b-instant");
    assert_eq!(r.models[0].context_length, 131072);
    assert_eq!(r.models[1].id, "llama-3.3-70b-versatile");
    assert_eq!(r.models[2].id, "nvidia/nemotron-3-nano-30b-a3b:free");
    assert_eq!(r.models[2].context_length, 256000);
    assert_eq!(r.models[3].id, "google/gemma-3-27b-it:free");
    assert_eq!(r.models[4].id, "kwaipilot/kat-coder-pro:free");
    assert_eq!(r.models[5].id, "mistralai/devstral-2512:free");
    assert_eq!(r.models[5].context_length, 262144);
    for m in &r.models {
        assert!(!m.name.is_empty());
        assert!(!m.description.is_empty());
    }
}

#[test]
fn test_complete_empty_prompt_fails() {
    let req = CompleteRequest {
        prompt: String::new(),
        model: None,
        system_prompt: None,
        max_tokens: None,
        temperature_milli: None,
    };
    assert_eq!(req.validate().unwrap_err(), "Prompt cannot be empty");
    let ok = CompleteRequest {
        prompt: "Say hello in one word".to_string(),
        model: Some("xiaomi/mimo-v2-flash:free".to_string()),
        system_prompt: None,
        max_tokens: Some(50),
        temperature_milli: None,
    };
    assert!(ok.validate().is_ok());
}

#[test]
fn test_suggest_empty_context_fails() {
    let req = SuggestRequest { context: String::new(), model: None, suggestion_type: None };
    assert_eq!(req.validate().unwrap_err(), "Context cannot be empty");
}

#[test]
fn test_analyze_empty_text_fails() {
    let req = AnalyzeRequest { text: String::new(), model: None, analysis_type: None };
    assert_eq!(req.validate().unwrap_err(), "Text cannot be empty");
}

#[test]
fn test_completion_record_fields() {
    let c = AiCompletion::new(
        "prompt".to_string(),
        Some("sys".to_string()),
        "model-x".to_string(),
        "answer".to_string(),
        Some(UsageInfo { prompt_tokens: 1, completion_tokens: 2, total_tokens: 3 }),
        "complete".to_string(),
        1700000000000,
    );
    assert!(c.id.is_none());
    assert_eq!(c.prompt, "prompt");
    assert_eq!(c.system_prompt.as_deref(), Some("sys"));
    assert_eq!(c.model, "model-x");
    assert_eq!(c.response, "answer");
    assert_eq!(c.usage, Some(UsageInfo { prompt_tokens: 1, completion_tokens: 2, total_tokens: 3 }));
    assert_eq!(c.request_type, "complete");
    assert_eq!(c.created_at_ms, 1700000000000);
}
