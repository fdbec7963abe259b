//! The completion API's model catalogue, request shapes, and stored
//! completion records.

use vstd::prelude::*;
use vstd::string::StringExecFns;

verus! {

/// The models offered through the completion API.
#[derive(Debug)]
pub enum AiModel {
    MimoV2Flash,
    NemotronNano,
    Devstral,
    DeepSeekNex,
    KatCoderPro,
}

impl Clone for AiModel {
    fn clone(&self) -> (r: Self)
        ensures
            r == *self,
    {
        match self {
            AiModel::MimoV2Flash => AiModel::MimoV2Flash,
            AiModel::NemotronNano => AiModel::NemotronNano,
            AiModel::Devstral => AiModel::Devstral,
            AiModel::DeepSeekNex => AiModel::DeepSeekNex,
            AiModel::KatCoderPro => AiModel::KatCoderPro,
        }
    }
}

impl AiModel {
    pub fn as_str(&self) -> (r: &str)
        ensures
            r@ == spec_model_tag(*self),
    {
        match self {
            AiModel::MimoV2Flash => "xiaomi/mimo-v2-flash:free",
            AiModel::NemotronNano => "nvidia/nemotron-3-nano-30b-a3b:free",
            AiModel::Devstral => "mistralai/devstral-2512:free",
            AiModel::DeepSeekNex => "nex-agi/deepseek-v3.1-nex-n1:free",
            AiModel::KatCoderPro => "kwaipilot/kat-coder-pro:free",
        }
    }

    pub fn all() -> (r: Vec<AiModel>)
        ensures
            r@.len() == 5,
            r@[0] is MimoV2Flash,
            r@[1] is NemotronNano,
            r@[2] is Devstral,
            r@[3] is DeepSeekNex,
            r@[4] is KatCoderPro,
    {
        let mut v: Vec<AiModel> = Vec::new();
        v.push(AiModel::MimoV2Flash);
        v.push(AiModel::NemotronNano);
        v.push(AiModel::Devstral);
        v.push(AiModel::DeepSeekNex);
        v.push(AiModel::KatCoderPro);
        v
    }
}

/// The upstream identifier of a model.
pub open spec fn spec_model_tag(m: AiModel) -> Seq<char> {
    match m {
        AiModel::MimoV2Flash => "xiaomi/mimo-v2-flash:free"@,
        AiModel::NemotronNano => "nvidia/nemotron-3-nano-30b-a3b:free"@,
        AiModel::Devstral => "mistralai/devstral-2512:free"@,
        AiModel::DeepSeekNex => "nex-agi/deepseek-v3.1-nex-n1:free"@,
        AiModel::KatCoderPro => "kwaipilot/kat-coder-pro:free"@,
    }
}

impl Default for AiModel {
    fn default() -> (r: Self)
        ensures
            r is MimoV2Flash,
    {
        AiModel::MimoV2Flash
    }
}

/// Token accounting passed through from the upstream response.
#[derive(Debug, Clone, Copy, PartialEq, Eq, Structural)]
pub struct UsageInfo {
    pub prompt_tokens: u32,
    pub completion_tokens: u32,
    pub total_tokens: u32,
}

/// A raw completion request. The temperature is carried in thousandths, so
/// that the whole request is plain data; the HTTP layer divides by a
/// thousand when it serialises the call.
pub struct CompleteRequest {
    pub prompt: String,
    pub model: Option<String>,
    pub system_prompt: Option<String>,
    pub max_tokens: Option<u32>,
    pub temperature_milli: Option<u32>,
}

impl CompleteRequest {
    pub fn validate(&self) -> (r: Result<(), String>)
        ensures
            r is Ok <==> self.prompt@.len() > 0,
            r matches Err(m) ==> m@ == "Prompt cannot be empty"@,
    {
        if self.prompt.as_str().is_empty() {
            Err(String::from_str("Prompt cannot be empty"))
        } else {
            Ok(())
        }
    }
}

/// A request for a task-framed suggestion.
pub struct SuggestRequest {
    pub context: String,
    pub model: Option<String>,
    pub suggestion_type: Option<String>,
}

impl SuggestRequest {
    pub fn validate(&self) -> (r: Result<(), String>)
        ensures
            r is Ok <==> self.context@.len() > 0,
            r matches Err(m) ==> m@ == "Context cannot be empty"@,
    {
        if self.context.as_str().is_empty() {
            Err(String::from_str("Context cannot be empty"))
        } else {
            Ok(())
        }
    }
}

/// A request for an analysis of a piece of text.
pub struct AnalyzeRequest {
    pub text: String,
    pub model: Option<String>,
    pub analysis_type: Option<String>,
}

impl AnalyzeRequest {
    pub fn validate(&self) -> (r: Result<(), String>)
        ensures
            r is Ok <==> self.text@.len() > 0,
            r matches Err(m) ==> m@ == "Text cannot be empty"@,
    {
        if self.text.as_str().is_empty() {
            Err(String::from_str("Text cannot be empty"))
        } else {
            Ok(())
        }
    }
}

/// The response shape of the completion API.
pub struct AiResponse {
    pub id: String,
    pub model: String,
    pub content: String,
    pub usage: Option<UsageInfo>,
    pub created_at: String,
}

/// One catalogue entry of the models listing.
pub struct ModelInfo {
    pub id: String,
    pub name: String,
    pub description: String,
    pub context_length: u32,
}

/// The models listing.
pub struct ModelsResponse {
    pub models: Vec<ModelInfo>,
}

/// A plain message payload.
pub struct MessageResponse {
    pub message: String,
}

/// The fixed model catalogue: the two hosted fast models first, then the
/// free-tier ones.
pub fn list_models() -> (r: ModelsResponse)
    ensures
        r.models@.len() == 6,
        r.models@[0].id@ == "llama-3.1-8b-instant"@ && r.models@[0].context_length == 131072,
        r.models@[1].id@ == "llama-3.3-70b-versatile"@ && r.models@[1].context_length == 131072,
        r.models@[2].id@ == spec_model_tag(AiModel::NemotronNano) && r.models@[2].context_length
            == 256000,
        r.models@[3].id@ == "google/gemma-3-27b-it:free"@ && r.models@[3].context_length == 131072,
        r.models@[4].id@ == spec_model_tag(AiModel::KatCoderPro) && r.models@[4].context_length
            == 256000,
        r.models@[5].id@ == spec_model_tag(AiModel::Devstral) && r.models@[5].context_length
            == 262144,
{
    let mut models: Vec<ModelInfo> = Vec::new();
    models.push(
        ModelInfo {
            id: String::from_str("llama-3.1-8b-instant"),
            name: String::from_str("Llama 3.1 8B Instant (Groq)"),
            description: String::from_str("Fastest model (~500ms). Great for quick coding help."),
            context_length: 131072,
        },
    );
    models.push(
        ModelInfo {
            id: String::from_str("llama-3.3-70b-versatile"),
            name: String::from_str("Llama 3.3 70B (Groq)"),
            description: String::from_str("Larger Groq model for complex tasks. Slower but smarter."),
            context_length: 131072,
        },
    );
    models.push(
        ModelInfo {
            id: String::from_str(AiModel::NemotronNano.as_str()),
            name: String::from_str("Nemotron 3 Nano 30B"),
            description: String::from_str("Fast free model (~700ms). NVIDIA's efficient MoE."),
            context_length: 256000,
        },
    );
    models.push(
        ModelInfo {
            id: String::from_str("google/gemma-3-27b-it:free"),
            name: String::from_str("Gemma 3 27B"),
            description: String::from_str("Google's fast model (~900ms). Good quality."),
            context_length: 131072,
        },
    );
    models.push(
        ModelInfo {
            id: String::from_str(AiModel::KatCoderPro.as_str()),
            name: String::from_str("KAT-Coder-Pro V1"),
            description: String::from_str("Coding specialist (~1200ms). 73.4% on SWE-Bench."),
            context_length: 256000,
        },
    );
    models.push(
        ModelInfo {
            id: String::from_str(AiModel::Devstral.as_str()),
            name: String::from_str("Devstral 2"),
            description: String::from_str("Mistral coding model (~2300ms). 256K context."),
            context_length: 262144,
        },
    );
    ModelsResponse { models }
}

/// A stored completion record. Timestamps come from the caller's clock
/// reading, as everywhere in this crate.
pub struct AiCompletion {
    pub id: Option<u64>,
    pub prompt: String,
    pub system_prompt: Option<String>,
    pub model: String,
    pub response: String,
    pub usage: Option<UsageInfo>,
    pub request_type: String,
    pub created_at_ms: i64,
}

impl AiCompletion {
    pub fn new(
        prompt: String,
        system_prompt: Option<String>,
        model: String,
        response: String,
        usage: Option<UsageInfo>,
        request_type: String,
        now_ms: i64,
    ) -> (c: AiCompletion)
        ensures
            c.id is None,
            c.prompt == prompt,
            c.system_prompt == system_prompt,
            c.model == model,
            c.response == response,
            c.usage == usage,
            c.request_type == request_type,
            c.created_at_ms == now_ms,
    {
        AiCompletion {
            id: None,
            prompt,
            system_prompt,
            model,
            response,
            usage,
            request_type,
            created_at_ms: now_ms,
        }
    }
}

} // verus!
