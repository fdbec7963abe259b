//! The LLM gateway: one interface for chat completion across two upstream
//! providers, with construction-time fallback, per-task system prompts, and
//! uniform classification of upstream responses.
//!
//! The gateway is split around its one effect. `prepare_*` builds the whole
//! outgoing call — endpoint, headers, message list, budgets — as plain
//! data; the HTTP layer outside this crate performs the exchange; and
//! `complete_response` classifies whatever status and body came back.

use vstd::prelude::*;
use vstd::string::StringExecFns;

use crate::ai::UsageInfo;
use crate::json::error_message_of;
use crate::json::parse_error_message;
use crate::text::opt_text;
use crate::text::str_concat;
use crate::text::str_eq;

verus! {

/// Errors of the gateway. `RequestError` carries the transport or decode
/// failure's rendering; `ApiError` what the upstream rejected with;
/// `MissingApiKey` a configuration gap; `InvalidResponse` a success payload
/// that is unusable.
#[derive(Debug)]
pub enum LlmError {
    RequestError(String),
    ApiError(String),
    MissingApiKey,
    InvalidResponse(String),
}

/// The rendering used where an error is reported as text.
pub open spec fn spec_error_text(e: LlmError) -> Seq<char> {
    match e {
        LlmError::RequestError(m) => "HTTP request failed: "@ + m@,
        LlmError::ApiError(m) => "API error: "@ + m@,
        LlmError::MissingApiKey => "Missing API key"@,
        LlmError::InvalidResponse(m) => "Invalid response: "@ + m@,
    }
}

impl LlmError {
    pub fn message(&self) -> (r: String)
        ensures
            r@ == spec_error_text(*self),
    {
        match self {
            LlmError::RequestError(m) => str_concat("HTTP request failed: ", m.as_str()),
            LlmError::ApiError(m) => str_concat("API error: ", m.as_str()),
            LlmError::MissingApiKey => String::from_str("Missing API key"),
            LlmError::InvalidResponse(m) => str_concat("Invalid response: ", m.as_str()),
        }
    }
}

/// The two upstream providers.
#[derive(Debug, Clone, Copy, PartialEq, Eq, Structural)]
pub enum LlmProvider {
    OpenRouter,
    Groq,
}

/// One message of the outgoing chat-completion payload.
pub struct ChatMessage {
    pub role: String,
    pub content: String,
}

/// The outgoing chat-completion payload, as plain data. The temperature is
/// carried in thousandths; the HTTP layer divides by a thousand when it
/// serialises the call.
pub struct ChatRequestData {
    pub model: String,
    pub messages: Vec<ChatMessage>,
    pub max_tokens: Option<u32>,
    pub temperature_milli: Option<u32>,
}

/// A fully prepared upstream call: where to send, what to authorise with,
/// which provider-specific headers to add, and the payload.
pub struct ChatCall {
    pub url: String,
    pub bearer: String,
    pub extra_headers: Vec<(String, String)>,
    pub request: ChatRequestData,
}

/// The result of a successful completion.
#[derive(Debug)]
pub struct LlmResponse {
    pub id: String,
    pub content: String,
    pub usage: Option<UsageInfo>,
}

/// What the gateway reads out of a success body: the upstream identifier,
/// how many choices came back, and the first choice's content.
pub struct ChatHead {
    pub id: String,
    pub choice_count: usize,
    pub first_content: Option<String>,
}

/// The mathematical value of a [`ChatHead`].
#[verifier::ext_equal]
pub struct ChatHeadView {
    pub id: Seq<char>,
    pub choice_count: nat,
    pub first_content: Option<Seq<char>>,
}

impl View for ChatHead {
    type V = ChatHeadView;

    open spec fn view(&self) -> ChatHeadView {
        ChatHeadView {
            id: self.id@,
            choice_count: self.choice_count as nat,
            first_content: match self.first_content {
                Some(s) => Some(s@),
                None => None,
            },
        }
    }
}

/// What a chat-completion success body parses to, if it carries a string
/// `id` and an array `choices` whose first element, if any, holds a string
/// `message.content`.
pub uninterp spec fn chat_head_of(body: Seq<char>) -> Option<ChatHeadView>;

/// The three token counts under `usage`, when all are present and fit.
pub uninterp spec fn chat_usage_of(body: Seq<char>) -> Option<UsageInfo>;

/// Relies on serde_json::from_str (to a serde_json::Value) and Value::get /
/// as_str / as_array: the parse depends on the body text alone, and the
/// first choice's content is read exactly when at least one choice came
/// back.
#[verifier::external_body]
pub(crate) fn parse_chat_head(body: &str) -> (r: Option<ChatHead>)
    ensures
        (match r {
            Some(h) => chat_head_of(body@) == Some(h@),
            None => chat_head_of(body@) is None,
        }),
        (match r {
            Some(h) => h.first_content is Some <==> h.choice_count > 0,
            None => true,
        }),
{
    let v: serde_json::Value = match serde_json::from_str(body) {
        Ok(v) => v,
        Err(_) => return None,
    };
    let id = v.get("id")?.as_str()?.to_string();
    let choices = v.get("choices")?.as_array()?;
    let first_content = match choices.first() {
        Some(c) => Some(c.get("message")?.get("content")?.as_str()?.to_string()),
        None => None,
    };
    Some(ChatHead { id, choice_count: choices.len(), first_content })
}

/// Relies on serde_json::from_str (to a serde_json::Value) and Value::get /
/// as_u64: the token counts depend on the body text alone.
#[verifier::external_body]
pub(crate) fn parse_chat_usage(body: &str) -> (r: Option<UsageInfo>)
    ensures
        r == chat_usage_of(body@),
{
    let v: serde_json::Value = match serde_json::from_str(body) {
        Ok(v) => v,
        Err(_) => return None,
    };
    let u = v.get("usage")?;
    Some(UsageInfo {
        prompt_tokens: u32::try_from(u.get("prompt_tokens")?.as_u64()?).ok()?,
        completion_tokens: u32::try_from(u.get("completion_tokens")?.as_u64()?).ok()?,
        total_tokens: u32::try_from(u.get("total_tokens")?.as_u64()?).ok()?,
    })
}

/// The provider-specific headers: the attribution headers that OpenRouter's
/// terms ask for, nothing for Groq.
pub open spec fn headers_shape(h: Seq<(String, String)>, p: LlmProvider) -> bool {
    match p {
        LlmProvider::OpenRouter => h.len() == 2 && h[0].0@ == "HTTP-Referer"@ && h[0].1@
            == "https://cleuly.app"@ && h[1].0@ == "X-Title"@ && h[1].1@ == "Cleuly"@,
        LlmProvider::Groq => h.len() == 0,
    }
}

/// The shape of a prepared call with a system message: endpoint, bearer
/// authorisation, provider headers, and a two-message payload.
pub open spec fn call_shape(
    c: ChatCall,
    client: LlmClient,
    sys: Seq<char>,
    user: Seq<char>,
    model: Seq<char>,
    max_tokens: Option<u32>,
    temperature_milli: Option<u32>,
) -> bool {
    &&& c.url@ == client.base_url@ + "/chat/completions"@
    &&& c.bearer@ == "Bearer "@ + client.api_key@
    &&& headers_shape(c.extra_headers@, client.provider)
    &&& c.request.model@ == model
    &&& c.request.max_tokens == max_tokens
    &&& c.request.temperature_milli == temperature_milli
    &&& c.request.messages@.len() == 2
    &&& c.request.messages@[0].role@ == "system"@
    &&& c.request.messages@[0].content@ == sys
    &&& c.request.messages@[1].role@ == "user"@
    &&& c.request.messages@[1].content@ == user
}

/// A configured gateway client: one provider profile.
#[derive(Debug)]
pub struct LlmClient {
    pub base_url: String,
    pub api_key: String,
    pub provider: LlmProvider,
}

impl LlmClient {
    /// An OpenRouter client from the environment's key and optional base
    /// URL override; fails exactly when the key is absent.
    pub fn new(api_key: Option<String>, base_url: Option<String>) -> (r: Result<
        LlmClient,
        LlmError,
    >)
        ensures
            r is Err <==> api_key is None,
            (match r {
                Ok(c) => {
                    &&& (match api_key {
                        Some(k) => c.api_key == k,
                        None => false,
                    })
                    &&& (match base_url {
                        Some(u) => c.base_url == u,
                        None => c.base_url@ == "https://openrouter.ai/api/v1"@,
                    })
                    &&& c.provider is OpenRouter
                },
                Err(e) => e is MissingApiKey,
            }),
    {
        let key = match api_key {
            Some(k) => k,
            None => {
                return Err(LlmError::MissingApiKey);
            },
        };
        let url = match base_url {
            Some(u) => u,
            None => String::from_str("https://openrouter.ai/api/v1"),
        };
        Ok(LlmClient { base_url: url, api_key: key, provider: LlmProvider::OpenRouter })
    }

    /// A Groq client, for faster inference; fails exactly when the key is
    /// absent.
    pub fn new_groq(api_key: Option<String>, base_url: Option<String>) -> (r: Result<
        LlmClient,
        LlmError,
    >)
        ensures
            r is Err <==> api_key is None,
            (match r {
                Ok(c) => {
                    &&& (match api_key {
                        Some(k) => c.api_key == k,
                        None => false,
                    })
                    &&& (match base_url {
                        Some(u) => c.base_url == u,
                        None => c.base_url@ == "https://api.groq.com/openai/v1"@,
                    })
                    &&& c.provider is Groq
                },
                Err(e) => e is MissingApiKey,
            }),
    {
        let key = match api_key {
            Some(k) => k,
            None => {
                return Err(LlmError::MissingApiKey);
            },
        };
        let url = match base_url {
            Some(u) => u,
            None => String::from_str("https://api.groq.com/openai/v1"),
        };
        Ok(LlmClient { base_url: url, api_key: key, provider: LlmProvider::Groq })
    }

    /// The default fast model of the configured provider.
    pub fn default_model(&self) -> (r: &str)
        ensures
            self.provider is Groq ==> r@ == "llama-3.1-8b-instant"@,
            self.provider is OpenRouter ==> r@ == "nvidia/nemotron-3-nano-30b-a3b:free"@,
    {
        match self.provider {
            LlmProvider::Groq => "llama-3.1-8b-instant",
            LlmProvider::OpenRouter => "nvidia/nemotron-3-nano-30b-a3b:free",
        }
    }

    /// Builds the whole upstream call for a completion: the optional system
    /// message first, then the user prompt.
    pub fn prepare_complete(
        &self,
        prompt: &str,
        model: &str,
        system_prompt: Option<&str>,
        max_tokens: Option<u32>,
        temperature_milli: Option<u32>,
    ) -> (c: ChatCall)
        ensures
            c.url@ == self.base_url@ + "/chat/completions"@,
            c.bearer@ == "Bearer "@ + self.api_key@,
            headers_shape(c.extra_headers@, self.provider),
            c.request.model@ == model@,
            c.request.max_tokens == max_tokens,
            c.request.temperature_milli == temperature_milli,
            (match system_prompt {
                Some(sp) => c.request.messages@.len() == 2 && c.request.messages@[0].role@
                    == "system"@ && c.request.messages@[0].content@ == sp@
                    && c.request.messages@[1].role@ == "user"@ && c.request.messages@[1].content@
                    == prompt@,
                None => c.request.messages@.len() == 1 && c.request.messages@[0].role@ == "user"@
                    && c.request.messages@[0].content@ == prompt@,
            }),
    {
        let mut messages: Vec<ChatMessage> = Vec::new();
        match system_prompt {
            Some(sp) => {
                messages.push(
                    ChatMessage { role: String::from_str("system"), content: sp.to_owned() },
                );
            },
            None => {},
        }
        messages.push(ChatMessage { role: String::from_str("user"), content: prompt.to_owned() });
        let mut extra_headers: Vec<(String, String)> = Vec::new();
        if self.provider == LlmProvider::OpenRouter {
            extra_headers.push(
                (String::from_str("HTTP-Referer"), String::from_str("https://cleuly.app")),
            );
            extra_headers.push((String::from_str("X-Title"), String::from_str("Cleuly")));
        }
        ChatCall {
            url: str_concat(self.base_url.as_str(), "/chat/completions"),
            bearer: str_concat("Bearer ", self.api_key.as_str()),
            extra_headers,
            request: ChatRequestData {
                model: model.to_owned(),
                messages,
                max_tokens,
                temperature_milli,
            },
        }
    }

    /// Classifies what the upstream returned. A non-success status fails
    /// with the structured `error.message` when the body carries one, else
    /// with the raw body. A success body that does not parse fails as a
    /// decode error; one with zero choices is unusable; otherwise the first
    /// choice's content is the result and the token counts are passed
    /// through when present.
    pub fn complete_response(status: u16, body: &str) -> (r: Result<LlmResponse, LlmError>)
        ensures
            r is Ok <==> (200 <= status < 300 && (match chat_head_of(body@) {
                Some(h) => h.choice_count > 0,
                None => false,
            })),
            !(200 <= status < 300) ==> (match error_message_of(body@) {
                Some(m) => r matches Err(LlmError::ApiError(t)) && t@ == m,
                None => r matches Err(LlmError::ApiError(t)) && t@ == body@,
            }),
            (200 <= status < 300) ==> (match chat_head_of(body@) {
                None => r matches Err(LlmError::RequestError(t)) && t@
                    == "error decoding response body"@,
                Some(h) => if h.choice_count == 0 {
                    r matches Err(LlmError::InvalidResponse(t)) && t@ == "No choices in response"@
                } else {
                    r matches Ok(resp) && resp.id@ == h.id && Some(resp.content@)
                        == h.first_content && resp.usage == chat_usage_of(body@)
                },
            }),
    {
        if !(200 <= status && status < 300) {
            return (match parse_error_message(body) {
                Some(m) => Err(LlmError::ApiError(m)),
                None => Err(LlmError::ApiError(body.to_owned())),
            });
        }
        match parse_chat_head(body) {
            None => Err(LlmError::RequestError(String::from_str("error decoding response body"))),
            Some(h) => {
                match h.first_content {
                    Some(content) => Ok(
                        LlmResponse { id: h.id, content, usage: parse_chat_usage(body) },
                    ),
                    None => Err(
                        LlmError::InvalidResponse(String::from_str("No choices in response")),
                    ),
                }
            },
        }
    }

    /// Builds the upstream call for a task-framed suggestion: the system
    /// prompt and framing are selected by the suggestion category, with a
    /// short deterministic budget.
    pub fn prepare_suggest(
        &self,
        context: &str,
        model: &str,
        suggestion_type: Option<&str>,
    ) -> (c: ChatCall)
        ensures
            ({
                let k = spec_suggestion_kind(opt_text(suggestion_type));
                call_shape(
                    c,
                    *self,
                    spec_suggestion_prompt(k),
                    spec_suggest_user_prompt(k, context@),
                    model@,
                    Some(800u32),
                    Some(300u32),
                )
            }),
    {
        let k = suggestion_kind(suggestion_type);
        let sys = suggestion_system_prompt(k);
        let framed = match k {
            SuggestionKind::Interview | SuggestionKind::Coding => str_concat(
                "Solve this:\n\n",
                context,
            ),
            SuggestionKind::Meeting | SuggestionKind::General => str_concat(
                "Help with this:\n\n",
                context,
            ),
        };
        self.prepare_complete(framed.as_str(), model, Some(sys), Some(800), Some(300))
    }

    /// Builds the upstream call for an analysis: the system prompt is
    /// selected by the analysis category, the text is passed as the user
    /// message, with a deterministic budget.
    pub fn prepare_analyze(&self, text: &str, model: &str, analysis_type: Option<&str>) -> (c:
        ChatCall)
        ensures
            call_shape(
                c,
                *self,
                spec_analysis_prompt(spec_analysis_kind(opt_text(analysis_type))),
                text@,
                model@,
                Some(600u32),
                Some(300u32),
            ),
    {
        let k = analysis_kind(analysis_type);
        let sys = analysis_system_prompt(k);
        self.prepare_complete(text, model, Some(sys), Some(600), Some(300))
    }
}

/// Construction-time fallback: the faster provider first, then the other.
/// Runtime calls never fall back; only construction does.
pub fn create_llm_client(
    groq_key: Option<String>,
    groq_url: Option<String>,
    openrouter_key: Option<String>,
    openrouter_url: Option<String>,
) -> (r: Result<LlmClient, LlmError>)
    ensures
        r is Err <==> groq_key is None && openrouter_key is None,
        (match r {
            Ok(c) => if groq_key is Some {
                &&& c.provider is Groq
                &&& (match groq_key {
                    Some(k) => c.api_key == k,
                    None => false,
                })
                &&& (match groq_url {
                    Some(u) => c.base_url == u,
                    None => c.base_url@ == "https://api.groq.com/openai/v1"@,
                })
            } else {
                &&& c.provider is OpenRouter
                &&& (match openrouter_key {
                    Some(k) => c.api_key == k,
                    None => false,
                })
                &&& (match openrouter_url {
                    Some(u) => c.base_url == u,
                    None => c.base_url@ == "https://openrouter.ai/api/v1"@,
                })
            },
            Err(e) => e is MissingApiKey,
        }),
{
    match LlmClient::new_groq(groq_key, groq_url) {
        Ok(c) => Ok(c),
        Err(_) => LlmClient::new(openrouter_key, openrouter_url),
    }
}

/// The closed set of suggestion categories, with an explicit default for
/// unknown or absent tags.
#[derive(Debug, Clone, Copy, PartialEq, Eq, Structural)]
pub enum SuggestionKind {
    Interview,
    Coding,
    Meeting,
    General,
}

/// Which category a request tag selects.
pub open spec fn spec_suggestion_kind(tag: Option<Seq<char>>) -> SuggestionKind {
    match tag {
        Some(t) => if t == "interview"@ || t == "coding_interview"@ {
            SuggestionKind::Interview
        } else if t == "leetcode"@ || t == "coding"@ {
            SuggestionKind::Coding
        } else if t == "meeting"@ {
            SuggestionKind::Meeting
        } else {
            SuggestionKind::General
        },
        None => SuggestionKind::General,
    }
}

pub fn suggestion_kind(tag: Option<&str>) -> (k: SuggestionKind)
    ensures
        k == spec_suggestion_kind(opt_text(tag)),
{
    match tag {
        Some(t) => {
            if str_eq(t, "interview") || str_eq(t, "coding_interview") {
                SuggestionKind::Interview
            } else if str_eq(t, "leetcode") || str_eq(t, "coding") {
                SuggestionKind::Coding
            } else if str_eq(t, "meeting") {
                SuggestionKind::Meeting
            } else {
                SuggestionKind::General
            }
        },
        None => SuggestionKind::General,
    }
}

pub const INTERVIEW_COACH_PROMPT: &'static str = "You are a real-time coding interview coach. Be EXTREMELY concise.\n\nFor coding: give optimal solution in code block, then \"Time: O(?) | Space: O(?) | Pattern: [name]\"\nFor behavioral: give 2-3 bullet points max\nFor system design: list 3-5 key components\n\nNO lengthy explanations. Direct answers only.";

pub const COMPETITIVE_PROGRAMMER_PROMPT: &'static str = "You are an expert competitive programmer. Give CONCISE answers.\n\nFORMAT:\n```python\n[code]\n```\nTime: O(?) | Space: O(?) | Pattern: [name]\n\nNO explanations unless asked. Code only.";

pub const MEETING_ASSISTANT_PROMPT: &'static str = "You are a meeting assistant providing real-time suggestions.\n\nRULES:\n- Give actionable responses the user can say immediately\n- Keep suggestions brief (1-2 sentences each)\n- Be professional but natural\n- Provide 2-3 options when appropriate";

pub const GENERIC_ASSISTANT_PROMPT: &'static str = "You are Cleuly, a real-time AI assistant. Be direct, concise, and helpful. Give answers the user can use immediately.";

/// The system prompt of each suggestion category.
pub open spec fn spec_suggestion_prompt(k: SuggestionKind) -> Seq<char> {
    match k {
        SuggestionKind::Interview => INTERVIEW_COACH_PROMPT@,
        SuggestionKind::Coding => COMPETITIVE_PROGRAMMER_PROMPT@,
        SuggestionKind::Meeting => MEETING_ASSISTANT_PROMPT@,
        SuggestionKind::General => GENERIC_ASSISTANT_PROMPT@,
    }
}

pub fn suggestion_system_prompt(k: SuggestionKind) -> (r: &'static str)
    ensures
        r@ == spec_suggestion_prompt(k),
{
    match k {
        SuggestionKind::Interview => INTERVIEW_COACH_PROMPT,
        SuggestionKind::Coding => COMPETITIVE_PROGRAMMER_PROMPT,
        SuggestionKind::Meeting => MEETING_ASSISTANT_PROMPT,
        SuggestionKind::General => GENERIC_ASSISTANT_PROMPT,
    }
}

/// How the context is framed for each suggestion category: a direct task
/// for the coding-flavoured ones, an open request otherwise.
pub open spec fn spec_suggest_user_prompt(k: SuggestionKind, context: Seq<char>) -> Seq<char> {
    if k is Interview || k is Coding {
        "Solve this:\n\n"@ + context
    } else {
        "Help with this:\n\n"@ + context
    }
}

/// The closed set of analysis categories, with an explicit default for
/// unknown or absent tags.
#[derive(Debug, Clone, Copy, PartialEq, Eq, Structural)]
pub enum AnalysisKind {
    Sentiment,
    Intent,
    Summary,
    Technical,
    Debug,
    General,
}

/// Which category a request tag selects.
pub open spec fn spec_analysis_kind(tag: Option<Seq<char>>) -> AnalysisKind {
    match tag {
        Some(t) => if t == "sentiment"@ {
            AnalysisKind::Sentiment
        } else if t == "intent"@ {
            AnalysisKind::Intent
        } else if t == "summary"@ {
            AnalysisKind::Summary
        } else if t == "technical"@ {
            AnalysisKind::Technical
        } else if t == "debug"@ {
            AnalysisKind::Debug
        } else {
            AnalysisKind::General
        },
        None => AnalysisKind::General,
    }
}

pub fn analysis_kind(tag: Option<&str>) -> (k: AnalysisKind)
    ensures
        k == spec_analysis_kind(opt_text(tag)),
{
    match tag {
        Some(t) => {
            if str_eq(t, "sentiment") {
                AnalysisKind::Sentiment
            } else if str_eq(t, "intent") {
                AnalysisKind::Intent
            } else if str_eq(t, "summary") {
                AnalysisKind::Summary
            } else if str_eq(t, "technical") {
                AnalysisKind::Technical
            } else if str_eq(t, "debug") {
                AnalysisKind::Debug
            } else {
                AnalysisKind::General
            }
        },
        None => AnalysisKind::General,
    }
}

pub const SENTIMENT_PROMPT: &'static str = "Analyze sentiment briefly. Format: [POSITIVE/NEGATIVE/NEUTRAL] - one line explanation.";

pub const INTENT_PROMPT: &'static str = "Identify the speaker's intent in one sentence.";

pub const SUMMARY_PROMPT: &'static str = "Summarize in 2-3 bullet points maximum.";

pub const TECHNICAL_PROMPT: &'static str = "Explain the technical concept concisely with a code example if relevant.";

pub const DEBUG_PROMPT: &'static str = "You are a debugging expert. Identify the bug, explain why it happens, and provide the fix. Be direct.";

pub const GENERIC_ANALYSIS_PROMPT: &'static str = "Provide a brief, useful analysis.";

/// The system prompt of each analysis category.
pub open spec fn spec_analysis_prompt(k: AnalysisKind) -> Seq<char> {
    match k {
        AnalysisKind::Sentiment => SENTIMENT_PROMPT@,
        AnalysisKind::Intent => INTENT_PROMPT@,
        AnalysisKind::Summary => SUMMARY_PROMPT@,
        AnalysisKind::Technical => TECHNICAL_PROMPT@,
        AnalysisKind::Debug => DEBUG_PROMPT@,
        AnalysisKind::General => GENERIC_ANALYSIS_PROMPT@,
    }
}

pub fn analysis_system_prompt(k: AnalysisKind) -> (r: &'static str)
    ensures
        r@ == spec_analysis_prompt(k),
{
    match k {
        AnalysisKind::Sentiment => SENTIMENT_PROMPT,
        AnalysisKind::Intent => INTENT_PROMPT,
        AnalysisKind::Summary => SUMMARY_PROMPT,
        AnalysisKind::Technical => TECHNICAL_PROMPT,
        AnalysisKind::Debug => DEBUG_PROMPT,
        AnalysisKind::General => GENERIC_ANALYSIS_PROMPT,
    }
}

} // verus!
