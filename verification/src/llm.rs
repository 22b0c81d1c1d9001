//! Drafting a commit message with a language model: the prompt, and the
//! choice of the service that is asked, from the provider settings. The
//! request itself is made by the caller.

use vstd::prelude::*;
use crate::app_config::{LLMConfig, LLMConfigView, LLMProvider};
use crate::customer_llm_backend::{AIGCWLLM, AIGCWLLMView, ChatMessage, ChatMessageView, ChatRole};
use crate::text::concat3;

verus! {

/// The services that a generic client exists for.
#[derive(Debug, Clone, Copy, PartialEq, Eq, Structural)]
pub enum LLMBackend {
    OpenAI,
    Anthropic,
    Ollama,
    DeepSeek,
    XAI,
    Phind,
}

/// The generic client's service for a provider, where there is one.
pub open spec fn backend_of(provider: LLMProvider) -> Option<LLMBackend> {
    match provider {
        LLMProvider::OpenAI => Some(LLMBackend::OpenAI),
        LLMProvider::Anthropic => Some(LLMBackend::Anthropic),
        LLMProvider::Ollama => Some(LLMBackend::Ollama),
        LLMProvider::DeepSeek => Some(LLMBackend::DeepSeek),
        LLMProvider::XAI => Some(LLMBackend::XAI),
        LLMProvider::Phind => Some(LLMBackend::Phind),
        LLMProvider::Google => None,
        LLMProvider::Groq => None,
        LLMProvider::CUSTOM => None,
    }
}

impl LLMProvider {
    /// The generic client's service for this provider; none for the user's
    /// own endpoint and for the providers that the generic client lacks.
    pub fn backend(&self) -> (backend: Option<LLMBackend>)
        ensures
            backend == backend_of(*self),
    {
        match self {
            LLMProvider::OpenAI => Some(LLMBackend::OpenAI),
            LLMProvider::Anthropic => Some(LLMBackend::Anthropic),
            LLMProvider::Ollama => Some(LLMBackend::Ollama),
            LLMProvider::DeepSeek => Some(LLMBackend::DeepSeek),
            LLMProvider::XAI => Some(LLMBackend::XAI),
            LLMProvider::Phind => Some(LLMBackend::Phind),
            _ => None,
        }
    }
}

/// The prompt up to the commit type.
pub const PROMPT_HEAD: &'static str = "Generate a concise git commit message based on the \
    selected commit type and diff. Requirements:\n\
    \n\
    1. Commit type [";

/// The prompt between the commit type and the diff.
pub const PROMPT_BODY: &'static str = "] defines the message's intent, but should NOT appear in \
    output\n\
    2. Start with a strong action verb aligned with the type's purpose (add/fix/improve/etc)\n\
    3. Focus on user-facing value specific to the commit type\n\
    4. Maximum 12 words, no technical details/paths/code\n\
    \n\
    Type-verb mapping guidance:\n\
    • feat: add, introduce, implement, enable\n\
    • fix: resolve, prevent, avoid, repair\n\
    • perf: optimize, reduce, accelerate, speed up\n\
    • docs: document, describe, clarify\n\
    • test: verify, validate, check\n\
    \n\
    Examples (type in brackets for reference only):\n\
    [feat] → Add quick filters to report dashboard\n\
    [fix] → Retain form data after network errors\n\
    [perf] → Reduce PDF generation memory usage\n\
    [docs] → Clarify multi-factor auth setup steps\n\
    \n\
    Diff to analyze:\n";

/// The prompt that asks for a message of the given commit type for the given
/// diff: the fixed text with the type and the diff in their places.
pub open spec fn prompt_text(commit_type: Seq<char>, diff: Seq<char>) -> Seq<char> {
    PROMPT_HEAD@ + commit_type + PROMPT_BODY@ + diff
}

/// The prompt for a commit type and a diff.
pub fn build_prompt(commit_type: &str, diff: &str) -> (prompt: String)
    ensures
        prompt@ == prompt_text(commit_type@, diff@),
{
    let mut prompt = concat3(PROMPT_HEAD, commit_type, PROMPT_BODY);
    prompt.append(diff);
    prompt
}

/// The seconds after which a request to the user's own endpoint is given up.
pub const CUSTOM_TIMEOUT_SECONDS: u64 = 60;

/// The model of a plan.
pub enum GenerationPlanView {
    Disabled,
    Custom { llm: AIGCWLLMView, messages: Seq<ChatMessageView> },
    Provider {
        backend: LLMBackend,
        api_key: Seq<char>,
        model: Seq<char>,
        stream: bool,
        messages: Seq<ChatMessageView>,
    },
}

/// How a message is drafted.
#[derive(Debug, Clone, PartialEq, Eq)]
pub enum GenerationPlan {
    /// Drafting is switched off: the drafted message is empty.
    Disabled,
    /// The conversation is sent to the user's own endpoint.
    Custom { llm: AIGCWLLM, messages: Vec<ChatMessage> },
    /// The conversation is sent to a service through the generic client.
    Provider {
        backend: LLMBackend,
        api_key: String,
        model: String,
        stream: bool,
        messages: Vec<ChatMessage>,
    },
}

impl View for GenerationPlan {
    type V = GenerationPlanView;

    open spec fn view(&self) -> GenerationPlanView {
        match *self {
            GenerationPlan::Disabled => GenerationPlanView::Disabled,
            GenerationPlan::Custom { llm, messages } => GenerationPlanView::Custom {
                llm: llm@,
                messages: messages.deep_view(),
            },
            GenerationPlan::Provider {
                backend,
                api_key,
                model,
                stream,
                messages,
            } => GenerationPlanView::Provider {
                backend,
                api_key: api_key@,
                model: model@,
                stream,
                messages: messages.deep_view(),
            },
        }
    }
}

/// Why no message can be drafted with the settings.
#[derive(Debug, Clone, Copy, PartialEq, Eq, Structural)]
pub enum SettingsError {
    /// The settings lack what their provider needs.
    Incomplete,
    /// The generic client has no service for the provider.
    UnsupportedProvider,
}

/// The conversation that asks for a message: the prompt, said by the user.
pub open spec fn prompt_messages(commit_type: Seq<char>, diff: Seq<char>) -> Seq<ChatMessageView> {
    seq![ChatMessageView { role: ChatRole::User, content: prompt_text(commit_type, diff) }]
}

/// The settings of the adapter for the user's own endpoint.
pub open spec fn custom_llm(
    url: Seq<char>,
    api_key: Seq<char>,
    model: Option<Seq<char>>,
) -> AIGCWLLMView {
    AIGCWLLMView {
        url,
        api_key: Some(api_key),
        model: match model {
            Some(name) => name,
            None => crate::customer_llm_backend::default_model(),
        },
        max_tokens: None,
        system: None,
        timeout_seconds: Some(CUSTOM_TIMEOUT_SECONDS),
        stream: None,
        top_k: None,
    }
}

/// How a message of the given commit type is drafted for the given diff.
/// With drafting switched off nothing is asked. The user's own endpoint needs
/// an address and a key; any other provider needs a service of the generic
/// client, a key and a model.
pub open spec fn plan_spec(
    commit_type: Seq<char>,
    diff: Seq<char>,
    config: LLMConfigView,
) -> Result<GenerationPlanView, SettingsError> {
    if !config.enable {
        Ok(GenerationPlanView::Disabled)
    } else if config.is_custom() {
        if config.url is Some && config.api_key is Some {
            Ok(
                GenerationPlanView::Custom {
                    llm: custom_llm(config.url->0, config.api_key->0, config.model),
                    messages: prompt_messages(commit_type, diff),
                },
            )
        } else {
            Err(SettingsError::Incomplete)
        }
    } else if backend_of(config.provider) is None {
        Err(SettingsError::UnsupportedProvider)
    } else if config.api_key is Some && config.model is Some {
        Ok(
            GenerationPlanView::Provider {
                backend: backend_of(config.provider)->0,
                api_key: config.api_key->0,
                model: config.model->0,
                stream: false,
                messages: prompt_messages(commit_type, diff),
            },
        )
    } else {
        Err(SettingsError::Incomplete)
    }
}

/// The model of the outcome of planning.
pub open spec fn plan_result_view(
    result: Result<GenerationPlan, SettingsError>,
) -> Result<GenerationPlanView, SettingsError> {
    match result {
        Ok(plan) => Ok(plan@),
        Err(error) => Err(error),
    }
}

/// The conversation that asks for a message.
fn build_messages(commit_type: &str, diff: &str) -> (messages: Vec<ChatMessage>)
    ensures
        messages.deep_view() == prompt_messages(commit_type@, diff@),
{
    let mut messages: Vec<ChatMessage> = Vec::new();
    messages.push(ChatMessage { role: ChatRole::User, content: build_prompt(commit_type, diff) });
    messages
}

/// Decides how a message of the given commit type is drafted for the given
/// diff, or why it cannot be.
pub fn plan_generation(commit_type: &str, diff: &str, config: &LLMConfig) -> (result: Result<
    GenerationPlan,
    SettingsError,
>)
    ensures
        plan_result_view(result) == plan_spec(commit_type@, diff@, config@),
{
    if !config.enable {
        return Ok(GenerationPlan::Disabled);
    }
    if config.is_custom() {
        match (&config.url, &config.api_key) {
            (Some(url), Some(api_key)) => {
                let llm = AIGCWLLM::new(
                    url.clone(),
                    api_key.clone(),
                    config.model.clone(),
                    None,
                    Some(CUSTOM_TIMEOUT_SECONDS),
                    None,
                    None,
                );
                Ok(GenerationPlan::Custom { llm, messages: build_messages(commit_type, diff) })
            },
            _ => Err(SettingsError::Incomplete),
        }
    } else {
        match config.provider.backend() {
            None => Err(SettingsError::UnsupportedProvider),
            Some(backend) => match (&config.api_key, &config.model) {
                (Some(api_key), Some(model)) => Ok(
                    GenerationPlan::Provider {
                        backend,
                        api_key: api_key.clone(),
                        model: model.clone(),
                        stream: false,
                        messages: build_messages(commit_type, diff),
                    },
                ),
                _ => Err(SettingsError::Incomplete),
            },
        }
    }
}

/// With drafting switched on, a message can be drafted exactly where the
/// settings hold what their provider needs and the provider is the user's
/// own endpoint or one that the generic client has a service for; with
/// drafting switched off the plan is to ask nothing, whatever else the
/// settings hold.
pub proof fn plan_needs_complete_settings(
    commit_type: Seq<char>,
    diff: Seq<char>,
    config: LLMConfigView,
)
    ensures
        !config.enable ==> plan_spec(commit_type, diff, config) == Ok::<
            GenerationPlanView,
            SettingsError,
        >(GenerationPlanView::Disabled),
        config.enable ==> (plan_spec(commit_type, diff, config) is Ok <==> config.complete() && (
        config.is_custom() || backend_of(config.provider) is Some)),
        config.enable && plan_spec(commit_type, diff, config) is Ok ==> !(plan_spec(
            commit_type,
            diff,
            config,
        )->Ok_0 is Disabled),
{
}

} // verus!
