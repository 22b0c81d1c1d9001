//! The adapter for a chat endpoint of the user's own: its settings, the body
//! of the request that is posted to it, and the text that is read out of its
//! answer. Sending and receiving is left to the caller.

use vstd::prelude::*;

verus! {

/// Who a chat message comes from.
#[derive(Debug, Clone, Copy, PartialEq, Eq, Structural)]
pub enum ChatRole {
    User,
    Assistant,
}

/// The name under which a role goes over the wire.
pub open spec fn role_name(role: ChatRole) -> Seq<char> {
    match role {
        ChatRole::User => "user"@,
        ChatRole::Assistant => "assistant"@,
    }
}

/// The model of a chat message.
pub struct ChatMessageView {
    pub role: ChatRole,
    pub content: Seq<char>,
}

/// One message of a conversation.
#[derive(Debug, Clone, PartialEq, Eq)]
pub struct ChatMessage {
    pub role: ChatRole,
    pub content: String,
}

impl View for ChatMessage {
    type V = ChatMessageView;

    open spec fn view(&self) -> ChatMessageView {
        ChatMessageView { role: self.role, content: self.content@ }
    }
}

impl DeepView for ChatMessage {
    type V = ChatMessageView;

    open spec fn deep_view(&self) -> ChatMessageView {
        self@
    }
}

/// The model of a message in a request body.
pub struct WireMessageView {
    pub role: Seq<char>,
    pub content: Seq<char>,
}

/// A message as it stands in a request body.
#[derive(Debug, Clone, PartialEq, Eq)]
pub struct AIGCWLLMChatMessage {
    pub role: String,
    pub content: String,
}

impl View for AIGCWLLMChatMessage {
    type V = WireMessageView;

    open spec fn view(&self) -> WireMessageView {
        WireMessageView { role: self.role@, content: self.content@ }
    }
}

impl DeepView for AIGCWLLMChatMessage {
    type V = WireMessageView;

    open spec fn deep_view(&self) -> WireMessageView {
        self@
    }
}

/// The model of a request body.
pub struct ChatRequestView {
    pub model: Seq<char>,
    pub messages: Seq<WireMessageView>,
}

/// The body of a chat request.
#[derive(Debug, Clone, PartialEq, Eq)]
pub struct AIGCWLLMChatRequest {
    pub model: String,
    pub messages: Vec<AIGCWLLMChatMessage>,
}

impl View for AIGCWLLMChatRequest {
    type V = ChatRequestView;

    open spec fn view(&self) -> ChatRequestView {
        ChatRequestView { model: self.model@, messages: self.messages.deep_view() }
    }
}

/// The messages of a request body: the system message first, where one is
/// configured, then the conversation in its order, each message under the
/// name of its role.
pub open spec fn request_messages(
    system: Option<Seq<char>>,
    messages: Seq<ChatMessageView>,
) -> Seq<WireMessageView> {
    (match system {
        Some(text) => seq![WireMessageView { role: "system"@, content: text }],
        None => Seq::empty(),
    }) + Seq::new(
        messages.len(),
        |i: int|
            WireMessageView { role: role_name(messages[i].role), content: messages[i].content },
    )
}

/// The model that is asked for where the settings name none.
pub open spec fn default_model() -> Seq<char> {
    "deepseek-chat"@
}

/// The model of the adapter's settings.
pub struct AIGCWLLMView {
    pub url: Seq<char>,
    pub api_key: Option<Seq<char>>,
    pub model: Seq<char>,
    pub max_tokens: Option<u32>,
    pub system: Option<Seq<char>>,
    pub timeout_seconds: Option<u64>,
    pub stream: Option<bool>,
    pub top_k: Option<u32>,
}

/// The settings of the adapter: where it posts to, the key it authenticates
/// with and the model it asks for.
#[derive(Debug, Clone, PartialEq, Eq)]
pub struct AIGCWLLM {
    pub url: String,
    pub api_key: Option<String>,
    pub model: String,
    pub max_tokens: Option<u32>,
    pub system: Option<String>,
    pub timeout_seconds: Option<u64>,
    pub stream: Option<bool>,
    pub top_k: Option<u32>,
}

impl View for AIGCWLLM {
    type V = AIGCWLLMView;

    open spec fn view(&self) -> AIGCWLLMView {
        AIGCWLLMView {
            url: self.url@,
            api_key: self.api_key.deep_view(),
            model: self.model@,
            max_tokens: self.max_tokens,
            system: self.system.deep_view(),
            timeout_seconds: self.timeout_seconds,
            stream: self.stream,
            top_k: self.top_k,
        }
    }
}

/// The name of a role as a string of its own.
pub fn role_string(role: ChatRole) -> (name: String)
    ensures
        name@ == role_name(role),
{
    match role {
        ChatRole::User => "user".to_owned(),
        ChatRole::Assistant => "assistant".to_owned(),
    }
}

impl AIGCWLLM {
    /// The settings of an adapter for the endpoint at `url`. Where no model is
    /// named, `deepseek-chat` is asked for.
    pub fn new(
        url: String,
        api_key: String,
        model: Option<String>,
        max_tokens: Option<u32>,
        timeout_seconds: Option<u64>,
        system: Option<String>,
        stream: Option<bool>,
    ) -> (llm: AIGCWLLM)
        ensures
            llm@ == (AIGCWLLMView {
                url: url@,
                api_key: Some(api_key@),
                model: match model {
                    Some(name) => name@,
                    None => default_model(),
                },
                max_tokens,
                system: system.deep_view(),
                timeout_seconds,
                stream,
                top_k: None,
            }),
    {
        let model = match model {
            Some(name) => name,
            None => "deepseek-chat".to_owned(),
        };
        AIGCWLLM {
            url,
            api_key: Some(api_key),
            model,
            max_tokens,
            system,
            timeout_seconds,
            stream,
            top_k: None,
        }
    }

    /// The body of the request that asks for an answer to the conversation.
    pub fn chat_request(&self, messages: &Vec<ChatMessage>) -> (request: AIGCWLLMChatRequest)
        ensures
            request@ == (ChatRequestView {
                model: self.model@,
                messages: request_messages(self.system.deep_view(), messages.deep_view()),
            }),
    {
        let mut wire: Vec<AIGCWLLMChatMessage> = Vec::new();
        let n = messages.len();
        let mut i: usize = 0;
        while i < n
            invariant
                i <= n,
                n == messages.len(),
                wire.len() == i,
                forall|j: int|
                    0 <= j < i ==> wire[j]@ == (WireMessageView {
                        role: role_name(messages[j].role),
                        content: messages[j].content@,
                    }),
            decreases n - i,
        {
            let message = &messages[i];
            wire.push(
                AIGCWLLMChatMessage {
                    role: role_string(message.role),
                    content: message.content.clone(),
                },
            );
            i += 1;
        }
        match &self.system {
            Some(text) => {
                wire.insert(
                    0,
                    AIGCWLLMChatMessage { role: "system".to_owned(), content: text.clone() },
                );
                assert(wire.deep_view() =~= request_messages(
                    self.system.deep_view(),
                    messages.deep_view(),
                ));
            },
            None => {
                assert(wire.deep_view() =~= request_messages(
                    self.system.deep_view(),
                    messages.deep_view(),
                ));
            },
        }
        AIGCWLLMChatRequest { model: self.model.clone(), messages: wire }
    }
}

/// The text of one answer.
#[derive(Debug, Clone, PartialEq, Eq)]
pub struct AIGCWLLMChatMsg {
    pub content: String,
}

/// One answer that the endpoint offers.
#[derive(Debug, Clone, PartialEq, Eq)]
pub struct AIGCWLLMChatChoice {
    pub message: AIGCWLLMChatMsg,
}

/// What the endpoint answers to a chat request.
#[derive(Debug, Clone, PartialEq, Eq)]
pub struct AIGCWLLMChatResponse {
    pub choices: Vec<AIGCWLLMChatChoice>,
}

impl View for AIGCWLLMChatResponse {
    type V = Seq<Seq<char>>;

    /// The texts of the answers, in their order.
    open spec fn view(&self) -> Seq<Seq<char>> {
        Seq::new(self.choices.len() as nat, |i: int| self.choices[i].message.content@)
    }
}

/// The text of a response: that of its first answer, unless there is no
/// answer or the first one is empty.
pub open spec fn response_text(choices: Seq<Seq<char>>) -> Option<Seq<char>> {
    if choices.len() == 0 || choices[0].len() == 0 {
        None
    } else {
        Some(choices[0])
    }
}

impl AIGCWLLMChatResponse {
    /// The text of the first answer; none where there is no answer or the
    /// first one is empty.
    pub fn text(&self) -> (text: Option<String>)
        ensures
            text.deep_view() == response_text(self@),
    {
        if self.choices.len() == 0 {
            return None;
        }
        let content = &self.choices[0].message.content;
        if content.as_str().is_empty() {
            None
        } else {
            Some(content.clone())
        }
    }
}

impl Default for AIGCWLLMChatResponse {
    fn default() -> (response: AIGCWLLMChatResponse)
        ensures
            response@ == Seq::<Seq<char>>::empty(),
    {
        let response = AIGCWLLMChatResponse { choices: Vec::new() };
        response
    }
}

} // verus!
