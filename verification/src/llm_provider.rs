//! Chat-completion client logic.
//!
//! One chat call is a single round trip: the provider builds the outgoing
//! request from its configuration and the caller's prompts, the embedding
//! program performs the HTTP POST and reports a [`ChatOutcome`], and
//! [`complete_chat`] turns that outcome into the surfaced text or the single
//! error category.

use vstd::prelude::*;

use crate::config::PAGIConfig;

verus! {

/// One role/content entry of the outgoing message list.
#[derive(Debug, Clone)]
pub struct ChatMessage {
    pub role: String,
    pub content: String,
}

/// The body of an outgoing chat-completions request.
#[derive(Debug, Clone)]
pub struct ChatRequest {
    pub model: String,
    pub messages: Vec<ChatMessage>,
}

/// The full outgoing HTTP request of one chat call: fixed endpoint, bearer
/// token, the two static identification headers, and the JSON body.
#[derive(Debug, Clone)]
pub struct ChatHttpRequest {
    pub url: String,
    pub bearer_token: String,
    pub referer: String,
    pub title: String,
    pub body: ChatRequest,
}

/// The message of one candidate completion.
#[derive(Debug, Clone)]
pub struct ChatChoiceMessage {
    pub content: String,
}

/// One candidate completion of the reply.
#[derive(Debug, Clone)]
pub struct ChatChoice {
    pub message: ChatChoiceMessage,
}

/// The reply parsed from the remote endpoint. The identifier is ignored
/// downstream; only the first candidate's text is surfaced.
#[derive(Debug, Clone)]
pub struct ChatResponse {
    pub id: Option<String>,
    pub choices: Vec<ChatChoice>,
}

/// The fixed chat-completions endpoint.
pub open spec fn chat_completions_url() -> Seq<char> {
    "https://openrouter.ai/api/v1/chat/completions"@
}

/// The static referer identification header value.
pub open spec fn referer_header_value() -> Seq<char> {
    "https://localhost"@
}

/// The static title identification header value.
pub open spec fn title_header_value() -> Seq<char> {
    "pagi-external-api-lib"@
}

/// The request body one chat call sends: the explicit override as model if
/// one was given, else the configured default, and exactly two messages in
/// order — the system prompt, then the user prompt.
pub open spec fn is_chat_body_for(
    r: ChatRequest,
    default_model: Seq<char>,
    prompt: Seq<char>,
    system_prompt: Seq<char>,
    model_override: Option<&str>,
) -> bool {
    &&& r.model@ == (match model_override {
        Some(m) => m@,
        None => default_model,
    })
    &&& r.messages@.len() == 2
    &&& r.messages@[0].role@ == "system"@
    &&& r.messages@[0].content@ == system_prompt
    &&& r.messages@[1].role@ == "user"@
    &&& r.messages@[1].content@ == prompt
}

/// LLM orchestration wrapper: holds the configuration a chat call uses.
#[derive(Debug, Clone)]
pub struct LLMProvider {
    pub config: PAGIConfig,
}

impl LLMProvider {
    /// Creates a provider holding the given configuration.
    pub fn new(config: PAGIConfig) -> (r: LLMProvider)
        ensures
            r.config == config,
    {
        LLMProvider { config }
    }

    /// Builds the body of the outgoing request: the effective model and the
    /// two-entry message list, system prompt before user prompt.
    pub fn build_chat_request(
        &self,
        prompt: &str,
        system_prompt: &str,
        model: Option<&str>,
    ) -> (r: ChatRequest)
        ensures
            is_chat_body_for(r, self.config.default_model@, prompt@, system_prompt@, model),
    {
        let model_name: String = match model {
            Some(m) => m.to_owned(),
            None => self.config.default_model.clone(),
        };
        let mut messages: Vec<ChatMessage> = Vec::new();
        messages.push(
            ChatMessage { role: "system".to_owned(), content: system_prompt.to_owned() },
        );
        messages.push(ChatMessage { role: "user".to_owned(), content: prompt.to_owned() });
        ChatRequest { model: model_name, messages }
    }

    /// Builds the full outgoing HTTP request: the fixed endpoint, the bearer
    /// token from configuration, the two static identification headers, and
    /// the body of [`Self::build_chat_request`].
    pub fn build_http_request(
        &self,
        prompt: &str,
        system_prompt: &str,
        model: Option<&str>,
    ) -> (r: ChatHttpRequest)
        ensures
            r.url@ == chat_completions_url(),
            r.bearer_token@ == self.config.openrouter_api_key@,
            r.referer@ == referer_header_value(),
            r.title@ == title_header_value(),
            is_chat_body_for(r.body, self.config.default_model@, prompt@, system_prompt@, model),
    {
        ChatHttpRequest {
            url: "https://openrouter.ai/api/v1/chat/completions".to_owned(),
            bearer_token: self.config.openrouter_api_key.clone(),
            referer: "https://localhost".to_owned(),
            title: "pagi-external-api-lib".to_owned(),
            body: self.build_chat_request(prompt, system_prompt, model),
        }
    }
}

/// The text a reply surfaces: the first candidate's message content, or the
/// empty sequence when the candidate list is empty.
pub open spec fn surfaced_text(r: ChatResponse) -> Seq<char> {
    if r.choices@.len() == 0 {
        Seq::<char>::empty()
    } else {
        r.choices@[0].message.content@
    }
}

/// Returns the first candidate's message text, or the empty string when the
/// candidate list is empty — a deliberate leniency, not an error.
pub fn first_choice_text(resp: ChatResponse) -> (t: String)
    ensures
        t@ == surfaced_text(resp),
{
    let mut choices = resp.choices;
    if choices.len() == 0 {
        String::new()
    } else {
        let first = choices.remove(0);
        first.message.content
    }
}

/// Whether an HTTP status code counts as success.
pub open spec fn status_is_success(status: u16) -> bool {
    200 <= status < 300
}

/// Decides, for the embedding program, whether a response's status counts as
/// success — only then is its body worth reading.
pub fn is_success_status(status: u16) -> (r: bool)
    ensures
        r == status_is_success(status),
{
    200 <= status && status < 300
}

/// What one chat round trip produced, as the embedding program reports it.
#[derive(Debug, Clone)]
pub enum ChatOutcome {
    /// The request could not be sent or no response arrived.
    TransportFailure,
    /// A response arrived with this status; `body` holds its parsed body, or
    /// `None` where the body was not read or did not conform.
    HttpResponse { status: u16, body: Option<ChatResponse> },
}

/// The single error category a chat call surfaces. No error is retried.
#[derive(Debug, Clone, PartialEq, Eq, Structural)]
pub enum ChatError {
    /// The request could not be sent or no response arrived.
    Transport,
    /// The response carried a non-success HTTP status.
    HttpStatus(u16),
    /// The response body was not a conforming chat reply.
    MalformedResponse,
}

/// The result of a chat call, given the outcome of its round trip: the
/// surfaced text when a success status arrived with a conforming body, and
/// otherwise the error naming what went wrong — in particular, any
/// non-success HTTP status is an error and yields no text.
pub fn complete_chat(outcome: ChatOutcome) -> (r: Result<String, ChatError>)
    ensures
        outcome is TransportFailure ==> r == Err::<String, ChatError>(ChatError::Transport),
        outcome matches ChatOutcome::HttpResponse { status, body } ==> ({
            &&& !status_is_success(status) ==> r == Err::<String, ChatError>(
                ChatError::HttpStatus(status),
            )
            &&& status_is_success(status) ==> (match body {
                None => r == Err::<String, ChatError>(ChatError::MalformedResponse),
                Some(resp) => r matches Ok(t) && t@ == surfaced_text(resp),
            })
        }),
{
    match outcome {
        ChatOutcome::TransportFailure => Err(ChatError::Transport),
        ChatOutcome::HttpResponse { status, body } => {
            if !is_success_status(status) {
                Err(ChatError::HttpStatus(status))
            } else {
                match body {
                    None => Err(ChatError::MalformedResponse),
                    Some(resp) => Ok(first_choice_text(resp)),
                }
            }
        },
    }
}

} // verus!
