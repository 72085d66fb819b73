//! Configuration and request/response logic for a small facade over three
//! external services: an LLM chat-completion API, an issue tracker, and an
//! endpoint-isolation service.
//!
//! The library holds the decision logic: assembling a configuration from the
//! readings of the process environment, building the outgoing chat request,
//! interpreting the outcome of the round trip, and the stub clients'
//! credential checks. Reading the environment and performing the HTTP round
//! trip are left to the embedding program.

pub mod api_clients;
pub mod config;
pub mod llm_provider;

pub use api_clients::CrowdstrikeClient;
pub use api_clients::HostIsolator;
pub use api_clients::IssueTracker;
pub use api_clients::JiraClient;
pub use config::ConfigError;
pub use config::PAGIConfig;
pub use llm_provider::ChatChoice;
pub use llm_provider::ChatChoiceMessage;
pub use llm_provider::ChatError;
pub use llm_provider::ChatHttpRequest;
pub use llm_provider::ChatMessage;
pub use llm_provider::ChatOutcome;
pub use llm_provider::ChatRequest;
pub use llm_provider::ChatResponse;
pub use llm_provider::LLMProvider;
pub use llm_provider::complete_chat;
pub use llm_provider::first_choice_text;
pub use llm_provider::is_success_status;
