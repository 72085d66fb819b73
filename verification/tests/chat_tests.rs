use pagi_api::ChatChoice;
use pagi_api::ChatChoiceMessage;
use pagi_api::ChatError;
use pagi_api::ChatOutcome;
use pagi_api::ChatResponse;
use pagi_api::LLMProvider;
use pagi_api::PAGIConfig;
use pagi_api::complete_chat;
use pagi_api::first_choice_text;
use pagi_api::is_success_status;

fn provider() -> LLMProvider {
    let config = PAGIConfig::from_env(Some("sk-or-key".to_string()), None, None, None, None, None)
        .unwrap();
    LLMProvider::new(config)
}

fn response_with(contents: &[&str]) -> ChatResponse {
    let mut choices = Vec::new();
    for c in contents {
        choices.push(ChatChoice { message: ChatChoiceMessage { content: c.to_string() } });
    }
    ChatResponse { id: None, choices }
}

#[test]
fn request_has_two_ordered_messages() {
    let p = provider();
    let r = p.build_chat_request("what happened?", "you are an analyst", None);
    assert_eq!(r.messages.len(), 2);
    assert_eq!(r.messages[0].role, "system");
    assert_eq!(r.messages[0].content, "you are an analyst");
    assert_eq!(r.messages[1].role, "user");
    assert_eq!(r.messages[1].content, "what happened?");
}

#[test]
fn model_override_is_used() {
    let p = provider();
    let r = p.build_chat_request("q", "s", Some("mistralai/mistral-small"));
    assert_eq!(r.model, "mistralai/mistral-small");
}

#[test]
fn default_model_is_used_without_override() {
    let p = provider();
    let r = p.build_chat_request("q", "s", None);
    assert_eq!(r.model, "openai/gpt-4o-mini");
}

#[test]
fn http_request_has_fixed_endpoint_and_headers() {
    let p = provider();
    let r = p.build_http_request("q", "s", None);
    assert_eq!(r.url, "https://openrouter.ai/api/v1/chat/completions");
    assert_eq!(r.bearer_token, "sk-or-key");
    assert_eq!(r.referer, "https://localhost");
    assert_eq!(r.title, "pagi-external-api-lib");
    assert_eq!(r.body.messages.len(), 2);
}

#[test]
fn empty_choices_yield_empty_string() {
    let t = first_choice_text(response_with(&[]));
    assert_eq!(t, "");
}

#[test]
fn single_choice_hello_yields_hello() {
    let t = first_choice_text(response_with(&["hello"]));
    assert_eq!(t, "hello");
}

#[test]
fn only_the_first_choice_is_surfaced() {
    let t = first_choice_text(response_with(&["first", "second"]));
    assert_eq!(t, "first");
}

#[test]
fn successful_round_trip_yields_text() {
    let outcome = ChatOutcome::HttpResponse {
        status: 200,
        body: Some(response_with(&["hello"])),
    };
    assert_eq!(complete_chat(outcome), Ok("hello".to_string()));
}

#[test]
fn empty_choices_round_trip_is_not_an_error() {
    let outcome = ChatOutcome::HttpResponse { status: 200, body: Some(response_with(&[])) };
    assert_eq!(complete_chat(outcome), Ok(String::new()));
}

#[test]
fn non_success_status_is_an_error() {
    let outcome = ChatOutcome::HttpResponse { status: 404, body: None };
    assert_eq!(complete_chat(outcome), Err(ChatError::HttpStatus(404)));
}

#[test]
fn non_success_status_yields_no_partial_text() {
    let outcome = ChatOutcome::HttpResponse {
        status: 500,
        body: Some(response_with(&["stale body"])),
    };
    assert_eq!(complete_chat(outcome), Err(ChatError::HttpStatus(500)));
}

#[test]
fn transport_failure_is_an_error() {
    assert_eq!(complete_chat(ChatOutcome::TransportFailure), Err(ChatError::Transport));
}

#[test]
fn malformed_body_is_an_error() {
    let outcome = ChatOutcome::HttpResponse { status: 200, body: None };
    assert_eq!(complete_chat(outcome), Err(ChatError::MalformedResponse));
}

#[test]
fn success_status_boundaries() {
    assert!(!is_success_status(199));
    assert!(is_success_status(200));
    assert!(is_success_status(299));
    assert!(!is_success_status(300));
    assert!(!is_success_status(302));
}
