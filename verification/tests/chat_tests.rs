//! Tests for the chat page's state machine.

use ergon::chat::{ChatAction, ChatEffect, ChatMessage, Sender, State};
use ergon::models::{Choice, Clients, CompletionResponse, Message, ModelInfo};

fn test_state(input: &str) -> State {
    State {
        input_value: input.to_string(),
        messages: vec![],
        selected_model: Some("gpt-4o-mini".to_string()),
        available_models: vec![ModelInfo {
            name: "gpt-4o-mini".to_string(),
            id: "gpt-4o-mini".to_string(),
            client: Clients::OpenAI,
        }],
        available_tools: vec![],
        awaiting_response: false,
    }
}

fn default_state() -> State {
    State {
        input_value: String::new(),
        messages: vec![],
        selected_model: None,
        available_models: vec![],
        available_tools: vec![],
        awaiting_response: false,
    }
}

fn mock_complete_message(_messages: Vec<ChatMessage>) -> Result<String, String> {
    Ok("Mocked response".to_string())
}

fn mock_failt_complete_message() -> Result<String, String> {
    Err("Mocked bot response".to_string())
}

#[test]
fn chat_test_input_changed() {
    let mut state = default_state();

    let message = ChatAction::InputChanged("Hello, world!".to_string());
    let _ = state.update(message);

    assert_eq!(state.input_value, "Hello, world!");
}

#[test]
fn state_test_input_changed() {
    let mut state = default_state();

    let message = ChatAction::InputChanged("Hello, world!".to_string());
    let _ = state.update(message);

    assert_eq!(state.input_value, "Hello, world!");
}

#[test]
fn chat_test_send_message() {
    let mut state = test_state("This is a test");

    let message = ChatAction::SendMessage;
    let _ = state.update(message);
    let result_action = mock_complete_message(state.messages.clone());

    assert_eq!(state.messages.len(), 1);

    assert_eq!(state.messages[0].sender, Sender::User);
    assert_eq!(state.messages[0].content, "This is a test");

    assert!(result_action.is_ok());
}

#[test]
fn state_test_send_message() {
    let mut state = test_state("This is a test");

    let message = ChatAction::SendMessage;
    let _ = state.update(message);
    assert!(state.awaiting_response);
    let result_action = mock_complete_message(state.messages.clone());

    assert_eq!(state.messages.len(), 1);

    assert_eq!(state.messages[0].sender, Sender::User);
    assert_eq!(state.messages[0].content, "This is a test");

    assert!(result_action.is_ok());
}

#[test]
fn chat_test_send_message_error() {
    let mut state = test_state("This is a test");

    let message = ChatAction::SendMessage;
    let _ = state.update(message);
    let result_action = mock_failt_complete_message();

    assert_eq!(state.messages.len(), 1);

    assert_eq!(state.messages[0].sender, Sender::User);
    assert_eq!(state.messages[0].content, "This is a test");

    assert!(result_action.is_err());
}

#[test]
fn state_test_send_message_error() {
    let mut state = test_state("This is a test");

    let message = ChatAction::SendMessage;
    let _ = state.update(message);
    assert!(state.awaiting_response);
    let result_action = mock_failt_complete_message();

    assert_eq!(state.messages.len(), 1);

    assert_eq!(state.messages[0].sender, Sender::User);
    assert_eq!(state.messages[0].content, "This is a test");

    assert!(result_action.is_err());
}

#[test]
fn chat_test_send_empty_message() {
    let mut state = default_state();

    let message = ChatAction::SendMessage;
    let _ = state.update(message);

    assert!(state.messages.is_empty());
}

#[test]
fn state_test_send_empty_message() {
    let mut state = default_state();

    let message = ChatAction::SendMessage;
    let _ = state.update(message);

    assert!(state.messages.is_empty());
}

fn state_with_hello() -> State {
    State {
        input_value: "Hello".to_string(),
        messages: vec![ChatMessage {
            sender: Sender::User,
            content: "Hello".to_string(),
        }],
        selected_model: Some("gpt-4o-mini".to_string()),
        available_models: vec![ModelInfo {
            name: "gpt-4o-mini".to_string(),
            id: "gpt-4o-mini".to_string(),
            client: Clients::OpenAI,
        }],
        available_tools: vec![],
        awaiting_response: true,
    }
}

#[test]
fn chat_test_response_received() {
    let mut state = state_with_hello();

    let response = ChatAction::ResponseReceived(CompletionResponse {
        id: "resp1".to_string(),
        object: "chat.completion".to_string(),
        created: 0,
        model: "gpt-4o-mini".to_string(),
        choices: vec![Choice {
            index: 0,
            messages: vec![Message::assistant("Hi there!")],
            finish_reason: "stop".to_string(),
        }],
    });
    let _ = state.update(response);

    assert_eq!(state.messages.len(), 2);
    assert_eq!(state.messages[1].sender, Sender::Bot);
    assert_eq!(state.messages[1].content, "Hi there!");
    assert!(state.input_value.is_empty());
}

#[test]
fn state_test_response_received() {
    let mut state = state_with_hello();

    let response = ChatAction::ResponseReceived(CompletionResponse {
        id: "resp1".to_string(),
        object: "chat.completion".to_string(),
        created: 0,
        model: "gpt-4o-mini".to_string(),
        choices: vec![Choice {
            index: 0,
            messages: vec![Message::assistant("Hi there!")],
            finish_reason: "stop".to_string(),
        }],
    });
    let _ = state.update(response);

    assert_eq!(state.messages.len(), 2);
    assert_eq!(state.messages[1].sender, Sender::Bot);
    assert_eq!(state.messages[1].content, "Hi there!");
    assert!(state.input_value.is_empty());
    assert!(!state.awaiting_response);
}

#[test]
fn state_test_response_received_error() {
    let mut state = state_with_hello();

    let response = ChatAction::ResponseReceived(CompletionResponse {
        id: "error".to_string(),
        object: "chat.completion".to_string(),
        created: 0,
        model: "gpt-4o-mini".to_string(),
        choices: vec![],
    });
    let _ = state.update(response);

    assert_eq!(state.messages.len(), 2);
    assert_eq!(state.messages[1].sender, Sender::Bot);
    assert_eq!(state.messages[1].content, "Error: No response from model.");
    assert!(state.input_value.is_empty());
    assert!(!state.awaiting_response);
}

#[test]
fn chat_test_model_selection() {
    let mut state = default_state();
    let model_name = "gpt-4o-mini".to_string();

    let action = ChatAction::ModelSelected(model_name.clone());
    let _ = state.update(action);

    assert_eq!(state.selected_model, Some(model_name));
}

#[test]
fn state_test_model_selection() {
    let mut state = default_state();
    let model_name = "gpt-4o-mini".to_string();

    let action = ChatAction::ModelSelected(model_name.clone());
    let _ = state.update(action);

    assert_eq!(state.selected_model, Some(model_name));
}

#[test]
fn send_message_requests_selected_model() {
    let mut state = test_state("hello");
    match state.update(ChatAction::SendMessage) {
        ChatEffect::RequestCompletion {
            messages,
            client,
            model,
            tools,
        } => {
            assert_eq!(messages.len(), 1);
            assert_eq!(messages[0].content, "hello");
            assert!(matches!(client, Clients::OpenAI));
            assert_eq!(model, "gpt-4o-mini");
            assert!(tools.is_empty());
        }
        _ => panic!("Expected a completion request"),
    }
}

#[test]
fn send_message_falls_back_to_default_model() {
    let mut state = test_state("hello");
    state.selected_model = Some("no-such-model".to_string());
    match state.update(ChatAction::SendMessage) {
        ChatEffect::RequestCompletion { client, model, .. } => {
            assert!(matches!(client, Clients::OpenAI));
            assert_eq!(model, "gpt-4o-mini");
        }
        _ => panic!("Expected a completion request"),
    }
}

#[test]
fn models_loaded_picks_first_model() {
    let mut state = default_state();
    state.awaiting_response = true;
    let _ = state.update(ChatAction::ModelsLoaded(vec![
        ModelInfo {
            name: "alpha".to_string(),
            id: "alpha-1".to_string(),
            client: Clients::Vllm,
        },
        ModelInfo {
            name: "beta".to_string(),
            id: "beta-2".to_string(),
            client: Clients::Anthropic,
        },
    ]));
    assert_eq!(state.selected_model, Some("alpha".to_string()));
    assert!(!state.awaiting_response);
}

#[test]
fn reply_keeps_every_content_block() {
    // A reply whose message carries a text block, an image block and a
    // tool-use block adds one line per block, each under its total textual
    // projection: nothing the model returned is silently dropped.
    let mut state = state_with_hello();
    let reply = Message {
        role: ergon::models::Role::Assistant,
        content: vec![
            ergon::models::Content::text("look at this:"),
            ergon::models::Content::image_url("https://example.com/photo.jpg"),
            ergon::models::Content::tool_use("id-1", "calc__add", "{}".to_string()),
        ],
        tool_calls: None,
        tool_call_id: None,
    };
    let response = ChatAction::ResponseReceived(CompletionResponse {
        id: "resp1".to_string(),
        object: "chat.completion".to_string(),
        created: 0,
        model: "gpt-4o-mini".to_string(),
        choices: vec![Choice {
            index: 0,
            messages: vec![reply],
            finish_reason: "stop".to_string(),
        }],
    });
    let _ = state.update(response);

    assert_eq!(state.messages.len(), 4);
    assert_eq!(state.messages[1].content, "look at this:");
    assert_eq!(state.messages[2].content, "https://example.com/photo.jpg");
    assert_eq!(state.messages[3].content, "calc__add");
    assert!(state.messages[1..].iter().all(|m| m.sender == Sender::Bot));
}

#[test]
fn send_while_awaiting_is_rejected() {
    let mut state = test_state("second question");
    state.awaiting_response = true;
    let before = state.messages.len();
    let effect = state.update(ChatAction::SendMessage);
    assert!(matches!(effect, ChatEffect::Rejected));
    assert_eq!(state.messages.len(), before);
    assert_eq!(state.input_value, "second question");
}

#[test]
fn new_chat_asks_for_models() {
    let (state, effect) = State::new();
    assert!(state.awaiting_response);
    assert!(state.messages.is_empty());
    assert!(matches!(effect, ChatEffect::LoadModels));
}

#[test]
fn fallback_models_hold_the_default() {
    let models = ergon::chat::fallback_models();
    assert_eq!(models.len(), 1);
    assert_eq!(models[0].name, "gpt-4o-mini");
    assert_eq!(models[0].id, "gpt-4o-mini");
    assert!(matches!(models[0].client, Clients::OpenAI));
}
