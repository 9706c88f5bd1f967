//! Tests for the model catalog, the provider adapters' decisions, and the
//! error taxonomy.

use ergon::anthropic::{AnthropicClient, AnthropicMessage, AnthropicMessageContent};
use ergon::chat::error_response;
use ergon::config::{AnthropicConfig, OpenAIConfig, VllmConfig};
use ergon::error::ApiError;
use ergon::models::{Clients, CompletionRequest, Content, Message};
use ergon::openai::{convert_message, filter_gpt_models, OpenAIClient, OpenAIWireContent};
use ergon::router::{Model, ModelManager, ProviderListing};
use ergon::vllm::VllmClient;

fn model(name: &str) -> Model {
    Model {
        name: name.to_string(),
        id: name.to_string(),
    }
}

#[test]
fn partial_catalog_failure_keeps_the_successes() {
    // Two of the three providers fail their listing; the refresh still
    // succeeds and publishes exactly the healthy provider's models.
    let mut manager = ModelManager::new();
    manager.install_models(vec![
        ProviderListing {
            client: Clients::OpenAI,
            models: Err(ApiError::Unauthenticated("API key is not set".to_string())),
        },
        ProviderListing {
            client: Clients::Anthropic,
            models: Err(ApiError::TransportError("timed out".to_string())),
        },
        ProviderListing {
            client: Clients::Vllm,
            models: Ok(vec![model("google/gemma-3-270m")]),
        },
    ]);
    let catalog = manager.get_models();
    assert_eq!(catalog.len(), 1);
    assert_eq!(catalog[0].model.name, "google/gemma-3-270m");
    assert!(matches!(catalog[0].client, Clients::Vllm));
}

#[test]
fn find_model_picks_the_first_match() {
    let mut manager = ModelManager::new();
    manager.install_models(vec![ProviderListing {
        client: Clients::OpenAI,
        models: Ok(vec![model("gpt-4o-mini"), model("gpt-4")]),
    }]);
    let found = manager.find_model("gpt-4").expect("the model is listed");
    assert_eq!(found.model.id, "gpt-4");
    assert!(manager.find_model("missing").is_none());
}

#[test]
fn openai_urls_are_joined_without_double_slashes() {
    let client = OpenAIClient::new(OpenAIConfig {
        api_key: "k".to_string(),
        endpoint: "https://api.openai.com/v1/".to_string(),
    });
    assert_eq!(
        client.completion_url(),
        "https://api.openai.com/v1/chat/completions"
    );
    assert_eq!(client.models_url(), "https://api.openai.com/v1/models");
}

#[test]
fn openai_rejects_empty_transcript_before_any_call() {
    let client = OpenAIClient::new(OpenAIConfig {
        api_key: "k".to_string(),
        endpoint: "https://api.openai.com/v1/".to_string(),
    });
    let request = CompletionRequest {
        model: "gpt-4o-mini".to_string(),
        messages: vec![],
        tools: None,
    };
    match client.prepare_completion(&request) {
        Err(ApiError::InvalidRequest(m)) => assert_eq!(m, "No messages provided"),
        _ => panic!("an empty transcript is a caller error"),
    }
}

#[test]
fn openai_rejects_missing_credential_before_any_call() {
    let client = OpenAIClient::new(OpenAIConfig {
        api_key: String::new(),
        endpoint: "https://api.openai.com/v1/".to_string(),
    });
    let request = CompletionRequest {
        model: "gpt-4o-mini".to_string(),
        messages: vec![Message::user("hi")],
        tools: None,
    };
    match client.prepare_completion(&request) {
        Err(ApiError::Unauthenticated(m)) => assert_eq!(m, "API key is not set"),
        _ => panic!("a missing credential must fail before the call"),
    }
    assert!(matches!(
        client.prepare_listing(),
        Err(ApiError::Unauthenticated(_))
    ));
}

#[test]
fn gpt_filter_keeps_only_the_gpt_family() {
    let models = filter_gpt_models(vec![
        "gpt-4".to_string(),
        "dall-e-3".to_string(),
        "gpt-4o-mini".to_string(),
        "whisper-1".to_string(),
    ]);
    let names: Vec<String> = models.into_iter().map(|m| m.name).collect();
    assert_eq!(names, vec!["gpt-4", "gpt-4o-mini"]);
}

#[test]
fn tool_message_is_flattened_for_openai_wire() {
    let m = Message {
        role: ergon::models::Role::Tool,
        content: vec![Content::tool_result("call-1", "4")],
        tool_calls: None,
        tool_call_id: Some("call-1".to_string()),
    };
    let wire = convert_message(&m);
    assert_eq!(wire.role, "tool");
    match wire.content {
        OpenAIWireContent::Flat(text) => assert_eq!(text, "4"),
        _ => panic!("tool results must be flattened to a bare string"),
    }
    assert_eq!(wire.tool_call_id.as_deref(), Some("call-1"));
}

#[test]
fn ordinary_message_keeps_its_blocks_on_openai_wire() {
    let m = Message::user("hello");
    let wire = convert_message(&m);
    assert_eq!(wire.role, "user");
    match wire.content {
        OpenAIWireContent::Blocks(blocks) => {
            assert_eq!(blocks.len(), 1);
            assert!(matches!(&blocks[0], Content::Text { text } if text == "hello"));
        }
        _ => panic!("ordinary messages keep their structured blocks"),
    }
}

#[test]
fn anthropic_request_carries_the_configured_limit() {
    let client = AnthropicClient::new(AnthropicConfig {
        api_key: "k".to_string(),
        endpoint: "https://api.anthropic.com/v1/".to_string(),
        max_tokens: 2048,
    });
    assert_eq!(client.messages_url(), "https://api.anthropic.com/v1/messages");
    let request = CompletionRequest {
        model: "m".to_string(),
        messages: vec![Message::user("hello")],
        tools: None,
    };
    let wire = client.shape_request(request);
    assert_eq!(wire.max_tokens, 2048);
    assert_eq!(wire.model, "m");
    assert_eq!(wire.messages.len(), 1);
    assert_eq!(wire.messages[0].role, "user");
}

#[test]
fn anthropic_wire_flattens_images_to_their_url() {
    let m = Message {
        role: ergon::models::Role::User,
        content: vec![
            Content::text("look:"),
            Content::image_url("https://example.com/image.jpg"),
        ],
        tool_calls: None,
        tool_call_id: None,
    };
    let wire = AnthropicMessage::from_message(m);
    assert_eq!(wire.content.len(), 2);
    assert!(
        matches!(&wire.content[0], AnthropicMessageContent::Text { text } if text == "look:")
    );
    assert!(matches!(
        &wire.content[1],
        AnthropicMessageContent::Text { text } if text == "https://example.com/image.jpg"
    ));
}

#[test]
fn anthropic_reply_becomes_one_choice() {
    let wire = ergon::anthropic::AnthropicCompletionResponse {
        id: "msg-1".to_string(),
        model: "m".to_string(),
        content: vec![Message::assistant("hello back")],
        role: "assistant".to_string(),
        stop_reason: "end_turn".to_string(),
        stop_sequence: String::new(),
        _type: "message".to_string(),
        usage: ergon::anthropic::Usage {
            input_tokens: 1,
            output_tokens: 2,
        },
    };
    let neutral = wire.into_response();
    assert_eq!(neutral.id, "msg-1");
    assert_eq!(neutral.object, "anthropic.completion");
    assert_eq!(neutral.created, 0);
    assert_eq!(neutral.choices.len(), 1);
    assert_eq!(neutral.choices[0].index, 0);
    assert_eq!(neutral.choices[0].finish_reason, "end_turn");
    assert_eq!(neutral.choices[0].messages.len(), 1);
}

#[test]
fn anthropic_reply_parts_default_when_absent() {
    let neutral = ergon::anthropic::response_from_parts(
        Some("id-1".to_string()),
        None,
        None,
        None,
        vec![Message::assistant("hi")],
        Some("end_turn".to_string()),
    );
    assert_eq!(neutral.id, "id-1");
    assert_eq!(neutral.object, "");
    assert_eq!(neutral.created, 0);
    assert_eq!(neutral.model, "");
    assert_eq!(neutral.choices[0].finish_reason, "end_turn");
}

#[test]
fn anthropic_listing_drops_incomplete_entries() {
    let models = ergon::anthropic::models_of_listing(vec![
        (Some("id-1".to_string()), Some("First".to_string())),
        (Some("id-2".to_string()), None),
        (None, Some("Nameless".to_string())),
        (Some("id-3".to_string()), Some("Third".to_string())),
    ]);
    let names: Vec<String> = models.into_iter().map(|m| m.name).collect();
    assert_eq!(names, vec!["First", "Third"]);
}

#[test]
fn vllm_lists_exactly_the_configured_model() {
    let client = VllmClient::new(VllmConfig {
        endpoint: "https://localhost:8000/v1/".to_string(),
        model: "google/gemma-3-270m".to_string(),
    });
    let models = client.list_models().expect("a configured model lists");
    assert_eq!(models.len(), 1);
    assert_eq!(models[0].name, "google/gemma-3-270m");
    assert_eq!(
        client.completion_url(),
        "https://localhost:8000/v1/chat/completions"
    );

    let unconfigured = VllmClient::new(VllmConfig {
        endpoint: "https://localhost:8000/v1/".to_string(),
        model: String::new(),
    });
    match unconfigured.list_models() {
        Err(ApiError::InvalidRequest(m)) => assert_eq!(m, "vLLM model is not configured"),
        _ => panic!("an unconfigured model must not list"),
    }
}

#[test]
fn error_response_carries_the_message() {
    let err = ApiError::TransportError("connection refused".to_string());
    let resp = error_response(&err);
    assert_eq!(resp.id, "error");
    assert_eq!(resp.object, "connection refused");
    assert!(resp.choices.is_empty());
}

#[test]
fn every_error_variant_renders_its_text() {
    let errors = vec![
        ApiError::InvalidRequest("a".to_string()),
        ApiError::Unauthenticated("b".to_string()),
        ApiError::ProviderError(500, "c".to_string()),
        ApiError::DecodeError("d".to_string()),
        ApiError::TransportError("e".to_string()),
        ApiError::ToolResolutionError("f".to_string()),
        ApiError::ToolExecutionError("g".to_string()),
    ];
    let texts: Vec<&String> = errors.iter().map(|e| e.message()).collect();
    assert_eq!(texts, vec!["a", "b", "c", "d", "e", "f", "g"]);
}
