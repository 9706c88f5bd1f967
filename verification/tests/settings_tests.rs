//! Tests for the settings page's state machine and the configuration types.

use ergon::config::{
    AnthropicConfig, Config, McpConfig, McpStdioConfig, McpStreamableHttpConfig, OpenAIConfig,
    Theme, VllmConfig,
};
use ergon::settings::{Action, State};

#[test]
fn test_default_config() {
    let config = Config::default();
    assert_eq!(config.theme, Theme::default());
}

#[test]
fn test_update_theme() {
    let mut state = State::default();
    state.update(Action::ChangeTheme(Theme::Dark));
    assert_eq!(state.config.theme, Theme::Dark);
}

#[test]
fn test_update_openai_key() {
    let mut state = State::default();
    state.update(Action::ChangeOpenAIKey("new_api_key".to_string()));
    assert_eq!(state.config.openai.api_key, "new_api_key");
}

#[test]
fn test_update_openai_url() {
    let mut state = State::default();
    state.update(Action::ChangeOpenAIUrl(
        "https://new.endpoint.com".to_string(),
    ));
    assert_eq!(state.config.openai.endpoint, "https://new.endpoint.com");
}

#[test]
fn test_update_anthropic_key() {
    let mut state = State::default();
    state.update(Action::ChangeAnthropicKey("new_anthropic_key".to_string()));
    assert_eq!(state.config.anthropic.api_key, "new_anthropic_key");
}

#[test]
fn test_update_anthropic_url() {
    let mut state = State::default();
    state.update(Action::ChangeAnthropicUrl(
        "https://new.anthropic.endpoint.com".to_string(),
    ));
    assert_eq!(
        state.config.anthropic.endpoint,
        "https://new.anthropic.endpoint.com"
    );
}

#[test]
fn test_update_anthropic_max_tokens() {
    let mut state = State::default();
    state.update(Action::ChangeAnthropicMaxTokens(2048));
    assert_eq!(state.config.anthropic.max_tokens, 2048);
}

#[test]
fn test_update_vllm_url() {
    let mut state = State::default();
    state.update(Action::ChangeVllmUrl(
        "http://new.vllm.endpoint.com".to_string(),
    ));
    assert_eq!(state.config.vllm.endpoint, "http://new.vllm.endpoint.com");
}

#[test]
fn test_update_vllm_model() {
    let mut state = State::default();
    state.update(Action::ChangeVllmModel("new-model".to_string()));
    assert_eq!(state.config.vllm.model, "new-model");
}

#[test]
fn test_save_settings() {
    let mut state = State {
        config: Config {
            theme: Theme::Light,
            openai: OpenAIConfig {
                api_key: String::new(),
                endpoint: "https://api.openai.com/v1/".to_string(),
            },
            anthropic: AnthropicConfig {
                api_key: String::new(),
                endpoint: "https://api.anthropic.com/v1/".to_string(),
                max_tokens: 1024,
            },
            vllm: VllmConfig {
                endpoint: "http://localhost:8000/v1/".to_string(),
                model: "google/gemma-3-270m".to_string(),
            },
            mcp_configs: vec![],
            settings_file: "./test.json".to_string(),
        },
    };
    state.update(Action::ChangeTheme(Theme::Dark));
    state.update(Action::ChangeOpenAIKey("test_key".to_string()));
    state.update(Action::ChangeOpenAIUrl("https://api.test.com".to_string()));
    state.update(Action::ChangeAnthropicKey("hello".to_string()));
    state.update(Action::ChangeAnthropicUrl(
        "https://api.anthropic.com/v1/".to_string(),
    ));
    let persist = state.update(Action::SaveSettings);

    assert!(persist);
    assert_eq!(state.config.theme, Theme::Dark);
    assert_eq!(state.config.openai.api_key, "test_key");
    assert_eq!(state.config.openai.endpoint, "https://api.test.com");

    assert_eq!(state.config.anthropic.api_key, "hello");
    assert_eq!(
        state.config.anthropic.endpoint,
        "https://api.anthropic.com/v1/"
    );
    assert_eq!(state.config.anthropic.max_tokens, 1024);
    assert_eq!(state.config.vllm.endpoint, "http://localhost:8000/v1/");
    assert_eq!(state.config.vllm.model, "google/gemma-3-270m");
}

#[test]
fn add_and_remove_mcp_config() {
    let mut state = State::default();
    let before = state.config.mcp_configs.len();
    state.update(Action::AddMcpConfig);
    assert_eq!(state.config.mcp_configs.len(), before + 1);
    assert!(matches!(
        state.config.mcp_configs.last().unwrap(),
        McpConfig::Stdio(_)
    ));
    state.update(Action::RemoveMcpConfig(before));
    assert_eq!(state.config.mcp_configs.len(), before);
}

#[test]
fn change_mcp_transport_and_fields() {
    let mut state = State::default();
    state.config.mcp_configs = vec![McpConfig::Stdio(McpStdioConfig::default())];

    state.update(Action::ChangeMcpStdioCommand(0, "python3".to_string()));
    match &state.config.mcp_configs[0] {
        McpConfig::Stdio(c) => assert_eq!(c.command, "python3"),
        _ => panic!("Expected Stdio config"),
    }

    state.update(Action::ChangeMcpStdioArgs(0, " -u , mcp_stdio.py ,".to_string()));
    match &state.config.mcp_configs[0] {
        McpConfig::Stdio(c) => {
            assert_eq!(c.command, "python3");
            assert_eq!(c.args, vec!["-u", "mcp_stdio.py"]);
        }
        _ => panic!("Expected Stdio config"),
    }

    state.update(Action::ChangeMcpConfigType(0, false));
    match &state.config.mcp_configs[0] {
        McpConfig::StreamableHttp(c) => assert_eq!(c.endpoint, ""),
        _ => panic!("Expected StreamableHttp config"),
    }

    state.update(Action::ChangeMcpHttpEndpoint(
        0,
        "http://localhost:9000/v1/".to_string(),
    ));
    match &state.config.mcp_configs[0] {
        McpConfig::StreamableHttp(c) => assert_eq!(c.endpoint, "http://localhost:9000/v1/"),
        _ => panic!("Expected StreamableHttp config"),
    }
}

#[test]
fn mcp_config_labels() {
    assert_eq!(
        McpConfig::Stdio(McpStdioConfig::default()).label_text(),
        "Stdio"
    );
    assert_eq!(
        McpConfig::StreamableHttp(McpStreamableHttpConfig::default()).label_text(),
        "StreamableHttp"
    );
}

#[test]
fn default_config_values() {
    let config = Config::default();
    assert_eq!(config.openai.api_key, "");
    assert_eq!(config.openai.endpoint, "https://api.openai.com/v1/");
    assert_eq!(config.anthropic.endpoint, "https://api.anthropic.com/v1/");
    assert_eq!(config.anthropic.max_tokens, 1024);
    assert_eq!(config.vllm.endpoint, "https://localhost:8000/v1/");
    assert_eq!(config.vllm.model, "google/gemma-3-270m");
    assert_eq!(config.mcp_configs.len(), 1);
}
