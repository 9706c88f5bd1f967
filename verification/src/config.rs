//! The configuration types the core consumes as a read-only snapshot:
//! per-provider endpoints, credentials and limits, the ordered tool-server
//! definitions, and the UI theme. Loading and saving these from disk is
//! persistence plumbing outside this crate.

use vstd::prelude::*;

verus! {

/// The UI theme named by the settings file.
#[derive(Clone, Copy, Debug, PartialEq, Eq, Structural)]
pub enum Theme {
    Light,
    Dark,
}

impl Default for Theme {
    /// Light unless the settings say otherwise.
    fn default() -> (r: Self)
        ensures
            r == Theme::Light,
    {
        Theme::Light
    }
}

/// The OpenAI-style provider's credential and endpoint.
#[derive(Debug, PartialEq, Eq)]
pub struct OpenAIConfig {
    pub api_key: String,
    pub endpoint: String,
}

impl Clone for OpenAIConfig {
    fn clone(&self) -> (res: Self)
        ensures
            res == *self,
    {
        OpenAIConfig { api_key: self.api_key.clone(), endpoint: self.endpoint.clone() }
    }
}

impl Default for OpenAIConfig {
    /// No credential, the public endpoint.
    fn default() -> (r: Self)
        ensures
            r.api_key@ == Seq::<char>::empty(),
            r.endpoint@ == "https://api.openai.com/v1/"@,
    {
        OpenAIConfig { api_key: String::new(), endpoint: "https://api.openai.com/v1/".to_owned() }
    }
}

/// The Anthropic-style provider's credential, endpoint and output limit.
#[derive(Debug, PartialEq, Eq)]
pub struct AnthropicConfig {
    pub api_key: String,
    pub endpoint: String,
    pub max_tokens: u32,
}

impl Clone for AnthropicConfig {
    fn clone(&self) -> (res: Self)
        ensures
            res == *self,
    {
        AnthropicConfig {
            api_key: self.api_key.clone(),
            endpoint: self.endpoint.clone(),
            max_tokens: self.max_tokens,
        }
    }
}

impl Default for AnthropicConfig {
    /// No credential, the public endpoint, a modest output limit.
    fn default() -> (r: Self)
        ensures
            r.api_key@ == Seq::<char>::empty(),
            r.endpoint@ == "https://api.anthropic.com/v1/"@,
            r.max_tokens == 1024u32,
    {
        AnthropicConfig {
            api_key: String::new(),
            endpoint: "https://api.anthropic.com/v1/".to_owned(),
            max_tokens: 1024,
        }
    }
}

/// The self-hosted OpenAI-compatible provider's endpoint and fixed model.
#[derive(Debug, PartialEq, Eq)]
pub struct VllmConfig {
    pub endpoint: String,
    pub model: String,
}

impl Clone for VllmConfig {
    fn clone(&self) -> (res: Self)
        ensures
            res == *self,
    {
        VllmConfig { endpoint: self.endpoint.clone(), model: self.model.clone() }
    }
}

impl Default for VllmConfig {
    /// A local endpoint and a small default model.
    fn default() -> (r: Self)
        ensures
            r.endpoint@ == "https://localhost:8000/v1/"@,
            r.model@ == "google/gemma-3-270m"@,
    {
        VllmConfig {
            endpoint: "https://localhost:8000/v1/".to_owned(),
            model: "google/gemma-3-270m".to_owned(),
        }
    }
}

/// A tool server launched as a local subprocess.
#[derive(Debug, PartialEq, Eq)]
pub struct McpStdioConfig {
    pub command: String,
    pub args: Vec<String>,
}

impl Clone for McpStdioConfig {
    fn clone(&self) -> (res: Self)
        ensures
            res.command == self.command,
            res.args@ == self.args@,
    {
        let args = self.args.clone();
        proof {
            assert(args@ =~= self.args@);
        }
        McpStdioConfig { command: self.command.clone(), args }
    }
}

impl Default for McpStdioConfig {
    /// No command, no arguments.
    fn default() -> (r: Self)
        ensures
            r.command@ == Seq::<char>::empty(),
            r.args@ == Seq::<String>::empty(),
    {
        McpStdioConfig { command: String::new(), args: Vec::new() }
    }
}

/// A tool server reached over a streaming HTTP endpoint.
#[derive(Debug, PartialEq, Eq)]
pub struct McpStreamableHttpConfig {
    pub endpoint: String,
}

impl Clone for McpStreamableHttpConfig {
    fn clone(&self) -> (res: Self)
        ensures
            res == *self,
    {
        McpStreamableHttpConfig { endpoint: self.endpoint.clone() }
    }
}

impl Default for McpStreamableHttpConfig {
    /// No endpoint.
    fn default() -> (r: Self)
        ensures
            r.endpoint@ == Seq::<char>::empty(),
    {
        McpStreamableHttpConfig { endpoint: String::new() }
    }
}

/// One configured tool server: a subprocess or a remote streaming endpoint.
#[derive(Debug, PartialEq, Eq)]
pub enum McpConfig {
    Stdio(McpStdioConfig),
    StreamableHttp(McpStreamableHttpConfig),
}

impl Clone for McpConfig {
    fn clone(&self) -> (res: Self)
        ensures
            res.label() == self.label(),
            (self matches McpConfig::Stdio(c) ==> res matches McpConfig::Stdio(rc) && rc.command
                == c.command && rc.args@ == c.args@),
            (self matches McpConfig::StreamableHttp(c) ==> res matches McpConfig::StreamableHttp(rc)
                && rc == c),
    {
        match self {
            McpConfig::Stdio(c) => McpConfig::Stdio(c.clone()),
            McpConfig::StreamableHttp(c) => McpConfig::StreamableHttp(c.clone()),
        }
    }
}

impl Default for McpConfig {
    /// A subprocess server with nothing configured yet.
    fn default() -> (r: Self)
        ensures
            r matches McpConfig::Stdio(c) && c.command@ == Seq::<char>::empty() && c.args@ == Seq::<
                String,
            >::empty(),
    {
        McpConfig::Stdio(McpStdioConfig::default())
    }
}

impl McpConfig {
    /// Which transport this server uses.
    pub open spec fn label(&self) -> Seq<char> {
        match self {
            McpConfig::Stdio(_) => "Stdio"@,
            McpConfig::StreamableHttp(_) => "StreamableHttp"@,
        }
    }

    /// The transport's name, as shown in settings.
    pub fn label_text(&self) -> (r: &'static str)
        ensures
            r@ == self.label(),
    {
        match self {
            McpConfig::Stdio(_) => "Stdio",
            McpConfig::StreamableHttp(_) => "StreamableHttp",
        }
    }
}

/// The whole configuration snapshot, and the path it was loaded from.
#[derive(Debug)]
pub struct Config {
    pub theme: Theme,
    pub openai: OpenAIConfig,
    pub anthropic: AnthropicConfig,
    pub vllm: VllmConfig,
    pub mcp_configs: Vec<McpConfig>,
    pub settings_file: String,
}

impl Config {
    /// The built-in defaults, recorded against the given settings path.
    pub fn default_with_file(settings_file: String) -> (r: Self)
        ensures
            r.theme == Theme::Light,
            r.openai.api_key@ == Seq::<char>::empty(),
            r.openai.endpoint@ == "https://api.openai.com/v1/"@,
            r.anthropic.api_key@ == Seq::<char>::empty(),
            r.anthropic.endpoint@ == "https://api.anthropic.com/v1/"@,
            r.anthropic.max_tokens == 1024u32,
            r.vllm.endpoint@ == "https://localhost:8000/v1/"@,
            r.vllm.model@ == "google/gemma-3-270m"@,
            r.mcp_configs@.len() == 1,
            r.mcp_configs@[0] matches McpConfig::Stdio(c) && c.command@ == Seq::<char>::empty()
                && c.args@ == Seq::<String>::empty(),
            r.settings_file == settings_file,
    {
        Config {
            theme: Theme::default(),
            openai: OpenAIConfig::default(),
            anthropic: AnthropicConfig::default(),
            vllm: VllmConfig::default(),
            mcp_configs: vec![McpConfig::default()],
            settings_file,
        }
    }
}

impl Default for Config {
    /// The built-in defaults with the conventional settings file name; a
    /// caller that loads settings from disk records the real path instead.
    fn default() -> (r: Self)
        ensures
            r.theme == Theme::Light,
            r.settings_file@ == "settings.json"@,
    {
        Config::default_with_file("settings.json".to_owned())
    }
}

} // verus!
