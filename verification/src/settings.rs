//! The settings page's state machine: every edit the page offers, applied
//! to the configuration snapshot. Saving the snapshot to disk is
//! persistence plumbing outside this crate; `update` reports when a save
//! was requested.

use vstd::pervasive::VecAdditionalExecFns;
use vstd::prelude::*;

use crate::config::{Config, McpConfig, McpStdioConfig, McpStreamableHttpConfig, Theme};
use crate::text::{parse_args, spec_args_of, string_views};

verus! {

/// The transport kinds a tool server can be configured with.
#[derive(Clone, Copy, Debug, PartialEq, Eq, Structural)]
pub enum McpConfigType {
    Stdio,
    StreamableHttp,
}

impl McpConfigType {
    /// Every transport kind, in the order the picker offers them.
    pub fn all() -> (r: Vec<McpConfigType>)
        ensures
            r@ == seq![McpConfigType::Stdio, McpConfigType::StreamableHttp],
    {
        let mut v: Vec<McpConfigType> = Vec::new();
        v.push(McpConfigType::Stdio);
        v.push(McpConfigType::StreamableHttp);
        proof {
            assert(v@ =~= seq![McpConfigType::Stdio, McpConfigType::StreamableHttp]);
        }
        v
    }

    /// The transport's name, as shown in the picker.
    pub fn label_text(&self) -> (r: &'static str)
        ensures
            self is Stdio ==> r@ == "Stdio"@,
            self is StreamableHttp ==> r@ == "Streamable HTTP"@,
    {
        match self {
            McpConfigType::Stdio => "Stdio",
            McpConfigType::StreamableHttp => "Streamable HTTP",
        }
    }
}

/// Every edit the settings page offers.
#[derive(Debug)]
pub enum Action {
    ChangeTheme(Theme),
    ChangeOpenAIKey(String),
    ChangeOpenAIUrl(String),
    ChangeAnthropicKey(String),
    ChangeAnthropicUrl(String),
    ChangeAnthropicMaxTokens(u32),
    ChangeVllmUrl(String),
    ChangeVllmModel(String),
    AddMcpConfig,
    /// Switch the server at this index to the subprocess transport (`true`)
    /// or the streaming transport (`false`), resetting its fields.
    ChangeMcpConfigType(usize, bool),
    ChangeMcpStdioCommand(usize, String),
    /// Replace the server's arguments with this comma-separated list.
    ChangeMcpStdioArgs(usize, String),
    ChangeMcpHttpEndpoint(usize, String),
    RemoveMcpConfig(usize),
    SaveSettings,
}

/// The settings page's state: the configuration snapshot being edited.
#[derive(Debug)]
pub struct State {
    pub config: Config,
}

impl Default for State {
    /// A page editing the built-in defaults.
    fn default() -> (r: Self)
        ensures
            r.config.theme == Theme::Light,
    {
        State { config: Config::default() }
    }
}

/// The provider and theme fields of two configurations agree.
pub open spec fn same_plain(a: Config, b: Config) -> bool {
    &&& a.theme == b.theme
    &&& a.openai == b.openai
    &&& a.anthropic == b.anthropic
    &&& a.vllm == b.vllm
    &&& a.settings_file == b.settings_file
}

/// The tool-server lists of two configurations agree.
pub open spec fn same_mcp(a: Config, b: Config) -> bool {
    a.mcp_configs@ == b.mcp_configs@
}

/// The settings page's whole transition relation: what one edit does to
/// the configuration and whether it asks for the snapshot to be
/// persisted. [`State::update`] is proved to implement exactly this.
pub open spec fn settings_step(pre: Config, action: Action, post: Config, persist: bool) -> bool {
    &&& (persist <==> action is SaveSettings)
    &&& (action is SaveSettings ==> same_plain(post, pre) && same_mcp(
        post,
        pre,
    ))
    &&& (action matches Action::ChangeTheme(t) ==> post == (Config {
        theme: t,
        ..pre
    }) && same_mcp(post, pre))
    &&& (action matches Action::ChangeOpenAIKey(k) ==> post.openai.api_key == k
        && post.openai.endpoint == pre.openai.endpoint
        && post.theme == pre.theme && post.anthropic == pre.anthropic && post.vllm == pre.vllm && same_mcp(post, pre))
    &&& (action matches Action::ChangeOpenAIUrl(u) ==> post.openai.endpoint == u
        && post.openai.api_key == pre.openai.api_key && post.theme == pre.theme && post.anthropic == pre.anthropic && post.vllm == pre.vllm && same_mcp(
        post,
        pre,
    ))
    &&& (action matches Action::ChangeAnthropicKey(k) ==> post.anthropic.api_key
        == k && post.anthropic.endpoint == pre.anthropic.endpoint && post.anthropic.max_tokens == pre.anthropic.max_tokens && post.theme == pre.theme
        && post.openai == pre.openai && post.vllm
        == pre.vllm && same_mcp(post, pre))
    &&& (action matches Action::ChangeAnthropicUrl(u) ==> post.anthropic.endpoint
        == u && post.anthropic.api_key == pre.anthropic.api_key
        && post.anthropic.max_tokens == pre.anthropic.max_tokens
        && post.theme == pre.theme && post.openai
        == pre.openai && post.vllm == pre.vllm
        && same_mcp(post, pre))
    &&& (action matches Action::ChangeAnthropicMaxTokens(n) ==> post.anthropic.max_tokens == n && post.anthropic.api_key == pre.anthropic.api_key && post.anthropic.endpoint == pre.anthropic.endpoint && post.theme == pre.theme
        && post.openai == pre.openai && post.vllm
        == pre.vllm && same_mcp(post, pre))
    &&& (action matches Action::ChangeVllmUrl(u) ==> post.vllm.endpoint == u
        && post.vllm.model == pre.vllm.model && post.theme == pre.theme && post.openai == pre.openai && post.anthropic == pre.anthropic
        && same_mcp(post, pre))
    &&& (action matches Action::ChangeVllmModel(m) ==> post.vllm.model == m
        && post.vllm.endpoint == pre.vllm.endpoint && post.theme == pre.theme && post.openai == pre.openai && post.anthropic == pre.anthropic
        && same_mcp(post, pre))
    &&& (action is AddMcpConfig ==> same_plain(post, pre) && post.mcp_configs@.len() == pre.mcp_configs@.len() + 1 && post.mcp_configs@.take(pre.mcp_configs@.len() as int) == pre.mcp_configs@ && (post.mcp_configs@.last()
        matches McpConfig::Stdio(c) && c.command@ == Seq::<char>::empty() && c.args@
        == Seq::<String>::empty()))
    &&& (action matches Action::ChangeMcpConfigType(i, is_stdio) ==> same_plain(
        post,
        pre,
    ) && mcp_updated_at(
        pre.mcp_configs@,
        post.mcp_configs@,
        i as int,
    ) && (i < pre.mcp_configs@.len() ==> (if is_stdio {
        post.mcp_configs@[i as int] matches McpConfig::Stdio(c) && c.command@
            == Seq::<char>::empty() && c.args@ == Seq::<String>::empty()
    } else {
        post.mcp_configs@[i as int] matches McpConfig::StreamableHttp(c)
            && c.endpoint@ == Seq::<char>::empty()
    })))
    &&& (action matches Action::ChangeMcpStdioCommand(i, cmd) ==> same_plain(
        post,
        pre,
    ) && mcp_updated_at(
        pre.mcp_configs@,
        post.mcp_configs@,
        i as int,
    ) && (i < pre.mcp_configs@.len() ==> (match pre.mcp_configs@[i as int] {
        McpConfig::Stdio(c) => post.mcp_configs@[i as int]
            matches McpConfig::Stdio(rc) && rc.command == cmd && string_views(rc.args@)
            == string_views(c.args@),
        McpConfig::StreamableHttp(_) => post.mcp_configs@[i as int] == pre.mcp_configs@[i as int],
    })))
    &&& (action matches Action::ChangeMcpStdioArgs(i, args) ==> same_plain(
        post,
        pre,
    ) && mcp_updated_at(
        pre.mcp_configs@,
        post.mcp_configs@,
        i as int,
    ) && (i < pre.mcp_configs@.len() ==> (match pre.mcp_configs@[i as int] {
        McpConfig::Stdio(c) => post.mcp_configs@[i as int]
            matches McpConfig::Stdio(rc) && rc.command == c.command && string_views(
            rc.args@,
        ) == spec_args_of(args@),
        McpConfig::StreamableHttp(_) => post.mcp_configs@[i as int] == pre.mcp_configs@[i as int],
    })))
    &&& (action matches Action::ChangeMcpHttpEndpoint(i, endpoint) ==> same_plain(
        post,
        pre,
    ) && mcp_updated_at(
        pre.mcp_configs@,
        post.mcp_configs@,
        i as int,
    ) && (i < pre.mcp_configs@.len() ==> (match pre.mcp_configs@[i as int] {
        McpConfig::StreamableHttp(_) => post.mcp_configs@[i as int]
            matches McpConfig::StreamableHttp(rc) && rc.endpoint == endpoint,
        McpConfig::Stdio(_) => post.mcp_configs@[i as int] == pre.mcp_configs@[i as int],
    })))
    &&& (action matches Action::RemoveMcpConfig(i) ==> same_plain(
        post,
        pre,
    ) && (if i < pre.mcp_configs@.len() {
        post.mcp_configs@ == pre.mcp_configs@.remove(i as int)
    } else {
        same_mcp(post, pre)
    }))
}

impl State {
    /// Apply one edit: exactly the transition [`settings_step`] describes.
    /// The result says whether the page asked for the snapshot to be
    /// persisted; nothing here touches the disk.
    pub fn update(&mut self, action: Action) -> (persist: bool)
        ensures
            settings_step(old(self).config, action, final(self).config, persist),
    {
        match action {
            Action::ChangeTheme(theme) => {
                self.config.theme = theme;
                false
            },
            Action::ChangeOpenAIKey(api_key) => {
                self.config.openai.api_key = api_key;
                false
            },
            Action::ChangeOpenAIUrl(endpoint) => {
                self.config.openai.endpoint = endpoint;
                false
            },
            Action::ChangeAnthropicKey(api_key) => {
                self.config.anthropic.api_key = api_key;
                false
            },
            Action::ChangeAnthropicUrl(endpoint) => {
                self.config.anthropic.endpoint = endpoint;
                false
            },
            Action::ChangeAnthropicMaxTokens(max_tokens) => {
                self.config.anthropic.max_tokens = max_tokens;
                false
            },
            Action::ChangeVllmUrl(endpoint) => {
                self.config.vllm.endpoint = endpoint;
                false
            },
            Action::ChangeVllmModel(model) => {
                self.config.vllm.model = model;
                false
            },
            Action::AddMcpConfig => {
                let ghost m0 = self.config.mcp_configs@;
                self.config.mcp_configs.push(McpConfig::default());
                proof {
                    assert(self.config.mcp_configs@.take(m0.len() as int) =~= m0);
                }
                false
            },
            Action::ChangeMcpConfigType(index, is_stdio) => {
                if index < self.config.mcp_configs.len() {
                    let replacement = if is_stdio {
                        McpConfig::Stdio(McpStdioConfig::default())
                    } else {
                        McpConfig::StreamableHttp(McpStreamableHttpConfig::default())
                    };
                    self.config.mcp_configs.set(index, replacement);
                }
                false
            },
            Action::ChangeMcpStdioCommand(index, command) => {
                if index < self.config.mcp_configs.len() {
                    match &self.config.mcp_configs[index] {
                        McpConfig::Stdio(c) => {
                            let args = c.args.clone();
                            proof {
                                assert(string_views(args@) =~= string_views(
                                    self.config.mcp_configs@[index as int]->Stdio_0.args@,
                                ));
                            }
                            self.config.mcp_configs.set(
                                index,
                                McpConfig::Stdio(McpStdioConfig { command, args }),
                            );
                        },
                        McpConfig::StreamableHttp(_) => {},
                    }
                }
                false
            },
            Action::ChangeMcpStdioArgs(index, args_str) => {
                if index < self.config.mcp_configs.len() {
                    match &self.config.mcp_configs[index] {
                        McpConfig::Stdio(c) => {
                            let command = c.command.clone();
                            let args = parse_args(args_str.as_str());
                            self.config.mcp_configs.set(
                                index,
                                McpConfig::Stdio(McpStdioConfig { command, args }),
                            );
                        },
                        McpConfig::StreamableHttp(_) => {},
                    }
                }
                false
            },
            Action::ChangeMcpHttpEndpoint(index, endpoint) => {
                if index < self.config.mcp_configs.len() {
                    match &self.config.mcp_configs[index] {
                        McpConfig::StreamableHttp(_) => {
                            self.config.mcp_configs.set(
                                index,
                                McpConfig::StreamableHttp(McpStreamableHttpConfig { endpoint }),
                            );
                        },
                        McpConfig::Stdio(_) => {},
                    }
                }
                false
            },
            Action::RemoveMcpConfig(index) => {
                if index < self.config.mcp_configs.len() {
                    self.config.mcp_configs.remove(index);
                }
                false
            },
            Action::SaveSettings => true,
        }
    }
}

/// The tool-server lists agree everywhere but possibly at `i`; an index
/// past the end leaves the list untouched.
pub open spec fn mcp_updated_at(before: Seq<McpConfig>, after: Seq<McpConfig>, i: int) -> bool {
    &&& (i < before.len() ==> after.len() == before.len() && (forall|j: int|
        0 <= j < before.len() && j != i ==> after[j] == before[j]))
    &&& (i >= before.len() ==> after == before)
}

} // verus!
