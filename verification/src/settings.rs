//! Conversation settings and tool-server configuration.
//!
//! Settings select the model and provider, carry generation parameters
//! and the system prompt, and list the configured tool servers. A tool
//! server is described either by a command to spawn or by a host-actor
//! manifest; once the host has started it, the server carries its runtime
//! handle and its cached tool list.

use vstd::prelude::*;
use crate::types::{clone_opt_string, clone_vec_dv, Tool, ToolView};

verus! {

/// Model and provider selection.
#[derive(Debug)]
pub struct ModelConfig {
    pub model: String,
    pub provider: String,
}

/// Abstract value of a [`ModelConfig`].
pub struct ModelConfigView {
    pub model: Seq<char>,
    pub provider: Seq<char>,
}

impl View for ModelConfig {
    type V = ModelConfigView;

    open spec fn view(&self) -> ModelConfigView {
        ModelConfigView { model: self.model@, provider: self.provider@ }
    }
}

impl DeepView for ModelConfig {
    type V = ModelConfigView;

    open spec fn deep_view(&self) -> ModelConfigView {
        self.view()
    }
}

impl Clone for ModelConfig {
    fn clone(&self) -> (r: Self)
        ensures
            r@ == self@,
    {
        ModelConfig { model: self.model.clone(), provider: self.provider.clone() }
    }
}

/// A tool server spawned as a child process over standard pipes.
#[derive(Debug)]
pub struct StdPipeMcpConfig {
    pub command: String,
    pub args: Vec<String>,
}

/// Abstract value of a [`StdPipeMcpConfig`].
pub struct StdPipeMcpConfigView {
    pub command: Seq<char>,
    pub args: Seq<Seq<char>>,
}

impl View for StdPipeMcpConfig {
    type V = StdPipeMcpConfigView;

    open spec fn view(&self) -> StdPipeMcpConfigView {
        StdPipeMcpConfigView { command: self.command@, args: self.args.deep_view() }
    }
}

impl DeepView for StdPipeMcpConfig {
    type V = StdPipeMcpConfigView;

    open spec fn deep_view(&self) -> StdPipeMcpConfigView {
        self.view()
    }
}

impl Clone for StdPipeMcpConfig {
    fn clone(&self) -> (r: Self)
        ensures
            r@ == self@,
    {
        StdPipeMcpConfig { command: self.command.clone(), args: clone_vec_dv(&self.args) }
    }
}

/// A tool server hosted as another actor, addressed by a manifest path.
/// Its initial state, if any, is carried as JSON text.
#[derive(Debug)]
pub struct ActorMcpConfig {
    pub manifest_path: String,
    pub init_state: Option<String>,
}

/// Abstract value of an [`ActorMcpConfig`].
pub struct ActorMcpConfigView {
    pub manifest_path: Seq<char>,
    pub init_state: Option<Seq<char>>,
}

impl View for ActorMcpConfig {
    type V = ActorMcpConfigView;

    open spec fn view(&self) -> ActorMcpConfigView {
        ActorMcpConfigView {
            manifest_path: self.manifest_path@,
            init_state: self.init_state.deep_view(),
        }
    }
}

impl DeepView for ActorMcpConfig {
    type V = ActorMcpConfigView;

    open spec fn deep_view(&self) -> ActorMcpConfigView {
        self.view()
    }
}

impl Clone for ActorMcpConfig {
    fn clone(&self) -> (r: Self)
        ensures
            r@ == self@,
    {
        ActorMcpConfig {
            manifest_path: self.manifest_path.clone(),
            init_state: clone_opt_string(&self.init_state),
        }
    }
}

/// How a tool server is brought up.
#[derive(Debug)]
pub enum McpConfig {
    StdPipe(StdPipeMcpConfig),
    Actor(ActorMcpConfig),
}

/// Abstract value of an [`McpConfig`].
pub enum McpConfigView {
    StdPipe(StdPipeMcpConfigView),
    Actor(ActorMcpConfigView),
}

impl View for McpConfig {
    type V = McpConfigView;

    open spec fn view(&self) -> McpConfigView {
        match self {
            McpConfig::StdPipe(c) => McpConfigView::StdPipe(c@),
            McpConfig::Actor(c) => McpConfigView::Actor(c@),
        }
    }
}

impl DeepView for McpConfig {
    type V = McpConfigView;

    open spec fn deep_view(&self) -> McpConfigView {
        self.view()
    }
}

impl Clone for McpConfig {
    fn clone(&self) -> (r: Self)
        ensures
            r@ == self@,
    {
        match self {
            McpConfig::StdPipe(c) => McpConfig::StdPipe(c.clone()),
            McpConfig::Actor(c) => McpConfig::Actor(c.clone()),
        }
    }
}

/// One configured tool server. `actor_id` is its runtime handle, set once
/// the host has started it; `tools` is its tool list, fetched once at
/// start time and cached for the settings' lifetime.
#[derive(Debug)]
pub struct McpServer {
    pub actor_id: Option<String>,
    pub config: McpConfig,
    pub tools: Option<Vec<Tool>>,
}

/// Abstract value of an [`McpServer`].
pub struct McpServerView {
    pub actor_id: Option<Seq<char>>,
    pub config: McpConfigView,
    pub tools: Option<Seq<ToolView>>,
}

impl View for McpServer {
    type V = McpServerView;

    open spec fn view(&self) -> McpServerView {
        McpServerView {
            actor_id: self.actor_id.deep_view(),
            config: self.config@,
            tools: self.tools.deep_view(),
        }
    }
}

impl DeepView for McpServer {
    type V = McpServerView;

    open spec fn deep_view(&self) -> McpServerView {
        self.view()
    }
}

impl Clone for McpServer {
    fn clone(&self) -> (r: Self)
        ensures
            r@ == self@,
    {
        McpServer {
            actor_id: clone_opt_string(&self.actor_id),
            config: self.config.clone(),
            tools: match &self.tools {
                Some(ts) => Some(clone_vec_dv(ts)),
                None => None,
            },
        }
    }
}

/// Whether a server's cached tool list advertises a tool of this name.
pub open spec fn spec_has_tool(s: McpServerView, name: Seq<char>) -> bool {
    match s.tools {
        Some(ts) => exists|i: int| 0 <= i < ts.len() && (#[trigger] ts[i]).name == name,
        None => false,
    }
}

impl McpServer {
    /// Whether this server's cached tool list advertises `name`. A server
    /// without a cached list advertises nothing.
    pub fn has_tool(&self, name: &String) -> (r: bool)
        ensures
            r == spec_has_tool(self@, name@),
    {
        match &self.tools {
            Some(ts) => {
                let mut i: usize = 0;
                while i < ts.len()
                    invariant
                        i <= ts.len(),
                        self.tools matches Some(v) && v.deep_view() == ts.deep_view(),
                        forall|j: int| 0 <= j < i ==> (#[trigger] ts.deep_view()[j]).name != name@,
                    decreases ts.len() - i,
                {
                    proof {
                        assert(ts.deep_view()[i as int] == ts@[i as int].deep_view());
                    }
                    if ts[i].name == *name {
                        return true;
                    }
                    i = i + 1;
                }
                false
            },
            None => false,
        }
    }
}

/// Conversation settings: model selection, generation parameters, system
/// prompt, title, and the configured tool servers. Temperature is carried
/// in thousandths of the unit interval.
#[derive(Debug)]
pub struct ConversationSettings {
    pub model_config: ModelConfig,
    pub temperature: Option<u32>,
    pub max_tokens: u32,
    pub system_prompt: Option<String>,
    pub title: String,
    pub mcp_servers: Vec<McpServer>,
}

/// Abstract value of a [`ConversationSettings`].
pub struct ConversationSettingsView {
    pub model_config: ModelConfigView,
    pub temperature: Option<u32>,
    pub max_tokens: u32,
    pub system_prompt: Option<Seq<char>>,
    pub title: Seq<char>,
    pub mcp_servers: Seq<McpServerView>,
}

impl View for ConversationSettings {
    type V = ConversationSettingsView;

    open spec fn view(&self) -> ConversationSettingsView {
        ConversationSettingsView {
            model_config: self.model_config@,
            temperature: self.temperature,
            max_tokens: self.max_tokens,
            system_prompt: self.system_prompt.deep_view(),
            title: self.title@,
            mcp_servers: self.mcp_servers.deep_view(),
        }
    }
}

impl DeepView for ConversationSettings {
    type V = ConversationSettingsView;

    open spec fn deep_view(&self) -> ConversationSettingsView {
        self.view()
    }
}

impl Clone for ConversationSettings {
    fn clone(&self) -> (r: Self)
        ensures
            r@ == self@,
    {
        ConversationSettings {
            model_config: self.model_config.clone(),
            temperature: self.temperature,
            max_tokens: self.max_tokens,
            system_prompt: clone_opt_string(&self.system_prompt),
            title: self.title.clone(),
            mcp_servers: clone_vec_dv(&self.mcp_servers),
        }
    }
}

impl Default for ConversationSettings {
    /// The settings a conversation starts with when none are supplied.
    fn default() -> (r: Self)
        ensures
            r@.model_config.model == "gemini-2.5-flash-preview-04-17"@,
            r@.model_config.provider == "google"@,
            r@.temperature is None,
            r@.max_tokens == 65535,
            r@.system_prompt is None,
            r@.title == "title"@,
            r@.mcp_servers.len() == 0,
    {
        ConversationSettings {
            model_config: ModelConfig {
                model: "gemini-2.5-flash-preview-04-17".to_owned(),
                provider: "google".to_owned(),
            },
            temperature: None,
            max_tokens: 65535,
            system_prompt: None,
            title: "title".to_owned(),
            mcp_servers: Vec::new(),
        }
    }
}

/// Settings as supplied at initialization: the tool-server list may be
/// absent, standing for an empty one.
#[derive(Debug)]
pub struct InitConversationSettings {
    pub model_config: ModelConfig,
    pub temperature: Option<u32>,
    pub max_tokens: u32,
    pub system_prompt: Option<String>,
    pub title: String,
    pub mcp_servers: Option<Vec<McpServer>>,
}

impl InitConversationSettings {
    /// Turns initialization settings into conversation settings; an
    /// absent tool-server list becomes an empty one.
    pub fn into_settings(self) -> (r: ConversationSettings)
        ensures
            r@.model_config == self.model_config@,
            r@.temperature == self.temperature,
            r@.max_tokens == self.max_tokens,
            r@.system_prompt == self.system_prompt.deep_view(),
            r@.title == self.title@,
            self.mcp_servers matches Some(v) ==> r@.mcp_servers == v.deep_view(),
            self.mcp_servers is None ==> r@.mcp_servers.len() == 0,
    {
        ConversationSettings {
            model_config: self.model_config,
            temperature: self.temperature,
            max_tokens: self.max_tokens,
            system_prompt: self.system_prompt,
            title: self.title,
            mcp_servers: match self.mcp_servers {
                Some(v) => v,
                None => Vec::new(),
            },
        }
    }
}

} // verus!
