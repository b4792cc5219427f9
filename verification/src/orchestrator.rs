//! The completion orchestrator and continuation controller.
//!
//! One completion cycle spans several processing steps: the single-flight
//! lock is taken and a provider request is built; the host performs the
//! round trip and appends the provider's answer; the chain is then
//! continued — a terminal stop reason resolves the deferred reply, a
//! tool-use stop reason yields one planned call per invocation block,
//! whose outcomes are appended as a single tool-result message before
//! completion is entered again. The decisions live here and are verified;
//! the host only carries requests and answers across the wire.

use vstd::prelude::*;
use crate::entry::{ChatEntry, ChatEntryView, ChatMessageView};
use crate::errors::ChatStateError;
use crate::proxy::ProxyView;
use crate::settings::{spec_has_tool, McpServerView};
use crate::state::ChatState;
use crate::types::{
    clone_vec_dv, CompletionRequest, CompletionRequestView, CompletionResponse,
    CompletionResponseView, Message, MessageContent, MessageContentView, MessageView, ModelInfo,
    ModelInfoView, Role, StopReason, Tool, ToolContent, ToolContentView, ToolView,
};

verus! {

/// Whether the entry at the head ends the current completion cycle:
/// everything but a completion that asks for tool use is terminal.
pub open spec fn entry_is_terminal(e: ChatEntryView) -> bool {
    match e {
        ChatEntryView::Message(_) => true,
        ChatEntryView::Error(_) => true,
        ChatEntryView::Completion(c) => !(c.stop_reason is ToolUse),
    }
}

/// The flat tool catalog: the tools of every started server with a
/// cached tool list, in server order.
pub open spec fn catalog(servers: Seq<McpServerView>) -> Seq<ToolView>
    decreases servers.len(),
{
    if servers.len() == 0 {
        Seq::empty()
    } else {
        let rest = catalog(servers.drop_last());
        let s = servers.last();
        match (s.actor_id, s.tools) {
            (Some(_), Some(ts)) => rest + ts,
            _ => rest,
        }
    }
}

/// The named proxy, by first match over the registered proxies.
pub open spec fn spec_find_proxy(proxies: Seq<ProxyView>, name: Seq<char>) -> Option<ProxyView>
    decreases proxies.len(),
{
    if proxies.len() == 0 {
        None
    } else if proxies[0].name == name {
        Some(proxies[0])
    } else {
        spec_find_proxy(proxies.skip(1), name)
    }
}

/// Where one tool invocation is routed: to the first configured server
/// advertising the tool, or to a failure when no server advertises it or
/// the advertising server has not been started.
#[derive(Debug)]
pub enum ToolRoute {
    Server { actor_id: String },
    NotFound,
    NotStarted,
}

/// Abstract value of a [`ToolRoute`].
pub enum ToolRouteView {
    Server { actor_id: Seq<char> },
    NotFound,
    NotStarted,
}

impl View for ToolRoute {
    type V = ToolRouteView;

    open spec fn view(&self) -> ToolRouteView {
        match self {
            ToolRoute::Server { actor_id } => ToolRouteView::Server { actor_id: actor_id@ },
            ToolRoute::NotFound => ToolRouteView::NotFound,
            ToolRoute::NotStarted => ToolRouteView::NotStarted,
        }
    }
}

impl DeepView for ToolRoute {
    type V = ToolRouteView;

    open spec fn deep_view(&self) -> ToolRouteView {
        self.view()
    }
}

/// The route of one tool name: the first server advertising it wins;
/// an advertising server without a runtime handle is a routing failure
/// of its own kind.
pub open spec fn spec_route(servers: Seq<McpServerView>, name: Seq<char>) -> ToolRouteView
    decreases servers.len(),
{
    if servers.len() == 0 {
        ToolRouteView::NotFound
    } else if spec_has_tool(servers[0], name) {
        match servers[0].actor_id {
            Some(a) => ToolRouteView::Server { actor_id: a },
            None => ToolRouteView::NotStarted,
        }
    } else {
        spec_route(servers.skip(1), name)
    }
}

/// One planned tool call: the invocation block's id, tool name and JSON
/// input, together with its route.
#[derive(Debug)]
pub struct PlannedToolCall {
    pub tool_use_id: String,
    pub name: String,
    pub input: String,
    pub route: ToolRoute,
}

/// Abstract value of a [`PlannedToolCall`].
pub struct PlannedToolCallView {
    pub tool_use_id: Seq<char>,
    pub name: Seq<char>,
    pub input: Seq<char>,
    pub route: ToolRouteView,
}

impl View for PlannedToolCall {
    type V = PlannedToolCallView;

    open spec fn view(&self) -> PlannedToolCallView {
        PlannedToolCallView {
            tool_use_id: self.tool_use_id@,
            name: self.name@,
            input: self.input@,
            route: self.route@,
        }
    }
}

impl DeepView for PlannedToolCall {
    type V = PlannedToolCallView;

    open spec fn deep_view(&self) -> PlannedToolCallView {
        self.view()
    }
}

/// The planned calls of one completion: one per tool-use block of its
/// content, in block order; other blocks plan nothing.
pub open spec fn spec_plan(
    content: Seq<MessageContentView>,
    servers: Seq<McpServerView>,
) -> Seq<PlannedToolCallView>
    decreases content.len(),
{
    if content.len() == 0 {
        Seq::empty()
    } else {
        let rest = spec_plan(content.drop_last(), servers);
        match content.last() {
            MessageContentView::ToolUse { id, name, input } => rest.push(
                PlannedToolCallView { tool_use_id: id, name, input, route: spec_route(servers, name) },
            ),
            _ => rest,
        }
    }
}

/// What one performed tool call came to.
#[derive(Debug)]
pub enum ToolOutcomeResult {
    /// The tool answered: its result content items.
    Success { content: Vec<ToolContent> },
    /// The call could not be satisfied: the failure's text. A planned
    /// call whose route was a failure is reported here too.
    Failure { message: String },
}

/// Abstract value of a [`ToolOutcomeResult`].
pub enum ToolOutcomeResultView {
    Success { content: Seq<ToolContentView> },
    Failure { message: Seq<char> },
}

impl View for ToolOutcomeResult {
    type V = ToolOutcomeResultView;

    open spec fn view(&self) -> ToolOutcomeResultView {
        match self {
            ToolOutcomeResult::Success { content } => ToolOutcomeResultView::Success {
                content: content.deep_view(),
            },
            ToolOutcomeResult::Failure { message } => ToolOutcomeResultView::Failure {
                message: message@,
            },
        }
    }
}

impl DeepView for ToolOutcomeResult {
    type V = ToolOutcomeResultView;

    open spec fn deep_view(&self) -> ToolOutcomeResultView {
        self.view()
    }
}

/// The outcome of one planned tool call, answering one tool-use block.
#[derive(Debug)]
pub struct ToolOutcome {
    pub tool_use_id: String,
    pub result: ToolOutcomeResult,
}

/// Abstract value of a [`ToolOutcome`].
pub struct ToolOutcomeView {
    pub tool_use_id: Seq<char>,
    pub result: ToolOutcomeResultView,
}

impl View for ToolOutcome {
    type V = ToolOutcomeView;

    open spec fn view(&self) -> ToolOutcomeView {
        ToolOutcomeView { tool_use_id: self.tool_use_id@, result: self.result@ }
    }
}

impl DeepView for ToolOutcome {
    type V = ToolOutcomeView;

    open spec fn deep_view(&self) -> ToolOutcomeView {
        self.view()
    }
}

/// The tool-result block one outcome submits back to the provider: a
/// failed call yields an error-flagged block carrying the failure text;
/// it does not disturb the other outcomes.
pub open spec fn result_block(o: ToolOutcomeView) -> MessageContentView {
    match o.result {
        ToolOutcomeResultView::Success { content } => MessageContentView::ToolResult {
            tool_use_id: o.tool_use_id,
            content,
            is_error: None,
        },
        ToolOutcomeResultView::Failure { message } => MessageContentView::ToolResult {
            tool_use_id: o.tool_use_id,
            content: seq![ToolContentView::Text { text: message }],
            is_error: Some(true),
        },
    }
}

/// The content of the tool-result message: one block per outcome, in
/// outcome order.
pub open spec fn results_content(outcomes: Seq<ToolOutcomeView>) -> Seq<MessageContentView> {
    Seq::new(outcomes.len(), |i: int| result_block(outcomes[i]))
}

/// A provider round trip for the host to perform: the target provider
/// actor and the request to send it.
#[derive(Debug)]
pub struct ProviderCall {
    pub proxy_actor_id: String,
    pub request: CompletionRequest,
}

/// The deferred reply owed to the caller whose token opened the cycle:
/// the conversation head at resolution time.
#[derive(Debug)]
pub struct Resolution {
    pub token: String,
    pub head: Option<usize>,
}

/// Abstract value of a [`Resolution`].
pub struct ResolutionView {
    pub token: Seq<char>,
    pub head: Option<int>,
}

impl View for Resolution {
    type V = ResolutionView;

    open spec fn view(&self) -> ResolutionView {
        ResolutionView { token: self.token@, head: crate::entry::id_view(self.head) }
    }
}

impl DeepView for Resolution {
    type V = ResolutionView;

    open spec fn deep_view(&self) -> ResolutionView {
        self.view()
    }
}

/// What one continuation step decided.
#[derive(Debug)]
pub enum ContinueOutcome {
    /// The cycle is over; the deferred reply to deliver, if one was owed.
    Resolved { reply: Option<Resolution> },
    /// The head completion asks for tool use: the calls to perform, one
    /// per invocation block, in block order. Their outcomes go back in
    /// through `submit_tool_results`.
    RunTools { calls: Vec<PlannedToolCall> },
}

/// A provider's answer as the host hands it back: the response payload,
/// or the transport's failure text.
#[derive(Debug)]
pub enum ProxyReply {
    Response(ProxyResponse),
    TransportError(String),
}

/// The response payload of a provider actor.
#[derive(Debug)]
pub enum ProxyResponse {
    ListModels { models: Vec<ModelInfo> },
    Completion { completion: CompletionResponse },
    Error { error: String },
}

/// Abstract value of a [`ProxyResponse`].
pub enum ProxyResponseView {
    ListModels { models: Seq<ModelInfoView> },
    Completion { completion: CompletionResponseView },
    Error { error: Seq<char> },
}

impl View for ProxyResponse {
    type V = ProxyResponseView;

    open spec fn view(&self) -> ProxyResponseView {
        match self {
            ProxyResponse::ListModels { models } => ProxyResponseView::ListModels {
                models: models.deep_view(),
            },
            ProxyResponse::Completion { completion } => ProxyResponseView::Completion {
                completion: completion@,
            },
            ProxyResponse::Error { error } => ProxyResponseView::Error { error: error@ },
        }
    }
}

impl DeepView for ProxyResponse {
    type V = ProxyResponseView;

    open spec fn deep_view(&self) -> ProxyResponseView {
        self.view()
    }
}

/// Abstract value of a [`ProxyReply`].
pub enum ProxyReplyView {
    Response(ProxyResponseView),
    TransportError(Seq<char>),
}

impl View for ProxyReply {
    type V = ProxyReplyView;

    open spec fn view(&self) -> ProxyReplyView {
        match self {
            ProxyReply::Response(r) => ProxyReplyView::Response(r@),
            ProxyReply::TransportError(e) => ProxyReplyView::TransportError(e@),
        }
    }
}

impl DeepView for ProxyReply {
    type V = ProxyReplyView;

    open spec fn deep_view(&self) -> ProxyReplyView {
        self.view()
    }
}

/// The model list one reply contributes, when it is a model-list
/// response; any other reply contributes an upstream failure instead.
pub open spec fn reply_models(r: ProxyReplyView) -> Option<Seq<ModelInfoView>> {
    match r {
        ProxyReplyView::Response(ProxyResponseView::ListModels { models }) => Some(models),
        _ => None,
    }
}

/// Whether every proxy answered the model-list request in protocol.
pub open spec fn all_list_models(replies: Seq<ProxyReplyView>) -> bool {
    forall|i: int| 0 <= i < replies.len() ==> reply_models(#[trigger] replies[i]) is Some
}

/// The aggregated model list, in proxy order.
pub open spec fn concat_models(replies: Seq<ProxyReplyView>) -> Seq<ModelInfoView>
    decreases replies.len(),
{
    if replies.len() == 0 {
        Seq::empty()
    } else {
        concat_models(replies.drop_last()) + (match reply_models(replies.last()) {
            Some(ms) => ms,
            None => Seq::empty(),
        })
    }
}

/// The failure text of the first reply out of protocol: a provider error
/// carries its own text, a transport failure its own, and an answer of
/// the wrong kind a fixed one.
pub open spec fn first_bad_message(replies: Seq<ProxyReplyView>) -> Seq<char>
    decreases replies.len(),
{
    if replies.len() == 0 {
        Seq::empty()
    } else {
        match replies[0] {
            ProxyReplyView::Response(ProxyResponseView::ListModels { .. }) => first_bad_message(
                replies.skip(1),
            ),
            ProxyReplyView::Response(ProxyResponseView::Completion { .. }) => {
                "unexpected response from proxy"@
            },
            ProxyReplyView::Response(ProxyResponseView::Error { error }) => error,
            ProxyReplyView::TransportError(e) => e,
        }
    }
}

impl ChatState {
    /// Aggregates the model lists the registered proxies answered with,
    /// one reply per proxy in proxy order. The first reply out of
    /// protocol fails the whole aggregation as an upstream error; an
    /// aggregation with no model at all is a `NoModels` error.
    pub fn list_models(&self, replies: Vec<ProxyReply>) -> (r: Result<
        Vec<ModelInfo>,
        ChatStateError,
    >)
        ensures
            !all_list_models(replies.deep_view()) ==> (r matches Err(
                ChatStateError::UpstreamError { message },
            ) && message@ == first_bad_message(replies.deep_view())),
            all_list_models(replies.deep_view()) && concat_models(replies.deep_view()).len() == 0
                ==> r matches Err(ChatStateError::NoModels),
            all_list_models(replies.deep_view()) && concat_models(replies.deep_view()).len() > 0
                ==> (r matches Ok(v) && v.deep_view() == concat_models(replies.deep_view())),
    {
        let ghost reps = replies.deep_view();
        let mut models: Vec<ModelInfo> = Vec::new();
        let mut i: usize = 0;
        proof {
            assert(reps.skip(0) =~= reps);
            assert(reps.take(0) =~= Seq::<ProxyReplyView>::empty());
            assert(models.deep_view() =~= Seq::<ModelInfoView>::empty());
        }
        while i < replies.len()
            invariant
                i <= replies.len(),
                reps == replies.deep_view(),
                reps.len() == replies@.len(),
                forall|j: int| 0 <= j < i ==> reply_models(#[trigger] reps[j]) is Some,
                models.deep_view() == concat_models(reps.take(i as int)),
                first_bad_message(reps) == first_bad_message(reps.skip(i as int)),
            decreases replies.len() - i,
        {
            let ghost pre = models.deep_view();
            proof {
                assert(reps[i as int] == replies@[i as int]@);
                assert(reps.skip(i as int)[0] == reps[i as int]);
                assert(reps.take(i + 1).drop_last() =~= reps.take(i as int));
                assert(reps.take(i + 1).last() == reps[i as int]);
            }
            match &replies[i] {
                ProxyReply::Response(ProxyResponse::ListModels { models: ms }) => {
                    let mut extended = clone_vec_dv(ms);
                    models.append(&mut extended);
                    proof {
                        assert(models.deep_view() =~= pre + ms.deep_view());
                    }
                },
                ProxyReply::Response(ProxyResponse::Completion { .. }) => {
                    return Err(ChatStateError::UpstreamError {
                        message: "unexpected response from proxy".to_owned(),
                    });
                },
                ProxyReply::Response(ProxyResponse::Error { error }) => {
                    return Err(ChatStateError::UpstreamError { message: error.clone() });
                },
                ProxyReply::TransportError(e) => {
                    return Err(ChatStateError::UpstreamError { message: e.clone() });
                },
            }
            i = i + 1;
            proof {
                assert(models.deep_view() == concat_models(reps.take(i as int)));
                assert(reps.skip(i - 1).skip(1) =~= reps.skip(i as int));
            }
        }
        proof {
            assert(reps.take(reps.len() as int) =~= reps);
        }
        if models.len() == 0 {
            Err(ChatStateError::NoModels)
        } else {
            Ok(models)
        }
    }
}

/// Accepts a provider's reply to a completion request: the completion on
/// success, an upstream error on a provider error or an answer out of
/// protocol.
pub fn accept_proxy_response(response: ProxyResponse) -> (r: Result<
    CompletionResponse,
    ChatStateError,
>)
    ensures
        response matches ProxyResponse::Completion { completion } ==> (r matches Ok(c) && c
            == completion),
        response matches ProxyResponse::Error { error } ==> (r matches Err(
            ChatStateError::UpstreamError { message },
        ) && message == error),
        response matches ProxyResponse::ListModels { .. } ==> (r matches Err(
            ChatStateError::UpstreamError { message },
        ) && message@ == "unexpected response from proxy"@),
{
    match response {
        ProxyResponse::Completion { completion } => Ok(completion),
        ProxyResponse::Error { error } => Err(ChatStateError::UpstreamError { message: error }),
        ProxyResponse::ListModels { .. } => Err(ChatStateError::UpstreamError {
            message: "unexpected response from proxy".to_owned(),
        }),
    }
}

impl ChatState {
    /// Aggregated tool catalog of the configured servers, or `None` when
    /// it is empty — an empty catalog is a valid state, not an error.
    pub fn get_tools(&self) -> (r: Option<Vec<Tool>>)
        ensures
            catalog(self@.settings.mcp_servers).len() == 0 ==> r is None,
            catalog(self@.settings.mcp_servers).len() > 0 ==> (r matches Some(v) && v.deep_view()
                == catalog(self@.settings.mcp_servers)),
    {
        let ghost servers = self@.settings.mcp_servers;
        let mut tools: Vec<Tool> = Vec::new();
        let mut i: usize = 0;
        proof {
            assert(servers.take(0) =~= Seq::<McpServerView>::empty());
            assert(tools.deep_view() =~= Seq::<ToolView>::empty());
        }
        while i < self.settings.mcp_servers.len()
            invariant
                i <= self.settings.mcp_servers.len(),
                servers == self@.settings.mcp_servers,
                servers.len() == self.settings.mcp_servers@.len(),
                tools.deep_view() == catalog(servers.take(i as int)),
            decreases self.settings.mcp_servers.len() - i,
        {
            let ghost pre = tools.deep_view();
            proof {
                assert(servers[i as int] == self.settings.mcp_servers@[i as int]@);
                assert(servers.take(i + 1).drop_last() =~= servers.take(i as int));
                assert(servers.take(i + 1).last() == servers[i as int]);
            }
            let server = &self.settings.mcp_servers[i];
            if server.actor_id.is_some() {
                if let Some(ts) = &server.tools {
                    let mut extended = clone_vec_dv(ts);
                    tools.append(&mut extended);
                    proof {
                        assert(tools.deep_view() =~= pre + ts.deep_view());
                    }
                }
            }
            i = i + 1;
            proof {
                assert(tools.deep_view() == catalog(servers.take(i as int)));
            }
        }
        proof {
            assert(servers.take(servers.len() as int) =~= servers);
        }
        if tools.len() == 0 {
            proof {
                assert(catalog(servers).len() == 0);
            }
            None
        } else {
            Some(tools)
        }
    }

    /// The tool catalog when a caller explicitly asks for tools: an empty
    /// catalog is then a `ToolsUnavailable` error.
    pub fn list_tools(&self) -> (r: Result<Vec<Tool>, ChatStateError>)
        ensures
            catalog(self@.settings.mcp_servers).len() == 0 ==> r matches Err(
                ChatStateError::ToolsUnavailable,
            ),
            catalog(self@.settings.mcp_servers).len() > 0 ==> (r matches Ok(v) && v.deep_view()
                == catalog(self@.settings.mcp_servers)),
    {
        match self.get_tools() {
            Some(v) => Ok(v),
            None => Err(ChatStateError::ToolsUnavailable),
        }
    }

    /// Routes one tool name across the configured servers: first
    /// advertising server wins.
    pub fn route_tool(&self, name: &String) -> (r: ToolRoute)
        ensures
            r@ == spec_route(self@.settings.mcp_servers, name@),
    {
        let ghost servers = self@.settings.mcp_servers;
        let mut i: usize = 0;
        proof {
            assert(servers.skip(0) =~= servers);
        }
        while i < self.settings.mcp_servers.len()
            invariant
                i <= self.settings.mcp_servers.len(),
                servers == self@.settings.mcp_servers,
                servers.len() == self.settings.mcp_servers@.len(),
                spec_route(servers, name@) == spec_route(servers.skip(i as int), name@),
            decreases self.settings.mcp_servers.len() - i,
        {
            proof {
                assert(servers[i as int] == self.settings.mcp_servers@[i as int]@);
                assert(servers.skip(i as int)[0] == servers[i as int]);
            }
            let server = &self.settings.mcp_servers[i];
            if server.has_tool(name) {
                match &server.actor_id {
                    Some(a) => {
                        return ToolRoute::Server { actor_id: a.clone() };
                    },
                    None => {
                        return ToolRoute::NotStarted;
                    },
                }
            }
            i = i + 1;
            proof {
                assert(servers.skip(i - 1).skip(1) =~= servers.skip(i as int));
            }
        }
        proof {
            assert(servers.skip(servers.len() as int) =~= Seq::<McpServerView>::empty());
        }
        ToolRoute::NotFound
    }

    /// The registered proxy of this name, by first match.
    pub fn find_proxy(&self, name: &String) -> (r: Option<&crate::proxy::Proxy>)
        ensures
            match spec_find_proxy(self@.proxies, name@) {
                Some(p) => r matches Some(q) && q@ == p,
                None => r is None,
            },
    {
        let ghost proxies = self@.proxies;
        let mut i: usize = 0;
        proof {
            assert(proxies.skip(0) =~= proxies);
        }
        while i < self.proxies.len()
            invariant
                i <= self.proxies.len(),
                proxies == self@.proxies,
                proxies.len() == self.proxies@.len(),
                spec_find_proxy(proxies, name@) == spec_find_proxy(proxies.skip(i as int), name@),
            decreases self.proxies.len() - i,
        {
            proof {
                assert(proxies[i as int] == self.proxies@[i as int]@);
                assert(proxies.skip(i as int)[0] == proxies[i as int]);
            }
            if self.proxies[i].name == *name {
                return Some(&self.proxies[i]);
            }
            i = i + 1;
            proof {
                assert(proxies.skip(i - 1).skip(1) =~= proxies.skip(i as int));
            }
        }
        proof {
            assert(proxies.skip(proxies.len() as int) =~= Seq::<ProxyView>::empty());
        }
        None
    }

    /// Plans one tool call by name: the target server's actor id and the
    /// invocation payload, or the routing failure.
    pub fn call_tool(&self, name: String, input: String) -> (r: Result<
        PlannedToolCall,
        ChatStateError,
    >)
        ensures
            match spec_route(self@.settings.mcp_servers, name@) {
                ToolRouteView::Server { actor_id } => r matches Ok(c) && c@
                    == (PlannedToolCallView {
                    tool_use_id: Seq::empty(),
                    name: name@,
                    input: input@,
                    route: ToolRouteView::Server { actor_id },
                }),
                ToolRouteView::NotFound => r matches Err(ChatStateError::ToolNotFound { name: n })
                    && n@ == name@,
                ToolRouteView::NotStarted => r matches Err(
                    ChatStateError::ServerNotStarted { name: n },
                ) && n@ == name@,
            },
    {
        let route = self.route_tool(&name);
        match route {
            ToolRoute::Server { actor_id } => Ok(PlannedToolCall {
                tool_use_id: String::new(),
                name,
                input,
                route: ToolRoute::Server { actor_id },
            }),
            ToolRoute::NotFound => Err(ChatStateError::ToolNotFound { name }),
            ToolRoute::NotStarted => Err(ChatStateError::ServerNotStarted { name }),
        }
    }
}

impl crate::settings::McpServer {
    /// Plans a call of one of this server's tools: the server must have
    /// been started and must advertise the tool. The call itself is the
    /// host's round trip; a server with no cached tool list advertises
    /// nothing (`ToolsUnavailable`).
    pub fn call_tool(&self, tool: String, args: String) -> (r: Result<
        PlannedToolCall,
        ChatStateError,
    >)
        ensures
            self@.actor_id is None ==> (r matches Err(ChatStateError::ServerNotStarted { name })
                && name@ == tool@),
            self@.actor_id is Some && self@.tools is None ==> r matches Err(
                ChatStateError::ToolsUnavailable,
            ),
            self@.actor_id is Some && self@.tools is Some && !spec_has_tool(self@, tool@) ==> (
            r matches Err(ChatStateError::ToolNotFound { name }) && name@ == tool@),
            self@.actor_id is Some && spec_has_tool(self@, tool@) ==> (r matches Ok(c) && c@
                == (PlannedToolCallView {
                tool_use_id: Seq::empty(),
                name: tool@,
                input: args@,
                route: ToolRouteView::Server { actor_id: self@.actor_id.unwrap() },
            })),
    {
        let actor_id = match &self.actor_id {
            Some(a) => a.clone(),
            None => {
                return Err(ChatStateError::ServerNotStarted { name: tool });
            },
        };
        if self.tools.is_none() {
            return Err(ChatStateError::ToolsUnavailable);
        }
        if !self.has_tool(&tool) {
            return Err(ChatStateError::ToolNotFound { name: tool });
        }
        Ok(PlannedToolCall {
            tool_use_id: String::new(),
            name: tool,
            input: args,
            route: ToolRoute::Server { actor_id },
        })
    }
}

/// The provider messages of one chronological chain: every entry
/// projected down to a plain message, in chain order.
pub open spec fn request_messages(chain: Seq<ChatMessageView>) -> Seq<MessageView> {
    Seq::new(chain.len(), |i: int| crate::entry::message_of_entry(chain[i].entry))
}

/// The completion request one state asks of its provider: the projected
/// chain, the settings' generation parameters, and the tool catalog
/// (absent when empty).
pub open spec fn build_request_model(s: crate::state::StateView) -> CompletionRequestView {
    CompletionRequestView {
        model: s.settings.model_config.model,
        messages: request_messages(s.chain()),
        max_tokens: s.settings.max_tokens,
        temperature: s.settings.temperature,
        system: s.settings.system_prompt,
        tools: if catalog(s.settings.mcp_servers).len() == 0 {
            None
        } else {
            Some(catalog(s.settings.mcp_servers))
        },
        tool_choice: None,
        disable_parallel_tool_use: None,
    }
}

/// The content blocks of a completion entry; any other entry has none.
pub open spec fn completion_content(e: ChatEntryView) -> Seq<MessageContentView> {
    match e {
        ChatEntryView::Completion(c) => c.content,
        _ => Seq::empty(),
    }
}

impl ChatState {
    /// Builds the provider round trip for the current chain: the target
    /// is the proxy the settings name; the request carries the projected
    /// chain, the generation parameters and the tool catalog. Fails with
    /// `ProviderNotFound` when the named proxy is not registered.
    pub fn build_completion_request(&self) -> (r: Result<ProviderCall, ChatStateError>)
        requires
            self.wf(),
        ensures
            match spec_find_proxy(self@.proxies, self@.settings.model_config.provider) {
                Some(p) => r matches Ok(call) && call.proxy_actor_id@ == p.actor_id
                    && call.request@ == build_request_model(self@),
                None => r matches Err(ChatStateError::ProviderNotFound { name }) && name@
                    == self@.settings.model_config.provider,
            },
    {
        let proxy_actor_id = match self.find_proxy(&self.settings.model_config.provider) {
            Some(p) => p.actor_id().clone(),
            None => {
                return Err(ChatStateError::ProviderNotFound {
                    name: self.settings.model_config.provider.clone(),
                });
            },
        };
        let chain = self.get_chain();
        let ghost chain_v = self@.chain();
        let mut messages: Vec<Message> = Vec::new();
        let mut i: usize = 0;
        while i < chain.len()
            invariant
                i <= chain.len(),
                chain.deep_view() == chain_v,
                chain@.len() == chain_v.len(),
                messages.deep_view().len() == i,
                forall|j: int|
                    0 <= j < i ==> messages.deep_view()[j] == request_messages(chain_v)[j],
            decreases chain.len() - i,
        {
            let ghost pre = messages.deep_view();
            let m = chain[i].entry.to_message();
            proof {
                assert(chain@[i as int]@ == chain_v[i as int]);
            }
            messages.push(m);
            proof {
                assert(messages.deep_view() =~= pre.push(m@));
            }
            i = i + 1;
        }
        let request = CompletionRequest {
            model: self.settings.model_config.model.clone(),
            messages,
            max_tokens: self.settings.max_tokens,
            temperature: self.settings.temperature,
            system: crate::types::clone_opt_string(&self.settings.system_prompt),
            tools: self.get_tools(),
            tool_choice: None,
            disable_parallel_tool_use: None,
        };
        proof {
            assert(request@.messages =~= request_messages(chain_v));
            assert(request@ =~= build_request_model(self@));
        }
        Ok(ProviderCall { proxy_actor_id, request })
    }

    /// Opens a completion cycle under the caller's token. Fails with
    /// `AlreadyPending` while a cycle is open, with `EmptyConversation`
    /// on an empty chain, and with `ProviderNotFound` when the settings
    /// name an unregistered provider — each failure leaving the state
    /// unchanged, the head in particular. On success the single-flight
    /// token is set and the provider round trip to perform is returned;
    /// the cycle stays open until a continuation step resolves it.
    pub fn generate_completion(&mut self, token: String) -> (r: Result<
        ProviderCall,
        ChatStateError,
    >)
        requires
            old(self).wf(),
        ensures
            final(self).wf(),
            old(self)@.pending_completion is Some ==> (r matches Err(
                ChatStateError::AlreadyPending,
            ) && final(self)@ == old(self)@),
            old(self)@.pending_completion is None && old(self)@.head is None ==> (r matches Err(
                ChatStateError::EmptyConversation,
            ) && final(self)@ == old(self)@),
            old(self)@.pending_completion is None && old(self)@.head is Some ==> match
                spec_find_proxy(old(self)@.proxies, old(self)@.settings.model_config.provider) {
                Some(p) => {
                    &&& r matches Ok(call)
                    &&& call.proxy_actor_id@ == p.actor_id
                    &&& call.request@ == build_request_model(old(self)@)
                    &&& final(self)@ == (crate::state::StateView {
                        pending_completion: Some(token@),
                        ..old(self)@
                    })
                },
                None => {
                    &&& r matches Err(ChatStateError::ProviderNotFound { name }) && name@ == old(self)@.settings.model_config.provider
                    &&& final(self)@ == old(self)@
                },
            },
    {
        if self.pending_completion.is_some() {
            return Err(ChatStateError::AlreadyPending);
        }
        if self.head.is_none() {
            return Err(ChatStateError::EmptyConversation);
        }
        match self.build_completion_request() {
            Ok(call) => {
                self.pending_completion = Some(token);
                proof {
                    assert(final(self)@ =~= (crate::state::StateView {
                        pending_completion: Some(token@),
                        ..old(self)@
                    }));
                }
                Ok(call)
            },
            Err(e) => Err(e),
        }
    }

    /// Resolves the open cycle, if any: clears the single-flight token
    /// and returns the deferred reply owed to it, carrying the current
    /// head. A call with no cycle open is a no-op.
    pub fn resolve_pending_completion(&mut self) -> (r: Option<Resolution>)
        ensures
            final(self)@ == (crate::state::StateView {
                pending_completion: None,
                ..old(self)@
            }),
            match old(self)@.pending_completion {
                Some(t) => r matches Some(res) && res@.token == t && res@.head == old(self)@.head,
                None => r is None,
            },
    {
        let taken = self.pending_completion.take();
        let r = match taken {
            Some(token) => Some(Resolution { token, head: self.head }),
            None => None,
        };
        proof {
            assert(final(self)@ =~= (crate::state::StateView {
                pending_completion: None,
                ..old(self)@
            }));
        }
        r
    }

    /// One continuation step, entered after an append. A terminal entry
    /// at the head — a plain message, an error, or a completion that
    /// stops for any reason but tool use — closes the cycle: the pending
    /// token is cleared and the deferred reply, if one was owed, is
    /// returned. A tool-use completion instead yields the planned calls,
    /// one per invocation block in block order, and leaves the state
    /// untouched; their outcomes come back through `submit_tool_results`.
    /// An empty conversation has nothing to continue.
    pub fn continue_chain(&mut self) -> (r: Result<ContinueOutcome, ChatStateError>)
        requires
            old(self).wf(),
        ensures
            final(self).wf(),
            old(self)@.head is None ==> (r matches Err(ChatStateError::EmptyConversation) && final(self)@ == old(self)@),
            old(self)@.head matches Some(h) && entry_is_terminal(old(self)@.messages[h].entry)
                ==> {
                &&& final(self)@ == (crate::state::StateView {
                    pending_completion: None,
                    ..old(self)@
                })
                &&& r matches Ok(ContinueOutcome::Resolved { reply })
                &&& match old(self)@.pending_completion {
                    Some(t) => reply matches Some(res) && res@.token == t && res@.head == old(self)@.head,
                    None => reply is None,
                }
            },
            old(self)@.head matches Some(h) && !entry_is_terminal(old(self)@.messages[h].entry)
                ==> {
                &&& final(self)@ == old(self)@
                &&& r matches Ok(ContinueOutcome::RunTools { calls })
                &&& calls.deep_view() == spec_plan(
                    completion_content(old(self)@.messages[old(self)@.head.unwrap()].entry),
                    old(self)@.settings.mcp_servers,
                )
            },
    {
        let h = match self.head {
            Some(h) => h,
            None => {
                return Err(ChatStateError::EmptyConversation);
            },
        };
        let terminal = match &self.messages[h].entry {
            ChatEntry::Completion(c) => match c.stop_reason {
                StopReason::ToolUse => false,
                _ => true,
            },
            _ => true,
        };
        if terminal {
            let reply = self.resolve_pending_completion();
            return Ok(ContinueOutcome::Resolved { reply });
        }
        let ghost servers = self@.settings.mcp_servers;
        let ghost content_v = completion_content(self@.messages[h as int].entry);
        let mut calls: Vec<PlannedToolCall> = Vec::new();
        proof {
            assert(content_v.take(0) =~= Seq::<MessageContentView>::empty());
            assert(calls.deep_view() =~= Seq::<PlannedToolCallView>::empty());
        }
        if let ChatEntry::Completion(c) = &self.messages[h].entry {
            let mut i: usize = 0;
            while i < c.content.len()
                invariant
                    i <= c.content.len(),
                    self@ == old(self)@,
                    servers == self@.settings.mcp_servers,
                    content_v == c.content.deep_view(),
                    content_v.len() == c.content@.len(),
                    calls.deep_view() == spec_plan(content_v.take(i as int), servers),
                decreases c.content.len() - i,
            {
                let ghost pre = calls.deep_view();
                proof {
                    assert(content_v[i as int] == c.content@[i as int]@);
                    assert(content_v.take(i + 1).drop_last() =~= content_v.take(i as int));
                    assert(content_v.take(i + 1).last() == content_v[i as int]);
                }
                match &c.content[i] {
                    MessageContent::ToolUse { id, name, input } => {
                        let route = self.route_tool(name);
                        calls.push(PlannedToolCall {
                            tool_use_id: id.clone(),
                            name: name.clone(),
                            input: input.clone(),
                            route,
                        });
                        proof {
                            assert(calls.deep_view() =~= pre.push(
                                PlannedToolCallView {
                                    tool_use_id: id@,
                                    name: name@,
                                    input: input@,
                                    route: spec_route(servers, name@),
                                },
                            ));
                        }
                    },
                    _ => {},
                }
                i = i + 1;
                proof {
                    assert(calls.deep_view() == spec_plan(content_v.take(i as int), servers));
                }
            }
            proof {
                assert(content_v.take(content_v.len() as int) =~= content_v);
            }
        }
        Ok(ContinueOutcome::RunTools { calls })
    }

    /// Submits the outcomes of the planned tool calls of one tool-use
    /// completion: appends a single user message carrying one tool-result
    /// block per outcome, in outcome order — a failed call contributing
    /// an error-flagged block — and builds the next provider round trip.
    /// The cycle stays open. Fails with `ProviderNotFound` (the message
    /// is then already appended) when the settings name an unregistered
    /// provider; the caller closes the cycle with `fail_completion`.
    pub fn submit_tool_results(&mut self, outcomes: Vec<ToolOutcome>) -> (r: Result<
        (usize, Vec<crate::state::Notice>, ProviderCall),
        ChatStateError,
    >)
        requires
            old(self).wf(),
            old(self)@.messages.len() < usize::MAX,
        ensures
            final(self).wf(),
            ({
                let entry = ChatEntryView::Message(
                    MessageView { role: Role::User, content: results_content(outcomes.deep_view()) },
                );
                let s1 = old(self)@.append_model(entry);
                &&& final(self)@ == s1
                &&& match spec_find_proxy(s1.proxies, s1.settings.model_config.provider) {
                    Some(p) => {
                        &&& r matches Ok(t)
                        &&& t.0 == old(self)@.messages.len()
                        &&& t.1.deep_view() == crate::state::fanout_model(
                            old(self)@.subscription_channels,
                            Some(t.0 as int),
                            old(self)@.appended_node(entry),
                        )
                        &&& t.2.proxy_actor_id@ == p.actor_id
                        &&& t.2.request@ == build_request_model(s1)
                    },
                    None => r matches Err(ChatStateError::ProviderNotFound { name }) && name@
                        == s1.settings.model_config.provider,
                }
            }),
    {
        let ghost outs = outcomes.deep_view();
        let mut blocks: Vec<MessageContent> = Vec::new();
        let mut i: usize = 0;
        while i < outcomes.len()
            invariant
                i <= outcomes.len(),
                outs == outcomes.deep_view(),
                outs.len() == outcomes@.len(),
                blocks.deep_view().len() == i,
                forall|j: int| 0 <= j < i ==> blocks.deep_view()[j] == result_block(outs[j]),
            decreases outcomes.len() - i,
        {
            let ghost pre = blocks.deep_view();
            proof {
                assert(outs[i as int] == outcomes@[i as int]@);
            }
            let block = match &outcomes[i].result {
                ToolOutcomeResult::Success { content } => MessageContent::ToolResult {
                    tool_use_id: outcomes[i].tool_use_id.clone(),
                    content: clone_vec_dv(content),
                    is_error: None,
                },
                ToolOutcomeResult::Failure { message } => {
                    let mut text: Vec<ToolContent> = Vec::new();
                    text.push(ToolContent::Text { text: message.clone() });
                    proof {
                        assert(text.deep_view() =~= seq![
                            ToolContentView::Text { text: message@ },
                        ]);
                    }
                    MessageContent::ToolResult {
                        tool_use_id: outcomes[i].tool_use_id.clone(),
                        content: text,
                        is_error: Some(true),
                    }
                },
            };
            proof {
                assert(block@ == result_block(outs[i as int]));
            }
            blocks.push(block);
            proof {
                assert(blocks.deep_view() =~= pre.push(result_block(outs[i as int])));
            }
            i = i + 1;
        }
        proof {
            assert(blocks.deep_view() =~= results_content(outs));
        }
        let message = Message { role: Role::User, content: blocks };
        let entry = ChatEntry::Message(message);
        proof {
            assert(entry@ == ChatEntryView::Message(
                MessageView { role: Role::User, content: results_content(outs) },
            ));
        }
        let (id, notices) = self.add_message(entry);
        match self.build_completion_request() {
            Ok(call) => Ok((id, notices, call)),
            Err(e) => Err(e),
        }
    }

    /// Records an upstream failure met during the cycle and closes the
    /// cycle: appends an error entry and resolves the deferred reply, so
    /// the original caller is answered rather than left hanging.
    pub fn fail_completion(&mut self, message: String, code: Option<String>) -> (r: (
        usize,
        Vec<crate::state::Notice>,
        Option<Resolution>,
    ))
        requires
            old(self).wf(),
            old(self)@.messages.len() < usize::MAX,
        ensures
            final(self).wf(),
            ({
                let entry = ChatEntryView::Error(
                    crate::entry::ChatErrorView { message: message@, code: code.deep_view() },
                );
                &&& final(self)@ == (crate::state::StateView {
                    pending_completion: None,
                    ..old(self)@.append_model(entry)
                })
                &&& r.0 == old(self)@.messages.len()
                &&& r.1.deep_view() == crate::state::fanout_model(
                    old(self)@.subscription_channels,
                    Some(r.0 as int),
                    old(self)@.appended_node(entry),
                )
                &&& match old(self)@.pending_completion {
                    Some(t) => r.2 matches Some(res) && res@.token == t && res@.head == Some(
                        r.0 as int,
                    ),
                    None => r.2 is None,
                }
            }),
    {
        let (id, notices) = self.add_message(
            ChatEntry::Error(crate::entry::ChatError { message, code }),
        );
        let reply = self.resolve_pending_completion();
        proof {
            assert(final(self)@ =~= (crate::state::StateView {
                pending_completion: None,
                ..old(self)@.append_model(
                    ChatEntryView::Error(
                        crate::entry::ChatErrorView { message: message@, code: code.deep_view() },
                    ),
                )
            }));
        }
        (id, notices, reply)
    }
}

} // verus!
