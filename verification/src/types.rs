//! Data model of the provider and tool-server interfaces.
//!
//! These types mirror, with plain values only, the wire types the core
//! exchanges with a completion provider and with tool servers: message
//! content blocks, completion requests and responses, stop reasons,
//! tool descriptors and tool results. Structured payloads that the core
//! never inspects (tool inputs, schemas, resources) are carried as their
//! JSON text.

use vstd::prelude::*;

verus! {

/// Role of a message sender.
#[derive(Clone, Copy, Debug, PartialEq, Eq, Structural)]
pub enum Role {
    User,
    Assistant,
    System,
}

/// One content item inside a tool result.
#[derive(Debug)]
pub enum ToolContent {
    Text { text: String },
    Image { data: String, mime_type: String },
    Audio { data: String, mime_type: String },
    Resource { resource: String },
}

/// Abstract value of a [`ToolContent`].
pub enum ToolContentView {
    Text { text: Seq<char> },
    Image { data: Seq<char>, mime_type: Seq<char> },
    Audio { data: Seq<char>, mime_type: Seq<char> },
    Resource { resource: Seq<char> },
}

impl View for ToolContent {
    type V = ToolContentView;

    open spec fn view(&self) -> ToolContentView {
        match self {
            ToolContent::Text { text } => ToolContentView::Text { text: text@ },
            ToolContent::Image { data, mime_type } => ToolContentView::Image {
                data: data@,
                mime_type: mime_type@,
            },
            ToolContent::Audio { data, mime_type } => ToolContentView::Audio {
                data: data@,
                mime_type: mime_type@,
            },
            ToolContent::Resource { resource } => ToolContentView::Resource { resource: resource@ },
        }
    }
}

impl DeepView for ToolContent {
    type V = ToolContentView;

    open spec fn deep_view(&self) -> ToolContentView {
        self.view()
    }
}

impl Clone for ToolContent {
    fn clone(&self) -> (r: Self)
        ensures
            r@ == self@,
    {
        match self {
            ToolContent::Text { text } => ToolContent::Text { text: text.clone() },
            ToolContent::Image { data, mime_type } => ToolContent::Image {
                data: data.clone(),
                mime_type: mime_type.clone(),
            },
            ToolContent::Audio { data, mime_type } => ToolContent::Audio {
                data: data.clone(),
                mime_type: mime_type.clone(),
            },
            ToolContent::Resource { resource } => ToolContent::Resource {
                resource: resource.clone(),
            },
        }
    }
}

/// Clones a vector elementwise, keeping its abstract value, for any
/// element type whose `clone` keeps the element's abstract value.
pub fn clone_vec_dv<T: Clone + DeepView>(v: &Vec<T>) -> (r: Vec<T>)
    requires
        forall|a: &T, b: T| #[trigger] call_ensures(T::clone, (a,), b) ==> a.deep_view() == b.deep_view(),
    ensures
        r.deep_view() == v.deep_view(),
{
    let mut r: Vec<T> = Vec::new();
    let mut i: usize = 0;
    while i < v.len()
        invariant
            i <= v.len(),
            r.deep_view() == v.deep_view().take(i as int),
            forall|a: &T, b: T| #[trigger] call_ensures(T::clone, (a,), b) ==> a.deep_view() == b.deep_view(),
        decreases v.len() - i,
    {
        let ghost pre = r.deep_view();
        let c = v[i].clone();
        proof {
            assert(c.deep_view() == v.deep_view()[i as int]);
        }
        r.push(c);
        proof {
            assert(r.deep_view() =~= pre.push(v.deep_view()[i as int]));
            assert(pre.push(v.deep_view()[i as int]) =~= v.deep_view().take(i + 1 as int));
        }
        i = i + 1;
    }
    proof {
        assert(v.deep_view().take(v.len() as int) =~= v.deep_view());
    }
    r
}

/// Clones an optional string, keeping its abstract value.
pub fn clone_opt_string(v: &Option<String>) -> (r: Option<String>)
    ensures
        r.deep_view() == v.deep_view(),
{
    match v {
        Some(s) => Some(s.clone()),
        None => None,
    }
}

/// One content block of a conversation message. A tool-use block carries
/// the provider's requested invocation; a tool-result block carries what
/// a tool server answered. Tool inputs are carried as JSON text.
#[derive(Debug)]
pub enum MessageContent {
    Text { text: String },
    ToolUse { id: String, name: String, input: String },
    ToolResult { tool_use_id: String, content: Vec<ToolContent>, is_error: Option<bool> },
}

/// Abstract value of a [`MessageContent`].
pub enum MessageContentView {
    Text { text: Seq<char> },
    ToolUse { id: Seq<char>, name: Seq<char>, input: Seq<char> },
    ToolResult { tool_use_id: Seq<char>, content: Seq<ToolContentView>, is_error: Option<bool> },
}

impl View for MessageContent {
    type V = MessageContentView;

    open spec fn view(&self) -> MessageContentView {
        match self {
            MessageContent::Text { text } => MessageContentView::Text { text: text@ },
            MessageContent::ToolUse { id, name, input } => MessageContentView::ToolUse {
                id: id@,
                name: name@,
                input: input@,
            },
            MessageContent::ToolResult { tool_use_id, content, is_error } => {
                MessageContentView::ToolResult {
                    tool_use_id: tool_use_id@,
                    content: content.deep_view(),
                    is_error: *is_error,
                }
            },
        }
    }
}

impl DeepView for MessageContent {
    type V = MessageContentView;

    open spec fn deep_view(&self) -> MessageContentView {
        self.view()
    }
}

impl Clone for MessageContent {
    fn clone(&self) -> (r: Self)
        ensures
            r@ == self@,
    {
        match self {
            MessageContent::Text { text } => MessageContent::Text { text: text.clone() },
            MessageContent::ToolUse { id, name, input } => MessageContent::ToolUse {
                id: id.clone(),
                name: name.clone(),
                input: input.clone(),
            },
            MessageContent::ToolResult { tool_use_id, content, is_error } => {
                MessageContent::ToolResult {
                    tool_use_id: tool_use_id.clone(),
                    content: clone_vec_dv(content),
                    is_error: *is_error,
                }
            },
        }
    }
}

/// One message of a conversation as the completion provider sees it.
#[derive(Debug)]
pub struct Message {
    pub role: Role,
    pub content: Vec<MessageContent>,
}

/// Abstract value of a [`Message`].
#[verifier::ext_equal]
pub struct MessageView {
    pub role: Role,
    pub content: Seq<MessageContentView>,
}

impl View for Message {
    type V = MessageView;

    open spec fn view(&self) -> MessageView {
        MessageView { role: self.role, content: self.content.deep_view() }
    }
}

impl DeepView for Message {
    type V = MessageView;

    open spec fn deep_view(&self) -> MessageView {
        self.view()
    }
}

impl Clone for Message {
    fn clone(&self) -> (r: Self)
        ensures
            r@ == self@,
    {
        Message { role: self.role, content: clone_vec_dv(&self.content) }
    }
}

/// Token usage reported with a completion.
#[derive(Clone, Copy, Debug, PartialEq, Eq, Structural)]
pub struct Usage {
    pub input_tokens: u32,
    pub output_tokens: u32,
}

/// The provider's signal for why generation stopped.
#[derive(Debug)]
pub enum StopReason {
    EndTurn,
    MaxTokens,
    StopSequence,
    ToolUse,
    Other(String),
}

/// Abstract value of a [`StopReason`].
pub enum StopReasonView {
    EndTurn,
    MaxTokens,
    StopSequence,
    ToolUse,
    Other(Seq<char>),
}

impl View for StopReason {
    type V = StopReasonView;

    open spec fn view(&self) -> StopReasonView {
        match self {
            StopReason::EndTurn => StopReasonView::EndTurn,
            StopReason::MaxTokens => StopReasonView::MaxTokens,
            StopReason::StopSequence => StopReasonView::StopSequence,
            StopReason::ToolUse => StopReasonView::ToolUse,
            StopReason::Other(s) => StopReasonView::Other(s@),
        }
    }
}

impl DeepView for StopReason {
    type V = StopReasonView;

    open spec fn deep_view(&self) -> StopReasonView {
        self.view()
    }
}

impl Clone for StopReason {
    fn clone(&self) -> (r: Self)
        ensures
            r@ == self@,
    {
        match self {
            StopReason::EndTurn => StopReason::EndTurn,
            StopReason::MaxTokens => StopReason::MaxTokens,
            StopReason::StopSequence => StopReason::StopSequence,
            StopReason::ToolUse => StopReason::ToolUse,
            StopReason::Other(s) => StopReason::Other(s.clone()),
        }
    }
}

/// A provider's answer to one completion request.
#[derive(Debug)]
pub struct CompletionResponse {
    pub content: Vec<MessageContent>,
    pub id: String,
    pub model: String,
    pub role: Role,
    pub stop_reason: StopReason,
    pub stop_sequence: Option<String>,
    pub message_type: String,
    pub usage: Usage,
}

/// Abstract value of a [`CompletionResponse`].
pub struct CompletionResponseView {
    pub content: Seq<MessageContentView>,
    pub id: Seq<char>,
    pub model: Seq<char>,
    pub role: Role,
    pub stop_reason: StopReasonView,
    pub stop_sequence: Option<Seq<char>>,
    pub message_type: Seq<char>,
    pub usage: Usage,
}

impl View for CompletionResponse {
    type V = CompletionResponseView;

    open spec fn view(&self) -> CompletionResponseView {
        CompletionResponseView {
            content: self.content.deep_view(),
            id: self.id@,
            model: self.model@,
            role: self.role,
            stop_reason: self.stop_reason@,
            stop_sequence: self.stop_sequence.deep_view(),
            message_type: self.message_type@,
            usage: self.usage,
        }
    }
}

impl DeepView for CompletionResponse {
    type V = CompletionResponseView;

    open spec fn deep_view(&self) -> CompletionResponseView {
        self.view()
    }
}

impl Clone for CompletionResponse {
    fn clone(&self) -> (r: Self)
        ensures
            r@ == self@,
    {
        CompletionResponse {
            content: clone_vec_dv(&self.content),
            id: self.id.clone(),
            model: self.model.clone(),
            role: self.role,
            stop_reason: self.stop_reason.clone(),
            stop_sequence: clone_opt_string(&self.stop_sequence),
            message_type: self.message_type.clone(),
            usage: self.usage,
        }
    }
}

/// Tool-choice directive handed to the provider.
#[derive(Debug)]
pub enum ToolChoice {
    Auto,
    Tool { name: String },
    Any,
    NoTools,
}

/// Abstract value of a [`ToolChoice`].
pub enum ToolChoiceView {
    Auto,
    Tool { name: Seq<char> },
    Any,
    NoTools,
}

impl View for ToolChoice {
    type V = ToolChoiceView;

    open spec fn view(&self) -> ToolChoiceView {
        match self {
            ToolChoice::Auto => ToolChoiceView::Auto,
            ToolChoice::Tool { name } => ToolChoiceView::Tool { name: name@ },
            ToolChoice::Any => ToolChoiceView::Any,
            ToolChoice::NoTools => ToolChoiceView::NoTools,
        }
    }
}

impl DeepView for ToolChoice {
    type V = ToolChoiceView;

    open spec fn deep_view(&self) -> ToolChoiceView {
        self.view()
    }
}

impl Clone for ToolChoice {
    fn clone(&self) -> (r: Self)
        ensures
            r@ == self@,
    {
        match self {
            ToolChoice::Auto => ToolChoice::Auto,
            ToolChoice::Tool { name } => ToolChoice::Tool { name: name.clone() },
            ToolChoice::Any => ToolChoice::Any,
            ToolChoice::NoTools => ToolChoice::NoTools,
        }
    }
}

/// Descriptor of one tool a server advertises. The input schema is
/// carried as JSON text; the core only reads the name.
#[derive(Debug)]
pub struct Tool {
    pub name: String,
    pub description: Option<String>,
    pub input_schema: String,
}

/// Abstract value of a [`Tool`].
pub struct ToolView {
    pub name: Seq<char>,
    pub description: Option<Seq<char>>,
    pub input_schema: Seq<char>,
}

impl View for Tool {
    type V = ToolView;

    open spec fn view(&self) -> ToolView {
        ToolView {
            name: self.name@,
            description: self.description.deep_view(),
            input_schema: self.input_schema@,
        }
    }
}

impl DeepView for Tool {
    type V = ToolView;

    open spec fn deep_view(&self) -> ToolView {
        self.view()
    }
}

impl Clone for Tool {
    fn clone(&self) -> (r: Self)
        ensures
            r@ == self@,
    {
        Tool {
            name: self.name.clone(),
            description: clone_opt_string(&self.description),
            input_schema: self.input_schema.clone(),
        }
    }
}

/// Result payload of one tool call.
#[derive(Debug)]
pub struct ToolCallResult {
    pub content: Vec<ToolContent>,
    pub is_error: Option<bool>,
}

/// Abstract value of a [`ToolCallResult`].
pub struct ToolCallResultView {
    pub content: Seq<ToolContentView>,
    pub is_error: Option<bool>,
}

impl View for ToolCallResult {
    type V = ToolCallResultView;

    open spec fn view(&self) -> ToolCallResultView {
        ToolCallResultView { content: self.content.deep_view(), is_error: self.is_error }
    }
}

impl DeepView for ToolCallResult {
    type V = ToolCallResultView;

    open spec fn deep_view(&self) -> ToolCallResultView {
        self.view()
    }
}

impl Clone for ToolCallResult {
    fn clone(&self) -> (r: Self)
        ensures
            r@ == self@,
    {
        ToolCallResult { content: clone_vec_dv(&self.content), is_error: self.is_error }
    }
}

/// A request for one completion, built from the chronological chain,
/// the conversation settings and the current tool catalog. Temperature
/// is carried in thousandths of the unit interval.
#[derive(Debug)]
pub struct CompletionRequest {
    pub model: String,
    pub messages: Vec<Message>,
    pub max_tokens: u32,
    pub temperature: Option<u32>,
    pub system: Option<String>,
    pub tools: Option<Vec<Tool>>,
    pub tool_choice: Option<ToolChoice>,
    pub disable_parallel_tool_use: Option<bool>,
}

/// Abstract value of a [`CompletionRequest`].
#[verifier::ext_equal]
pub struct CompletionRequestView {
    pub model: Seq<char>,
    pub messages: Seq<MessageView>,
    pub max_tokens: u32,
    pub temperature: Option<u32>,
    pub system: Option<Seq<char>>,
    pub tools: Option<Seq<ToolView>>,
    pub tool_choice: Option<ToolChoiceView>,
    pub disable_parallel_tool_use: Option<bool>,
}

impl View for CompletionRequest {
    type V = CompletionRequestView;

    open spec fn view(&self) -> CompletionRequestView {
        CompletionRequestView {
            model: self.model@,
            messages: self.messages.deep_view(),
            max_tokens: self.max_tokens,
            temperature: self.temperature,
            system: self.system.deep_view(),
            tools: self.tools.deep_view(),
            tool_choice: self.tool_choice.deep_view(),
            disable_parallel_tool_use: self.disable_parallel_tool_use,
        }
    }
}

impl DeepView for CompletionRequest {
    type V = CompletionRequestView;

    open spec fn deep_view(&self) -> CompletionRequestView {
        self.view()
    }
}

/// Description of one model a provider offers.
#[derive(Debug)]
pub struct ModelInfo {
    pub id: String,
    pub display_name: String,
    pub max_tokens: u32,
    pub provider: String,
}

/// Abstract value of a [`ModelInfo`].
pub struct ModelInfoView {
    pub id: Seq<char>,
    pub display_name: Seq<char>,
    pub max_tokens: u32,
    pub provider: Seq<char>,
}

impl View for ModelInfo {
    type V = ModelInfoView;

    open spec fn view(&self) -> ModelInfoView {
        ModelInfoView {
            id: self.id@,
            display_name: self.display_name@,
            max_tokens: self.max_tokens,
            provider: self.provider@,
        }
    }
}

impl DeepView for ModelInfo {
    type V = ModelInfoView;

    open spec fn deep_view(&self) -> ModelInfoView {
        self.view()
    }
}

impl Clone for ModelInfo {
    fn clone(&self) -> (r: Self)
        ensures
            r@ == self@,
    {
        ModelInfo {
            id: self.id.clone(),
            display_name: self.display_name.clone(),
            max_tokens: self.max_tokens,
            provider: self.provider.clone(),
        }
    }
}

} // verus!
