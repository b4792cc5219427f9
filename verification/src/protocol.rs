//! The client-facing request and response protocol, and the tool-server
//! request/response envelope.
//!
//! The surrounding request router decodes inbound requests into
//! [`ChatStateRequest`], drives the core, and encodes a
//! [`ChatStateResponse`] back. Structured payloads the core never reads
//! are carried as JSON text.

use vstd::prelude::*;
use crate::entry::ChatMessage;
use crate::settings::ConversationSettings;
use crate::types::{Message, ModelInfo, Tool};

verus! {

/// A request to a tool server: list the tools, or call one by name.
#[derive(Debug)]
pub enum McpActorRequest {
    ToolsList {},
    ToolsCall { name: String, args: String },
}

/// A tool server's error payload.
#[derive(Debug)]
pub struct McpError {
    pub code: i32,
    pub message: String,
    pub data: Option<String>,
}

/// A tool server's response envelope: a result payload or an error,
/// never both.
#[derive(Debug)]
pub struct McpResponse {
    pub jsonrpc: String,
    pub id: String,
    pub result: Option<String>,
    pub error: Option<McpError>,
}

/// A request the conversation core answers.
#[derive(Debug)]
pub enum ChatStateRequest {
    AddMessage { message: Message },
    GenerateCompletion,
    ContinueProcessing,
    GetSettings,
    UpdateSettings { settings: ConversationSettings },
    GetHead,
    SetHead { head: Option<usize> },
    GetHistory,
    GetMessage { message_id: usize },
    GetMetadata,
    ListModels,
    ListTools,
}

/// Error information of a failed client-facing operation.
#[derive(Debug)]
pub struct ErrorInfo {
    /// Machine-readable error code.
    pub code: String,
    /// Human-readable error message.
    pub message: String,
    /// Additional error details, as key/value pairs.
    pub details: Option<Vec<(String, String)>>,
}

/// The payload a client-facing operation answers with.
#[derive(Debug)]
pub enum ChatStateResponse {
    Success,
    History { messages: Vec<ChatMessage> },
    Head { head: Option<usize> },
    ChatMessage { message: ChatMessage },
    Settings { settings: ConversationSettings },
    Error { error: ErrorInfo },
    ToolsList { tools: Vec<Tool> },
    ModelsList { models: Vec<ModelInfo> },
    Metadata { conversation_id: String, store_id: String },
}

/// Builds an error response from a code and a message.
pub fn create_error_response(code: &str, message: &str) -> (r: ChatStateResponse)
    ensures
        r matches ChatStateResponse::Error { error } && error.code@ == code@ && error.message@
            == message@ && error.details is None,
{
    ChatStateResponse::Error {
        error: ErrorInfo { code: code.to_owned(), message: message.to_owned(), details: None },
    }
}

/// Settings as handed to clients; today the internal form is the client
/// form, value for value.
pub fn internal_to_client_settings(settings: &ConversationSettings) -> (r: ConversationSettings)
    ensures
        r@ == settings@,
{
    settings.clone()
}

} // verus!
