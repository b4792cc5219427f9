//! Structured errors of the client-facing operations.
//!
//! Validation, concurrency and not-found errors are returned synchronously
//! to the immediate caller; upstream failures met during the tool-use loop
//! are recorded in the chain and resolved to the deferred caller instead.

use vstd::prelude::*;

verus! {

/// Why a client-facing operation failed.
#[derive(Debug)]
pub enum ChatStateError {
    /// A completion was requested of an empty conversation.
    EmptyConversation,
    /// A completion was requested while one is already in flight.
    AlreadyPending,
    /// `set_head` named an id no append has produced.
    HeadNotFound { id: usize },
    /// A tool invocation named a tool no server advertises.
    ToolNotFound { name: String },
    /// The server advertising the tool has no runtime handle yet.
    ServerNotStarted { name: String },
    /// Tools were asked for while none are configured.
    ToolsUnavailable,
    /// The settings name a provider that is not registered.
    ProviderNotFound { name: String },
    /// A provider or tool server failed or answered out of protocol.
    UpstreamError { message: String },
    /// No registered provider offered any model.
    NoModels,
}

impl ChatStateError {
    /// A stable machine-readable code for the error.
    pub fn code(&self) -> (r: String)
        ensures
            self matches ChatStateError::EmptyConversation ==> r@ == "empty_conversation"@,
            self matches ChatStateError::AlreadyPending ==> r@ == "pending_completion"@,
            self matches ChatStateError::HeadNotFound { .. } ==> r@ == "head_not_found"@,
            self matches ChatStateError::ToolNotFound { .. } ==> r@ == "tool_not_found"@,
            self matches ChatStateError::ServerNotStarted { .. } ==> r@ == "server_not_started"@,
            self matches ChatStateError::ToolsUnavailable ==> r@ == "tools_unavailable"@,
            self matches ChatStateError::ProviderNotFound { .. } ==> r@ == "provider_not_found"@,
            self matches ChatStateError::UpstreamError { .. } ==> r@ == "upstream_error"@,
            self matches ChatStateError::NoModels ==> r@ == "no_models"@,
    {
        match self {
            ChatStateError::EmptyConversation => "empty_conversation".to_owned(),
            ChatStateError::AlreadyPending => "pending_completion".to_owned(),
            ChatStateError::HeadNotFound { .. } => "head_not_found".to_owned(),
            ChatStateError::ToolNotFound { .. } => "tool_not_found".to_owned(),
            ChatStateError::ServerNotStarted { .. } => "server_not_started".to_owned(),
            ChatStateError::ToolsUnavailable => "tools_unavailable".to_owned(),
            ChatStateError::ProviderNotFound { .. } => "provider_not_found".to_owned(),
            ChatStateError::UpstreamError { .. } => "upstream_error".to_owned(),
            ChatStateError::NoModels => "no_models".to_owned(),
        }
    }
}

} // verus!
