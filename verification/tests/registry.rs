use chat_state::entry::{ChatEntry, ChatError};
use chat_state::errors::ChatStateError;
use chat_state::orchestrator::ToolRoute;
use chat_state::protocol::{create_error_response, internal_to_client_settings, ChatStateResponse};
use chat_state::settings::{
    ActorMcpConfig, ConversationSettings, InitConversationSettings, McpConfig, McpServer,
    ModelConfig, StdPipeMcpConfig,
};
use chat_state::state::ChatState;
use chat_state::types::{CompletionResponse, Message, MessageContent, Role, StopReason, Tool, Usage};
use chat_state::utils::estimate_token_count;

fn tool(name: &str) -> Tool {
    Tool {
        name: name.to_string(),
        description: Some("a tool".to_string()),
        input_schema: "{}".to_string(),
    }
}

fn server(actor_id: Option<&str>, tools: Option<Vec<Tool>>) -> McpServer {
    McpServer {
        actor_id: actor_id.map(|s| s.to_string()),
        config: McpConfig::StdPipe(StdPipeMcpConfig {
            command: "mcp".to_string(),
            args: vec!["--serve".to_string()],
        }),
        tools,
    }
}

fn state_with(servers: Vec<McpServer>) -> ChatState {
    ChatState::new(
        "actor-1".to_string(),
        "conv-1".to_string(),
        Vec::new(),
        "store-1".to_string(),
        ConversationSettings {
            model_config: ModelConfig { model: "m".to_string(), provider: "p".to_string() },
            temperature: None,
            max_tokens: 64,
            system_prompt: None,
            title: "t".to_string(),
            mcp_servers: servers,
        },
    )
}

#[test]
fn empty_catalog_is_valid_for_get_tools_but_an_error_for_list_tools() {
    let state = state_with(vec![]);
    assert!(state.get_tools().is_none());
    assert!(matches!(state.list_tools(), Err(ChatStateError::ToolsUnavailable)));
}

#[test]
fn catalog_unions_started_servers_in_order() {
    let state = state_with(vec![
        server(Some("a1"), Some(vec![tool("one"), tool("two")])),
        server(None, Some(vec![tool("hidden")])),
        server(Some("a2"), Some(vec![tool("three")])),
        server(Some("a3"), None),
    ]);
    let tools = state.list_tools().unwrap();
    let names: Vec<&str> = tools.iter().map(|t| t.name.as_str()).collect();
    assert_eq!(names, vec!["one", "two", "three"]);
}

#[test]
fn call_tool_routes_to_first_advertising_server() {
    let state = state_with(vec![
        server(Some("a1"), Some(vec![tool("one")])),
        server(Some("a2"), Some(vec![tool("two")])),
    ]);
    let planned = state.call_tool("two".to_string(), "{}".to_string()).unwrap();
    assert_eq!(planned.name, "two");
    assert_eq!(planned.input, "{}");
    assert!(matches!(&planned.route, ToolRoute::Server { actor_id } if actor_id == "a2"));
}

#[test]
fn call_tool_unknown_name_fails_not_found() {
    let state = state_with(vec![server(Some("a1"), Some(vec![tool("one")]))]);
    let err = state.call_tool("nope".to_string(), "{}".to_string()).unwrap_err();
    assert!(matches!(err, ChatStateError::ToolNotFound { name } if name == "nope"));
}

#[test]
fn call_tool_on_unstarted_server_fails_server_not_started() {
    let state = state_with(vec![server(None, Some(vec![tool("one")]))]);
    let err = state.call_tool("one".to_string(), "{}".to_string()).unwrap_err();
    assert!(matches!(err, ChatStateError::ServerNotStarted { name } if name == "one"));
}

#[test]
fn has_tool_needs_a_cached_list() {
    let with_list = server(Some("a1"), Some(vec![tool("one")]));
    assert!(with_list.has_tool(&"one".to_string()));
    assert!(!with_list.has_tool(&"two".to_string()));
    let without_list = server(Some("a1"), None);
    assert!(!without_list.has_tool(&"one".to_string()));
}

#[test]
fn servers_are_started_at_most_once() {
    let mut state = state_with(vec![
        server(Some("a1"), Some(vec![])),
        server(None, None),
        server(None, None),
    ]);
    let first = state.next_unstarted_server().unwrap();
    assert_eq!(first, 1);
    state.server_started(first, "b1".to_string(), vec![tool("one")]);
    let second = state.next_unstarted_server().unwrap();
    assert_eq!(second, 2);
    state.server_started(second, "b2".to_string(), vec![]);
    assert!(state.next_unstarted_server().is_none());
    let started = &state.get_settings().mcp_servers[1];
    assert_eq!(started.actor_id.as_deref(), Some("b1"));
    assert_eq!(started.tools.as_ref().unwrap()[0].name, "one");
}

#[test]
fn server_call_tool_checks_start_list_and_name() {
    let unstarted = server(None, Some(vec![tool("one")]));
    assert!(matches!(
        unstarted.call_tool("one".to_string(), "{}".to_string()),
        Err(ChatStateError::ServerNotStarted { name }) if name == "one"
    ));
    let listless = server(Some("a1"), None);
    assert!(matches!(
        listless.call_tool("one".to_string(), "{}".to_string()),
        Err(ChatStateError::ToolsUnavailable)
    ));
    let started = server(Some("a1"), Some(vec![tool("one")]));
    assert!(matches!(
        started.call_tool("two".to_string(), "{}".to_string()),
        Err(ChatStateError::ToolNotFound { name }) if name == "two"
    ));
    let planned = started.call_tool("one".to_string(), "{\"k\":2}".to_string()).unwrap();
    assert_eq!(planned.name, "one");
    assert_eq!(planned.input, "{\"k\":2}");
    assert!(matches!(&planned.route, ToolRoute::Server { actor_id } if actor_id == "a1"));
}

#[test]
fn only_append_and_set_head_move_the_head() {
    let mut state = state_with(vec![server(None, None)]);
    let entry = ChatEntry::Message(Message {
        role: Role::User,
        content: vec![MessageContent::Text { text: "a".to_string() }],
    });
    let (id, _) = state.add_message(entry);
    assert_eq!(state.get_head(), Some(id));
    state.add_subscription_channel("ch".to_string());
    state.remove_subscription_channel(&"ch".to_string());
    state.update_settings(internal_to_client_settings(state.get_settings()));
    let index = state.next_unstarted_server().unwrap();
    state.server_started(index, "b1".to_string(), vec![]);
    let _ = state.list_tools();
    let _ = state.get_chain();
    assert_eq!(state.get_head(), Some(id));
}

#[test]
fn update_settings_replaces_them_wholesale() {
    let mut state = state_with(vec![]);
    let mut new_settings = internal_to_client_settings(state.get_settings());
    new_settings.max_tokens = 9000;
    new_settings.model_config.model = "m2".to_string();
    state.update_settings(new_settings);
    assert_eq!(state.get_settings().max_tokens, 9000);
    assert_eq!(state.get_settings().model_config.model, "m2");
}

#[test]
fn default_settings_values() {
    let s = ConversationSettings::default();
    assert_eq!(s.model_config.model, "gemini-2.5-flash-preview-04-17");
    assert_eq!(s.model_config.provider, "google");
    assert_eq!(s.temperature, None);
    assert_eq!(s.max_tokens, 65535);
    assert_eq!(s.system_prompt, None);
    assert_eq!(s.title, "title");
    assert!(s.mcp_servers.is_empty());
}

#[test]
fn init_settings_without_servers_become_empty_list() {
    let init = InitConversationSettings {
        model_config: ModelConfig { model: "m".to_string(), provider: "p".to_string() },
        temperature: Some(500),
        max_tokens: 32,
        system_prompt: None,
        title: "t".to_string(),
        mcp_servers: None,
    };
    let s = init.into_settings();
    assert_eq!(s.temperature, Some(500));
    assert!(s.mcp_servers.is_empty());
}

#[test]
fn token_estimate_rounds_up_four_bytes_per_token() {
    assert_eq!(estimate_token_count(""), 0);
    assert_eq!(estimate_token_count("a"), 1);
    assert_eq!(estimate_token_count("abcd"), 1);
    assert_eq!(estimate_token_count("abcde"), 2);
    assert_eq!(estimate_token_count("12345678"), 2);
    assert_eq!(estimate_token_count("123456789"), 3);
}

#[test]
fn error_codes_are_stable() {
    assert_eq!(ChatStateError::EmptyConversation.code(), "empty_conversation");
    assert_eq!(ChatStateError::AlreadyPending.code(), "pending_completion");
    assert_eq!(ChatStateError::HeadNotFound { id: 3 }.code(), "head_not_found");
    assert_eq!(
        ChatStateError::ToolNotFound { name: "x".to_string() }.code(),
        "tool_not_found"
    );
    assert_eq!(
        ChatStateError::ServerNotStarted { name: "x".to_string() }.code(),
        "server_not_started"
    );
    assert_eq!(ChatStateError::ToolsUnavailable.code(), "tools_unavailable");
    assert_eq!(
        ChatStateError::ProviderNotFound { name: "x".to_string() }.code(),
        "provider_not_found"
    );
    assert_eq!(
        ChatStateError::UpstreamError { message: "m".to_string() }.code(),
        "upstream_error"
    );
    assert_eq!(ChatStateError::NoModels.code(), "no_models");
}

#[test]
fn error_response_carries_code_and_message() {
    match create_error_response("404", "Message not found") {
        ChatStateResponse::Error { error } => {
            assert_eq!(error.code, "404");
            assert_eq!(error.message, "Message not found");
            assert!(error.details.is_none());
        }
        _ => panic!("expected an error response"),
    }
}

#[test]
fn entries_project_down_to_plain_messages() {
    let msg = ChatEntry::Message(Message {
        role: Role::Assistant,
        content: vec![MessageContent::Text { text: "m".to_string() }],
    });
    let projected = msg.to_message();
    assert!(matches!(projected.role, Role::Assistant));

    let completion_entry = ChatEntry::Completion(CompletionResponse {
        content: vec![MessageContent::Text { text: "c".to_string() }],
        id: "i".to_string(),
        model: "m".to_string(),
        role: Role::Assistant,
        stop_reason: StopReason::EndTurn,
        stop_sequence: None,
        message_type: "message".to_string(),
        usage: Usage { input_tokens: 0, output_tokens: 0 },
    });
    let projected = completion_entry.to_message();
    assert!(matches!(projected.role, Role::Assistant));
    assert!(matches!(&projected.content[0], MessageContent::Text { text } if text == "c"));

    let error_entry =
        ChatEntry::Error(ChatError { message: "oops".to_string(), code: None });
    let projected = error_entry.to_message();
    assert!(matches!(projected.role, Role::User));
    assert!(matches!(&projected.content[0], MessageContent::Text { text } if text == "oops"));
}
