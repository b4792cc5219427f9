use chat_state::entry::ChatEntry;
use chat_state::errors::ChatStateError;
use chat_state::orchestrator::{
    accept_proxy_response, ContinueOutcome, ProxyReply, ProxyResponse, ToolOutcome,
    ToolOutcomeResult, ToolRoute,
};
use chat_state::proxy::Proxy;
use chat_state::settings::{
    ActorMcpConfig, ConversationSettings, McpConfig, McpServer, ModelConfig,
};
use chat_state::state::ChatState;
use chat_state::types::{
    CompletionResponse, Message, MessageContent, ModelInfo, Role, StopReason, Tool, ToolContent,
    Usage,
};

fn settings_with(servers: Vec<McpServer>) -> ConversationSettings {
    ConversationSettings {
        model_config: ModelConfig {
            model: "model-x".to_string(),
            provider: "prov".to_string(),
        },
        temperature: Some(700),
        max_tokens: 1024,
        system_prompt: Some("be brief".to_string()),
        title: "t".to_string(),
        mcp_servers: servers,
    }
}

fn state_with(servers: Vec<McpServer>) -> ChatState {
    ChatState::new(
        "actor-1".to_string(),
        "conv-1".to_string(),
        vec![Proxy::new("prov".to_string(), "prov-actor".to_string())],
        "store-1".to_string(),
        settings_with(servers),
    )
}

fn tool(name: &str) -> Tool {
    Tool {
        name: name.to_string(),
        description: None,
        input_schema: "{}".to_string(),
    }
}

fn started_server(tools: Vec<Tool>) -> McpServer {
    McpServer {
        actor_id: Some("mcp-actor".to_string()),
        config: McpConfig::Actor(ActorMcpConfig {
            manifest_path: "manifest".to_string(),
            init_state: None,
        }),
        tools: Some(tools),
    }
}

fn user_text(text: &str) -> ChatEntry {
    ChatEntry::Message(Message {
        role: Role::User,
        content: vec![MessageContent::Text { text: text.to_string() }],
    })
}

fn completion(stop_reason: StopReason, content: Vec<MessageContent>) -> CompletionResponse {
    CompletionResponse {
        content,
        id: "cmpl-1".to_string(),
        model: "model-x".to_string(),
        role: Role::Assistant,
        stop_reason,
        stop_sequence: None,
        message_type: "message".to_string(),
        usage: Usage { input_tokens: 1, output_tokens: 1 },
    }
}

#[test]
fn generate_completion_on_empty_conversation_fails() {
    let mut state = state_with(vec![]);
    let err = state.generate_completion("tok-1".to_string()).unwrap_err();
    assert!(matches!(err, ChatStateError::EmptyConversation));
    assert_eq!(state.get_head(), None);
    assert_eq!(state.pending_completion, None);
}

#[test]
fn second_generate_completion_fails_already_pending_and_keeps_head() {
    let mut state = state_with(vec![]);
    let (id, _) = state.add_message(user_text("hi"));
    state.generate_completion("tok-1".to_string()).unwrap();
    let err = state.generate_completion("tok-2".to_string()).unwrap_err();
    assert!(matches!(err, ChatStateError::AlreadyPending));
    assert_eq!(state.get_head(), Some(id));
    assert_eq!(state.pending_completion.as_deref(), Some("tok-1"));
}

#[test]
fn generate_completion_builds_request_from_chain_and_settings() {
    let mut state = state_with(vec![started_server(vec![tool("echo")])]);
    state.add_message(user_text("hi"));
    let call = state.generate_completion("tok-1".to_string()).unwrap();
    assert_eq!(call.proxy_actor_id, "prov-actor");
    let req = &call.request;
    assert_eq!(req.model, "model-x");
    assert_eq!(req.max_tokens, 1024);
    assert_eq!(req.temperature, Some(700));
    assert_eq!(req.system.as_deref(), Some("be brief"));
    assert_eq!(req.messages.len(), 1);
    assert!(matches!(req.messages[0].role, Role::User));
    let tools = req.tools.as_ref().expect("catalog is not empty");
    assert_eq!(tools.len(), 1);
    assert_eq!(tools[0].name, "echo");
    assert_eq!(state.pending_completion.as_deref(), Some("tok-1"));
}

#[test]
fn generate_completion_with_unknown_provider_fails_and_keeps_lock_clear() {
    let mut state = ChatState::new(
        "actor-1".to_string(),
        "conv-1".to_string(),
        Vec::new(),
        "store-1".to_string(),
        settings_with(vec![]),
    );
    state.add_message(user_text("hi"));
    let err = state.generate_completion("tok-1".to_string()).unwrap_err();
    assert!(matches!(err, ChatStateError::ProviderNotFound { name } if name == "prov"));
    assert_eq!(state.pending_completion, None);
}

#[test]
fn end_turn_completion_resolves_with_new_head() {
    let mut state = state_with(vec![]);
    state.add_message(user_text("hi"));
    state.generate_completion("tok-1".to_string()).unwrap();
    let response = ProxyResponse::Completion {
        completion: completion(
            StopReason::EndTurn,
            vec![MessageContent::Text { text: "hello".to_string() }],
        ),
    };
    let accepted = accept_proxy_response(response).unwrap();
    let (id, _) = state.add_message(ChatEntry::Completion(accepted));
    match state.continue_chain().unwrap() {
        ContinueOutcome::Resolved { reply } => {
            let res = reply.expect("a deferred reply was owed");
            assert_eq!(res.token, "tok-1");
            assert_eq!(res.head, Some(id));
        }
        _ => panic!("an end-turn completion is terminal"),
    }
    assert_eq!(state.pending_completion, None);
    assert_eq!(state.get_chain().len(), 2);
}

#[test]
fn max_tokens_stop_sequence_and_other_are_terminal() {
    for stop in [
        StopReason::MaxTokens,
        StopReason::StopSequence,
        StopReason::Other("weird".to_string()),
    ] {
        let mut state = state_with(vec![]);
        state.add_message(user_text("hi"));
        state.generate_completion("tok-1".to_string()).unwrap();
        state.add_message(ChatEntry::Completion(completion(stop.clone(), vec![])));
        match state.continue_chain().unwrap() {
            ContinueOutcome::Resolved { reply } => assert!(reply.is_some()),
            _ => panic!("stop reason {:?} must be terminal", stop),
        }
        assert_eq!(state.pending_completion, None);
    }
}

#[test]
fn continue_chain_without_pending_resolves_to_no_reply() {
    let mut state = state_with(vec![]);
    state.add_message(user_text("hi"));
    match state.continue_chain().unwrap() {
        ContinueOutcome::Resolved { reply } => assert!(reply.is_none()),
        _ => panic!("a plain message is terminal"),
    }
}

#[test]
fn continue_chain_on_empty_conversation_fails() {
    let mut state = state_with(vec![]);
    let err = state.continue_chain().unwrap_err();
    assert!(matches!(err, ChatStateError::EmptyConversation));
}

#[test]
fn tool_use_completion_plans_calls_in_block_order() {
    let mut state = state_with(vec![started_server(vec![tool("alpha")])]);
    state.add_message(user_text("hi"));
    state.generate_completion("tok-1".to_string()).unwrap();
    state.add_message(ChatEntry::Completion(completion(
        StopReason::ToolUse,
        vec![
            MessageContent::Text { text: "thinking".to_string() },
            MessageContent::ToolUse {
                id: "use-a".to_string(),
                name: "alpha".to_string(),
                input: "{\"x\":1}".to_string(),
            },
            MessageContent::ToolUse {
                id: "use-b".to_string(),
                name: "beta".to_string(),
                input: "{}".to_string(),
            },
        ],
    )));
    let calls = match state.continue_chain().unwrap() {
        ContinueOutcome::RunTools { calls } => calls,
        _ => panic!("a tool-use completion is not terminal"),
    };
    assert_eq!(calls.len(), 2);
    assert_eq!(calls[0].tool_use_id, "use-a");
    assert_eq!(calls[0].name, "alpha");
    assert_eq!(calls[0].input, "{\"x\":1}");
    assert!(matches!(&calls[0].route, ToolRoute::Server { actor_id } if actor_id == "mcp-actor"));
    assert_eq!(calls[1].tool_use_id, "use-b");
    assert!(matches!(calls[1].route, ToolRoute::NotFound));
    // the cycle stays open while tools run
    assert_eq!(state.pending_completion.as_deref(), Some("tok-1"));
}

#[test]
fn tool_results_are_appended_in_order_with_failures_flagged() {
    let mut state = state_with(vec![started_server(vec![tool("alpha")])]);
    state.add_message(user_text("hi"));
    state.generate_completion("tok-1".to_string()).unwrap();
    state.add_message(ChatEntry::Completion(completion(
        StopReason::ToolUse,
        vec![
            MessageContent::ToolUse {
                id: "use-a".to_string(),
                name: "alpha".to_string(),
                input: "{}".to_string(),
            },
            MessageContent::ToolUse {
                id: "use-b".to_string(),
                name: "beta".to_string(),
                input: "{}".to_string(),
            },
        ],
    )));
    let outcomes = vec![
        ToolOutcome {
            tool_use_id: "use-a".to_string(),
            result: ToolOutcomeResult::Success {
                content: vec![ToolContent::Text { text: "ok".to_string() }],
            },
        },
        ToolOutcome {
            tool_use_id: "use-b".to_string(),
            result: ToolOutcomeResult::Failure { message: "Tool beta not found".to_string() },
        },
    ];
    let (id, _notices, call) = state.submit_tool_results(outcomes).unwrap();
    // the loop asks for a completion again
    assert_eq!(call.proxy_actor_id, "prov-actor");
    assert_eq!(call.request.messages.len(), 3);
    // the appended message carries both result blocks, in order, B flagged
    let message = state.get_message(id).unwrap();
    let blocks = match &message.entry {
        ChatEntry::Message(m) => {
            assert!(matches!(m.role, Role::User));
            &m.content
        }
        _ => panic!("tool results are submitted as a message entry"),
    };
    assert_eq!(blocks.len(), 2);
    match &blocks[0] {
        MessageContent::ToolResult { tool_use_id, content, is_error } => {
            assert_eq!(tool_use_id, "use-a");
            assert_eq!(*is_error, None);
            assert!(matches!(&content[0], ToolContent::Text { text } if text == "ok"));
        }
        _ => panic!("expected a tool-result block"),
    }
    match &blocks[1] {
        MessageContent::ToolResult { tool_use_id, content, is_error } => {
            assert_eq!(tool_use_id, "use-b");
            assert_eq!(*is_error, Some(true));
            assert!(
                matches!(&content[0], ToolContent::Text { text } if text == "Tool beta not found")
            );
        }
        _ => panic!("expected a tool-result block"),
    }
    // still one open cycle: a second generate_completion is refused
    assert!(matches!(
        state.generate_completion("tok-2".to_string()),
        Err(ChatStateError::AlreadyPending)
    ));
}

#[test]
fn tool_use_loop_resolves_once_after_end_turn() {
    let mut state = state_with(vec![started_server(vec![tool("alpha")])]);
    state.add_message(user_text("hi"));
    state.generate_completion("tok-1".to_string()).unwrap();
    // round 1: tool use
    state.add_message(ChatEntry::Completion(completion(
        StopReason::ToolUse,
        vec![MessageContent::ToolUse {
            id: "use-a".to_string(),
            name: "alpha".to_string(),
            input: "{}".to_string(),
        }],
    )));
    let calls = match state.continue_chain().unwrap() {
        ContinueOutcome::RunTools { calls } => calls,
        _ => panic!("tool use expected"),
    };
    assert_eq!(calls.len(), 1);
    let outcomes = vec![ToolOutcome {
        tool_use_id: "use-a".to_string(),
        result: ToolOutcomeResult::Success {
            content: vec![ToolContent::Text { text: "42".to_string() }],
        },
    }];
    let (_, _, _next_call) = state.submit_tool_results(outcomes).unwrap();
    assert_eq!(state.pending_completion.as_deref(), Some("tok-1"));
    // round 2: end turn
    let (last_id, _) = state.add_message(ChatEntry::Completion(completion(
        StopReason::EndTurn,
        vec![MessageContent::Text { text: "done".to_string() }],
    )));
    match state.continue_chain().unwrap() {
        ContinueOutcome::Resolved { reply } => {
            let res = reply.expect("exactly one reply is owed");
            assert_eq!(res.token, "tok-1");
            assert_eq!(res.head, Some(last_id));
        }
        _ => panic!("end turn is terminal"),
    }
    assert_eq!(state.pending_completion, None);
    // a second continuation step owes nothing more
    match state.continue_chain().unwrap() {
        ContinueOutcome::Resolved { reply } => assert!(reply.is_none()),
        _ => panic!("end turn is terminal"),
    }
    // chain: user, completion, tool results, completion — one tool-result
    // message for the one tool-use completion
    assert_eq!(state.get_chain().len(), 4);
}

#[test]
fn fail_completion_records_error_and_resolves() {
    let mut state = state_with(vec![]);
    state.add_message(user_text("hi"));
    state.generate_completion("tok-1".to_string()).unwrap();
    let (id, _notices, reply) =
        state.fail_completion("provider unreachable".to_string(), Some("upstream".to_string()));
    let res = reply.expect("the deferred reply is still owed");
    assert_eq!(res.token, "tok-1");
    assert_eq!(res.head, Some(id));
    assert_eq!(state.pending_completion, None);
    match &state.get_message(id).unwrap().entry {
        ChatEntry::Error(e) => {
            assert_eq!(e.message, "provider unreachable");
            assert_eq!(e.code.as_deref(), Some("upstream"));
        }
        _ => panic!("expected an error entry"),
    }
}

#[test]
fn accept_proxy_response_classifies_replies() {
    let ok = accept_proxy_response(ProxyResponse::Completion {
        completion: completion(StopReason::EndTurn, vec![]),
    });
    assert!(ok.is_ok());
    let err = accept_proxy_response(ProxyResponse::Error { error: "bad".to_string() });
    assert!(matches!(err, Err(ChatStateError::UpstreamError { message }) if message == "bad"));
    let odd = accept_proxy_response(ProxyResponse::ListModels { models: vec![] });
    assert!(matches!(odd, Err(ChatStateError::UpstreamError { .. })));
}

#[test]
fn list_models_aggregates_in_proxy_order() {
    let state = state_with(vec![]);
    let info = |id: &str| ModelInfo {
        id: id.to_string(),
        display_name: id.to_string(),
        max_tokens: 100,
        provider: "prov".to_string(),
    };
    let models = state
        .list_models(vec![
            ProxyReply::Response(ProxyResponse::ListModels { models: vec![info("m1")] }),
            ProxyReply::Response(ProxyResponse::ListModels {
                models: vec![info("m2"), info("m3")],
            }),
        ])
        .unwrap();
    assert_eq!(models.len(), 3);
    assert_eq!(models[0].id, "m1");
    assert_eq!(models[1].id, "m2");
    assert_eq!(models[2].id, "m3");
}

#[test]
fn list_models_fails_on_first_bad_reply() {
    let state = state_with(vec![]);
    let r = state.list_models(vec![
        ProxyReply::Response(ProxyResponse::ListModels { models: vec![] }),
        ProxyReply::TransportError("no route".to_string()),
    ]);
    assert!(matches!(r, Err(ChatStateError::UpstreamError { message }) if message == "no route"));
}

#[test]
fn list_models_with_no_models_fails() {
    let state = state_with(vec![]);
    let r = state.list_models(vec![ProxyReply::Response(ProxyResponse::ListModels {
        models: vec![],
    })]);
    assert!(matches!(r, Err(ChatStateError::NoModels)));
    let r2 = state.list_models(vec![]);
    assert!(matches!(r2, Err(ChatStateError::NoModels)));
}
