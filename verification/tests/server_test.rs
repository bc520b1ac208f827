use mcprs::agent::{AgentRegistry, DummyAgent, MCPError, MCPMessage};
use mcprs::auth::AuthConfig;
use mcprs::conversation::ConversationManager;
use mcprs::server::{
    create_conversation, elapsed_seconds, error_response, get_conversation, handle_mcp,
    handle_stream_mcp, route, stream_data, wrong_magic_answer, wrong_magic_notice, AppState,
    ConversationReply, Route, StreamData,
};
use serde_json::Value;

fn json(text: &str) -> Value {
    serde_json::from_str(text).unwrap()
}

fn build_test_app() -> AppState<DummyAgent> {
    let mut registry = AgentRegistry::new();
    registry.register_agent(DummyAgent { api_key: "test_key".to_string() });
    AppState { registry, auth_config: None, conversation_manager: None }
}

#[test]
fn test_handle_mcp_valid_request() {
    let app = build_test_app();

    let message = MCPMessage::new("dummy:test", json(r#"{"test": "value"}"#));
    let response_message = handle_mcp(&app, message).unwrap();

    assert_eq!(response_message.command, "dummy_response");
    assert_eq!(response_message.payload, json(r#"{"test": "value"}"#));
}

#[test]
fn test_handle_mcp_invalid_magic() {
    let app = build_test_app();

    let mut message = MCPMessage::new("dummy:test", json(r#"{"test": "value"}"#));
    message.magic = "INVALID".to_string();

    let response_message = handle_mcp(&app, message).unwrap();

    assert_eq!(response_message.command, "error");
    assert!(response_message.payload["message"].as_str().unwrap().contains("inválido"));
}

#[test]
fn test_handle_mcp_agent_not_found() {
    let app = build_test_app();

    let message = MCPMessage::new("nonexistent:test", json(r#"{"test": "value"}"#));
    let error = handle_mcp(&app, message).unwrap_err();
    let (status, error_response) = error_response(&error);
    assert_eq!(status, 400);

    assert!(error_response.error.contains("não foi encontrado"));
}

#[test]
fn a_wrong_magic_is_answered_softly_whatever_the_command() {
    let app = build_test_app();
    for command in ["dummy:test", "nonexistent:test", "no separator", ""] {
        for magic in ["", "MCP9", "mcp0", "MCP0 "] {
            let mut message = MCPMessage::new(command, Value::Null);
            message.magic = magic.to_string();
            let answer = handle_mcp(&app, message).unwrap();
            assert_eq!(answer.command, "error");
            assert_eq!(answer.magic, "MCP0");
            assert_eq!(answer.version, 1);
            assert_eq!(answer.payload, json(r#"{"message": "Magic inválido"}"#));
        }
    }
}

#[test]
fn the_version_does_not_decide_on_dispatch() {
    let app = build_test_app();
    let mut message = MCPMessage::new("dummy:test", Value::Null);
    message.version = 7;
    assert_eq!(handle_mcp(&app, message).unwrap().command, "dummy_response");
}

#[test]
fn a_routing_error_is_a_failure_with_its_message() {
    let app = build_test_app();
    let error = handle_mcp(&app, MCPMessage::new("invalido", Value::Null)).unwrap_err();
    assert!(matches!(error, MCPError::InvalidCommandFormat));
    let (status, body) = error_response(&error);
    assert_eq!(status, 400);
    assert_eq!(body.error, "Formato de comando inválido (esperado 'agente:acao')");
}

#[test]
fn a_streamed_answer_carries_the_envelope_or_a_notice() {
    let app = build_test_app();

    let answer = handle_stream_mcp(&app, MCPMessage::new("dummy:test", json("[1, 2]")));
    assert!(matches!(answer, StreamData::Response(m) if m.command == "dummy_response" && m.payload == json("[1, 2]")));

    let mut message = MCPMessage::new("dummy:test", Value::Null);
    message.magic = "INVALID".to_string();
    let answer = handle_stream_mcp(&app, message);
    assert!(matches!(answer, StreamData::Notice(text) if text == "Error: Invalid magic"));

    let answer = handle_stream_mcp(&app, MCPMessage::new("nope:test", Value::Null));
    assert!(matches!(answer, StreamData::Notice(text) if text == "Error: Agente 'nope' não foi encontrado no registro"));

    let answer = stream_data(Err(MCPError::InternalAgentError("x".to_string())));
    assert!(matches!(answer, StreamData::Notice(text) if text == "Error: Erro interno do agente: x"));
}

#[test]
fn a_server_without_store_says_that_conversations_are_disabled() {
    let mut app = build_test_app();
    let reply = create_conversation(&mut app);
    assert!(matches!(reply, ConversationReply::Disabled));
    assert_eq!(reply.status(), 501);
    assert_eq!(reply.error().unwrap(), "Gerenciamento de conversas não está habilitado");
    let reply = get_conversation(&app, "any");
    assert!(matches!(reply, ConversationReply::Disabled));
    assert_eq!(reply.status(), 501);
}

#[test]
fn a_server_with_store_creates_and_finds_conversations() {
    let mut app = build_test_app();
    app.auth_config = Some(AuthConfig::new());
    app.conversation_manager = Some(ConversationManager::new(24));

    let reply = create_conversation(&mut app);
    assert_eq!(reply.status(), 201);
    assert!(reply.error().is_none());
    let id = match reply {
        ConversationReply::Created(conversation) => conversation.id,
        _ => panic!("expected a conversation"),
    };

    let reply = get_conversation(&app, &id);
    assert_eq!(reply.status(), 200);
    assert!(reply.error().is_none());
    assert!(matches!(reply, ConversationReply::Found(c) if c.id == id && c.messages.is_empty()));

    let reply = get_conversation(&app, "unknown");
    assert!(matches!(reply, ConversationReply::NotFound));
    assert_eq!(reply.status(), 404);
    assert_eq!(reply.error().unwrap(), "Conversa não encontrada");

    let reply = ConversationReply::Failed("Falha ao adquirir lock".to_string());
    assert_eq!(reply.status(), 500);
    assert_eq!(reply.error().unwrap(), "Falha ao adquirir lock");
}

#[test]
fn elapsed_time_in_whole_seconds() {
    assert_eq!(elapsed_seconds(0, 0), 0);
    assert_eq!(elapsed_seconds(0, 999_999_999), 0);
    assert_eq!(elapsed_seconds(0, 1_000_000_000), 1);
    assert_eq!(elapsed_seconds(500, 2_500_000_499), 2);
    assert_eq!(elapsed_seconds(10, 9), 0);
    assert_eq!(elapsed_seconds(0, u128::MAX), u128::MAX / 1_000_000_000);
}

#[test]
fn where_an_envelope_goes_is_decided_without_calling_the_agent() {
    let app = build_test_app();

    let found = route(&app, &MCPMessage::new("dummy:test", Value::Null));
    assert!(matches!(found, Route::Agent(agent) if agent.api_key == "test_key"));

    let missing = route(&app, &MCPMessage::new("nobody:test", Value::Null));
    assert!(
        matches!(missing, Route::Refused(MCPError::AgentNotRegistered(key)) if key == "nobody")
    );

    let malformed = route(&app, &MCPMessage::new("dummy", Value::Null));
    assert!(matches!(malformed, Route::Refused(MCPError::InvalidCommandFormat)));

    let mut wrong = MCPMessage::new("dummy", Value::Null);
    wrong.magic = "MCP".to_string();
    assert!(matches!(route(&app, &wrong), Route::WrongMagic));
}

#[test]
fn the_answers_to_a_wrong_magic() {
    let answer = wrong_magic_answer();
    assert_eq!(answer.magic, "MCP0");
    assert_eq!(answer.version, 1);
    assert_eq!(answer.command, "error");
    assert_eq!(answer.payload, json(r#"{"message": "Magic inválido"}"#));
    assert!(matches!(wrong_magic_notice(), StreamData::Notice(text) if text == "Error: Invalid magic"));
}
