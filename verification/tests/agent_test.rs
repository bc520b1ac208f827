use mcprs::agent::{AIAgent, AgentRegistry, DummyAgent, MCPError, MCPMessage};
use serde_json::Value;
use std::sync::Arc;

fn json(text: &str) -> Value {
    serde_json::from_str(text).unwrap()
}

#[test]
fn test_mcpmessage_new() {
    let msg = MCPMessage::new("test:command", json(r#"{"key": "value"}"#));
    assert_eq!(msg.magic, "MCP0");
    assert_eq!(msg.version, 1);
    assert_eq!(msg.command, "test:command");
    assert_eq!(msg.payload, json(r#"{"key": "value"}"#));
}

#[test]
fn test_dummy_agent() {
    let agent = DummyAgent { api_key: "test_key".to_string() };

    let msg = MCPMessage::new("dummy:test", json(r#"{"echo": "this"}"#));
    let result = agent.process_request(msg).unwrap();

    assert_eq!(result.command, "dummy_response");
    assert_eq!(result.payload, json(r#"{"echo": "this"}"#));
}

#[test]
fn test_registry_routing() {
    let mut registry = AgentRegistry::new();
    registry.register_agent(Box::new(DummyAgent { api_key: "test_key".to_string() }));

    let msg = MCPMessage::new("dummy:action", json(r#"{"test": true}"#));
    let result = registry.process(msg).unwrap();
    assert_eq!(result.command, "dummy_response");

    let msg2 = MCPMessage::new("unknown:action", json("{}"));
    let err = registry.process(msg2).unwrap_err();
    assert!(matches!(err, MCPError::AgentNotRegistered(s) if s == "unknown"));

    let msg3 = MCPMessage::new("invalid-format", json("{}"));
    let err = registry.process(msg3).unwrap_err();
    assert!(matches!(err, MCPError::InvalidCommandFormat));
}

#[test]
fn split_command_takes_the_first_separator_only() {
    let msg = MCPMessage::new("agent:do:this:now", Value::Null);
    let (key, action) = msg.split_command().unwrap();
    assert_eq!(key, "agent");
    assert_eq!(action, "do:this:now");
}

#[test]
fn split_command_accepts_empty_parts() {
    let (key, action) = MCPMessage::new(":", Value::Null).split_command().unwrap();
    assert_eq!(key, "");
    assert_eq!(action, "");
    let (key, action) = MCPMessage::new("a:", Value::Null).split_command().unwrap();
    assert_eq!(key, "a");
    assert_eq!(action, "");
    let (key, action) = MCPMessage::new(":b", Value::Null).split_command().unwrap();
    assert_eq!(key, "");
    assert_eq!(action, "b");
}

#[test]
fn split_command_refuses_a_command_without_separator() {
    for command in ["", "dummy", "dummy echo", "dummy;echo", "dummy：echo"] {
        let err = MCPMessage::new(command, Value::Null).split_command().unwrap_err();
        assert!(matches!(err, MCPError::InvalidCommandFormat));
    }
}

#[test]
fn split_command_counts_characters_not_bytes() {
    let msg = MCPMessage::new("ação:não", Value::Null);
    let (key, action) = msg.split_command().unwrap();
    assert_eq!(key, "ação");
    assert_eq!(action, "não");
}

#[test]
fn only_the_protocol_magic_is_dispatchable() {
    let mut msg = MCPMessage::new("dummy:test", Value::Null);
    assert!(msg.is_dispatchable());
    for magic in ["", "MCP", "MCP00", "mcp0", "MCP9", "INVALID"] {
        msg.magic = magic.to_string();
        assert!(!msg.is_dispatchable());
    }
}

#[test]
fn each_error_has_its_message() {
    assert_eq!(
        MCPError::InvalidCommandFormat.message(),
        "Formato de comando inválido (esperado 'agente:acao')"
    );
    assert_eq!(
        MCPError::AgentNotRegistered("nope".to_string()).message(),
        "Agente 'nope' não foi encontrado no registro"
    );
    assert_eq!(
        MCPError::InternalAgentError("falhou".to_string()).message(),
        "Erro interno do agente: falhou"
    );
    assert_eq!(
        MCPError::DeserializationStreamError("Erro ao desserializar: linha 3".to_string()).message(),
        "Erro ao desserializar: linha 3"
    );
    assert_eq!(
        MCPError::NetworkTransportError("Erro de rede: queda".to_string()).message(),
        "Erro de rede: queda"
    );
}

#[test]
fn a_copy_of_an_envelope_equals_it() {
    let msg = MCPMessage::new("dummy:test", json(r#"{"a": [1, 2, {"b": null}]}"#));
    let copy = msg.clone();
    assert_eq!(copy, msg);
    assert_eq!(copy.payload, json(r#"{"a": [1, 2, {"b": null}]}"#));
}

struct Fixed {
    name: &'static str,
    reply: &'static str,
}

impl AIAgent for Fixed {
    fn name(&self) -> &str {
        self.name
    }

    fn process_request(&self, message: MCPMessage) -> Result<MCPMessage, MCPError> {
        Ok(MCPMessage::new(self.reply, message.payload))
    }
}

struct Failing;

impl AIAgent for Failing {
    fn name(&self) -> &str {
        "failing"
    }

    fn process_request(&self, _message: MCPMessage) -> Result<MCPMessage, MCPError> {
        Err(MCPError::InternalAgentError("backend down".to_string()))
    }
}

#[test]
fn the_second_of_two_agents_with_one_name_is_the_one_reached() {
    let mut registry: AgentRegistry<Fixed> = AgentRegistry::new();
    registry.register_agent(Fixed { name: "twin", reply: "first" });
    let before = registry.process(MCPMessage::new("twin:go", Value::Null)).unwrap();
    assert_eq!(before.command, "first");

    registry.register_agent(Fixed { name: "twin", reply: "second" });
    for _ in 0..3 {
        let after = registry.process(MCPMessage::new("twin:go", Value::Null)).unwrap();
        assert_eq!(after.command, "second");
    }
    assert!(registry.is_registered("twin"));
    assert!(!registry.is_registered("first"));
}

#[test]
fn a_registry_holds_agents_of_different_types_in_boxes() {
    let mut registry: AgentRegistry<Box<dyn AIAgent>> = AgentRegistry::new();
    registry.register_agent(Box::new(DummyAgent { api_key: "k".to_string() }));
    registry.register_agent(Box::new(Fixed { name: "fixed", reply: "fixed_response" }));
    registry.register_agent(Box::new(Failing));

    let echoed = registry.process(MCPMessage::new("dummy:x", json("[1]"))).unwrap();
    assert_eq!(echoed.command, "dummy_response");
    assert_eq!(echoed.payload, json("[1]"));
    let fixed = registry.process(MCPMessage::new("fixed:x", Value::Null)).unwrap();
    assert_eq!(fixed.command, "fixed_response");
}

#[test]
fn the_error_of_an_agent_comes_back_unchanged() {
    let mut registry: AgentRegistry<Failing> = AgentRegistry::new();
    registry.register_agent(Failing);
    let err = registry.process(MCPMessage::new("failing:x", Value::Null)).unwrap_err();
    assert!(matches!(err, MCPError::InternalAgentError(s) if s == "backend down"));
}

#[test]
fn the_routing_key_is_matched_exactly() {
    let mut registry: AgentRegistry<DummyAgent> = AgentRegistry::new();
    registry.register_agent(DummyAgent { api_key: String::new() });
    for command in ["Dummy:x", "dummy :x", " dummy:x", "dumm:y", ":dummy"] {
        let err = registry.process(MCPMessage::new(command, Value::Null)).unwrap_err();
        assert!(matches!(err, MCPError::AgentNotRegistered(_)));
    }
    let err = registry.process(MCPMessage::new(":dummy", Value::Null)).unwrap_err();
    assert!(matches!(err, MCPError::AgentNotRegistered(s) if s.is_empty()));
}

#[test]
fn an_agent_is_looked_up_without_being_called() {
    let mut registry: AgentRegistry<Failing> = AgentRegistry::new();
    registry.register_agent(Failing);
    assert!(registry.resolve(&MCPMessage::new("failing:x", Value::Null)).is_ok());
    let missing = registry.resolve(&MCPMessage::new("other:x", Value::Null)).err().unwrap();
    assert!(matches!(missing, MCPError::AgentNotRegistered(key) if key == "other"));
    let malformed = registry.resolve(&MCPMessage::new("failing", Value::Null)).err().unwrap();
    assert!(matches!(malformed, MCPError::InvalidCommandFormat));
}

#[test]
fn a_shared_agent_outlives_its_registration() {
    let mut registry: AgentRegistry<Arc<dyn AIAgent>> = AgentRegistry::new();
    registry.register_agent(Arc::new(Fixed { name: "twin", reply: "first" }));
    let held = Arc::clone(registry.resolve(&MCPMessage::new("twin:go", Value::Null)).ok().unwrap());

    registry.register_agent(Arc::new(Fixed { name: "twin", reply: "second" }));
    let in_flight = held.process_request(MCPMessage::new("twin:go", Value::Null)).unwrap();
    assert_eq!(in_flight.command, "first");
    let fresh = registry.process(MCPMessage::new("twin:go", Value::Null)).unwrap();
    assert_eq!(fresh.command, "second");
}
