//! The envelope, the agent contract and the registry that routes an envelope
//! to the agent its command names.
//!
//! A command has the form `agent:action`. The text in front of the first
//! colon is the routing key; everything behind it, further colons included,
//! is the action, which only the agent reads.

use crate::text::{
    after_first, before_first, joined, joined3, lemma_split_joined, split_once, text_eq,
};
use vstd::hash_map::StringHashMap;
use vstd::prelude::*;

verus! {

/// The magic text that marks an envelope of this protocol.
pub open spec fn protocol_magic() -> Seq<char> {
    "MCP0"@
}

/// The protocol version that `MCPMessage::new` writes.
pub open spec fn protocol_version() -> u8 {
    1
}

/// The character between the routing key and the action of a command.
pub open spec fn separator() -> char {
    ':'
}

/// What can go wrong while an envelope is routed, handled or streamed.
#[derive(Debug)]
pub enum MCPError {
    /// The command holds no separator.
    InvalidCommandFormat,
    /// No agent is registered under the routing key, which is carried along.
    AgentNotRegistered(String),
    /// An agent failed: a required payload member is missing, the backend
    /// could not be reached, answered with a failure status, or answered in
    /// a shape that could not be read.
    InternalAgentError(String),
    /// One line of a stream could not be parsed; the text tells why. The
    /// stream goes on.
    DeserializationStreamError(String),
    /// The source of a stream failed; the text tells how. The stream ends.
    NetworkTransportError(String),
}

/// `MCPError` with its texts as character sequences.
pub enum ErrorModel {
    InvalidCommandFormat,
    AgentNotRegistered(Seq<char>),
    InternalAgentError(Seq<char>),
    DeserializationStreamError(Seq<char>),
    NetworkTransportError(Seq<char>),
}

impl ErrorModel {
    /// The message shown to a person for this error.
    pub open spec fn text(self) -> Seq<char> {
        match self {
            ErrorModel::InvalidCommandFormat =>
                "Formato de comando inválido (esperado 'agente:acao')"@,
            ErrorModel::AgentNotRegistered(key) => "Agente '"@ + key
                + "' não foi encontrado no registro"@,
            ErrorModel::InternalAgentError(detail) => "Erro interno do agente: "@ + detail,
            ErrorModel::DeserializationStreamError(detail) => detail,
            ErrorModel::NetworkTransportError(detail) => detail,
        }
    }
}

impl View for MCPError {
    type V = ErrorModel;

    open spec fn view(&self) -> ErrorModel {
        match self {
            MCPError::InvalidCommandFormat => ErrorModel::InvalidCommandFormat,
            MCPError::AgentNotRegistered(key) => ErrorModel::AgentNotRegistered(key@),
            MCPError::InternalAgentError(detail) => ErrorModel::InternalAgentError(detail@),
            MCPError::DeserializationStreamError(detail) => ErrorModel::DeserializationStreamError(
                detail@,
            ),
            MCPError::NetworkTransportError(detail) => ErrorModel::NetworkTransportError(detail@),
        }
    }
}

impl MCPError {
    /// The message shown to a person for this error.
    pub fn message(&self) -> (r: String)
        ensures
            r@ == self@.text(),
    {
        match self {
            MCPError::InvalidCommandFormat => {
                "Formato de comando inválido (esperado 'agente:acao')".to_owned()
            },
            MCPError::AgentNotRegistered(key) => joined3(
                "Agente '",
                key.as_str(),
                "' não foi encontrado no registro",
            ),
            MCPError::InternalAgentError(detail) => joined(
                "Erro interno do agente: ",
                detail.as_str(),
            ),
            MCPError::DeserializationStreamError(detail) => detail.clone(),
            MCPError::NetworkTransportError(detail) => detail.clone(),
        }
    }
}

/// The outcome of handling an envelope.
pub open spec fn failed_with(r: Result<MCPMessage, MCPError>, e: ErrorModel) -> bool {
    r matches Err(error) && error@ == e
}

/// The outcome of handling an envelope.
pub open spec fn answered_with(r: Result<MCPMessage, MCPError>, m: MessageModel) -> bool {
    r matches Ok(message) && message@ == m
}

/// The message of the protocol: a magic text, a version, a command of the
/// form `agent:action`, and a payload that only the agent interprets.
#[derive(Debug, PartialEq)]
pub struct MCPMessage {
    pub magic: String,
    pub version: u8,
    pub command: String,
    pub payload: serde_json::Value,
}

impl Clone for MCPMessage {
    fn clone(&self) -> (r: Self)
        ensures
            r == *self,
    {
        MCPMessage {
            magic: self.magic.clone(),
            version: self.version,
            command: self.command.clone(),
            payload: self.payload.clone(),
        }
    }
}

/// `MCPMessage` with its texts as character sequences.
pub struct MessageModel {
    pub magic: Seq<char>,
    pub version: u8,
    pub command: Seq<char>,
    pub payload: serde_json::Value,
}

/// The envelope that `MCPMessage::new` builds around a command and a payload.
pub open spec fn envelope(command: Seq<char>, payload: serde_json::Value) -> MessageModel {
    MessageModel { magic: protocol_magic(), version: protocol_version(), command, payload }
}

impl View for MCPMessage {
    type V = MessageModel;

    open spec fn view(&self) -> MessageModel {
        MessageModel {
            magic: self.magic@,
            version: self.version,
            command: self.command@,
            payload: self.payload,
        }
    }
}

impl MessageModel {
    /// Whether the envelope carries the magic text of the protocol. Only
    /// such an envelope is routed.
    pub open spec fn dispatchable(self) -> bool {
        self.magic == protocol_magic()
    }

    /// Whether the command can be split into a routing key and an action.
    pub open spec fn well_formed(self) -> bool {
        self.command.contains(separator())
    }

    /// The routing key: the command up to its first separator.
    pub open spec fn agent_key(self) -> Seq<char> {
        before_first(self.command, separator())
    }

    /// The action: the command behind its first separator.
    pub open spec fn action(self) -> Seq<char> {
        after_first(self.command, separator())
    }
}

impl MCPMessage {
    /// Wraps a command and a payload with the magic text and the version of
    /// the protocol. The command is taken as it is.
    pub fn new(command: &str, payload: serde_json::Value) -> (r: Self)
        ensures
            r@ == envelope(command@, payload),
    {
        MCPMessage { magic: "MCP0".to_owned(), version: 1, command: command.to_owned(), payload }
    }

    /// Whether the envelope carries the magic text of the protocol.
    pub fn is_dispatchable(&self) -> (r: bool)
        ensures
            r == self@.dispatchable(),
    {
        text_eq(self.magic.as_str(), "MCP0")
    }

    /// Splits the command at its first separator into routing key and
    /// action. A command without separator is refused.
    pub fn split_command(&self) -> (r: Result<(String, String), MCPError>)
        ensures
            self@.well_formed() ==> (r matches Ok((key, action)) && key@ == self@.agent_key()
                && action@ == self@.action()),
            !self@.well_formed() ==> (r matches Err(e) && e@ == ErrorModel::InvalidCommandFormat),
    {
        match split_once(self.command.as_str(), ':') {
            Some((key, action)) => Ok((key.to_owned(), action.to_owned())),
            None => Err(MCPError::InvalidCommandFormat),
        }
    }
}

/// What a backend handler offers: a name to be registered under, and the
/// handling of one envelope.
///
/// Nothing is asked of an agent beyond its two methods. What an agent
/// promises of them in its own `ensures`, the registry hands on to its
/// callers: see `named` and `answers`.
pub trait AIAgent: Send + Sync {
    /// The name of the agent, which is its routing key.
    fn name(&self) -> &str;

    /// Handles one envelope.
    fn process_request(&self, message: MCPMessage) -> Result<MCPMessage, MCPError>;
}

/// Whether `name` is a name that `agent` may state as its own.
pub open spec fn named<A: AIAgent>(agent: A, name: Seq<char>) -> bool {
    exists|stated: &str| call_ensures(A::name, (&agent,), stated) && stated@ == name
}

/// Whether `outcome` is one that `agent` may give for `request`.
pub open spec fn answers<A: AIAgent>(
    agent: A,
    request: MCPMessage,
    outcome: Result<MCPMessage, MCPError>,
) -> bool {
    call_ensures(A::process_request, (&agent, request), outcome)
}

/// The table of agents by name.
#[verifier::reject_recursive_types(A)]
pub struct AgentRegistry<A: AIAgent> {
    agents: StringHashMap<A>,
}

impl<A: AIAgent> View for AgentRegistry<A> {
    type V = Map<Seq<char>, A>;

    closed spec fn view(&self) -> Map<Seq<char>, A> {
        self.agents@
    }
}

impl<A: AIAgent> AgentRegistry<A> {
    /// Whether `outcome` is what routing `message` through this registry may
    /// give: the format error for a command without separator, the routing
    /// miss with the key for a key that is not registered, and otherwise
    /// whatever the agent under that key answers.
    pub open spec fn routes(
        &self,
        message: MCPMessage,
        outcome: Result<MCPMessage, MCPError>,
    ) -> bool {
        if !message@.well_formed() {
            failed_with(outcome, ErrorModel::InvalidCommandFormat)
        } else if !self@.contains_key(message@.agent_key()) {
            failed_with(outcome, ErrorModel::AgentNotRegistered(message@.agent_key()))
        } else {
            answers(self@[message@.agent_key()], message, outcome)
        }
    }

    /// Whether `found` is what looking up the agent for `message` gives: the
    /// format error for a command without separator, the routing miss with
    /// the key for a key that is not registered, and otherwise the agent
    /// under that key.
    pub open spec fn resolves(&self, message: MCPMessage, found: Result<&A, MCPError>) -> bool {
        if !message@.well_formed() {
            found matches Err(e) && e@ == ErrorModel::InvalidCommandFormat
        } else if !self@.contains_key(message@.agent_key()) {
            found matches Err(e) && e@ == ErrorModel::AgentNotRegistered(message@.agent_key())
        } else {
            found matches Ok(agent) && *agent == self@[message@.agent_key()]
        }
    }

    /// An empty registry.
    pub fn new() -> (r: Self)
        ensures
            r@ == Map::<Seq<char>, A>::empty(),
    {
        AgentRegistry { agents: StringHashMap::new() }
    }

    /// Files `agent` under the name it states. An agent that was registered
    /// under the same name before is replaced and can no longer be reached.
    pub fn register_agent(&mut self, agent: A)
        ensures
            exists|name: Seq<char>|
                named(agent, name) && final(self)@ == old(self)@.insert(name, agent),
    {
        let name = agent.name().to_owned();
        self.agents.insert(name, agent);
        assert(named(agent, name@) && self@ == old(self)@.insert(name@, agent));
    }

    /// Whether an agent is registered under `name`.
    pub fn is_registered(&self, name: &str) -> (r: bool)
        ensures
            r == self@.contains_key(name@),
    {
        self.agents.contains_key(name)
    }

    /// Looks up the agent that the command of `message` names. The agent
    /// is looked up once; whoever holds it can call it after the registry
    /// has changed or has been let go of.
    pub fn resolve(&self, message: &MCPMessage) -> (r: Result<&A, MCPError>)
        ensures
            self.resolves(*message, r),
    {
        match split_once(message.command.as_str(), ':') {
            None => Err(MCPError::InvalidCommandFormat),
            Some((key, _action)) => {
                match self.agents.get(key) {
                    Some(agent) => Ok(agent),
                    None => Err(MCPError::AgentNotRegistered(key.to_owned())),
                }
            },
        }
    }

    /// Routes `message` to the agent that its command names and returns what
    /// that agent answers.
    pub fn process(&self, message: MCPMessage) -> (r: Result<MCPMessage, MCPError>)
        ensures
            self.routes(message, r),
    {
        match self.resolve(&message) {
            Ok(agent) => agent.process_request(message),
            Err(e) => Err(e),
        }
    }
}

/// A boxed agent is the agent in the box. With this a registry can hold
/// agents of different types behind `Box<dyn AIAgent>`.
impl<T: AIAgent + ?Sized> AIAgent for Box<T> {
    fn name(&self) -> (r: &str)
        ensures
            call_ensures(T::name, (&**self,), r),
    {
        (**self).name()
    }

    fn process_request(&self, message: MCPMessage) -> (r: Result<MCPMessage, MCPError>)
        ensures
            call_ensures(T::process_request, (&**self, message), r),
    {
        (**self).process_request(message)
    }
}

/// A shared agent is the agent that is shared. With this a registry can hand
/// out agents that are called after it has been let go of.
impl<T: AIAgent + ?Sized> AIAgent for std::sync::Arc<T> {
    fn name(&self) -> (r: &str)
        ensures
            call_ensures(T::name, (&**self,), r),
    {
        (**self).name()
    }

    fn process_request(&self, message: MCPMessage) -> (r: Result<MCPMessage, MCPError>)
        ensures
            call_ensures(T::process_request, (&**self, message), r),
    {
        (**self).process_request(message)
    }
}

/// An agent that sends the payload back. It needs no backend.
pub struct DummyAgent {
    pub api_key: String,
}

impl AIAgent for DummyAgent {
    fn name(&self) -> (r: &str)
        ensures
            r@ == "dummy"@,
    {
        "dummy"
    }

    fn process_request(&self, message: MCPMessage) -> (r: Result<MCPMessage, MCPError>)
        ensures
            answered_with(r, envelope("dummy_response"@, message.payload)),
    {
        Ok(MCPMessage::new("dummy_response", message.payload))
    }
}

/// Of two agents registered one after the other under a name without
/// separator, the second is the one that a command for that name reaches:
/// what routing such a command gives is what the second agent answers, and
/// nothing that only the first would answer.
pub proof fn lemma_second_agent_is_reached<A: AIAgent>(
    registry: AgentRegistry<A>,
    before: Map<Seq<char>, A>,
    name: Seq<char>,
    first: A,
    second: A,
    action: Seq<char>,
    message: MCPMessage,
    outcome: Result<MCPMessage, MCPError>,
)
    requires
        registry@ == before.insert(name, first).insert(name, second),
        !name.contains(separator()),
        message@.command == name + seq![separator()] + action,
    ensures
        registry.routes(message, outcome) <==> answers(second, message, outcome),
{
    lemma_split_joined(name, separator(), action);
}

/// Of two agents registered one after the other under the same name, only
/// the second is in the registry afterwards.
pub proof fn lemma_last_registration_wins<A: AIAgent>(
    agents: Map<Seq<char>, A>,
    name: Seq<char>,
    first: A,
    second: A,
)
    ensures
        agents.insert(name, first).insert(name, second) == agents.insert(name, second),
        agents.insert(name, first).insert(name, second)[name] == second,
{
}

} // verus!
