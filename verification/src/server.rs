//! The dispatch service: what a server answers to an envelope and to the
//! requests on conversations. Transport is not its business; it takes the
//! envelope that was received and hands back what is to be sent.

use crate::agent::{envelope, AIAgent, AgentRegistry, MCPError, MCPMessage};
use crate::auth::AuthConfig;
use crate::conversation::{entry, Conversation, ConversationManager, ConversationModel};
use crate::json::{is_object_of, members_of, object_of_strings};
use crate::system::is_hyphenated_uuid;
use crate::text::joined;
use vstd::prelude::*;

verus! {

/// What the handlers of a server share: the registry of agents, and where
/// they are enabled the accepted tokens and the store of conversations.
#[verifier::reject_recursive_types(A)]
pub struct AppState<A: AIAgent> {
    pub registry: AgentRegistry<A>,
    pub auth_config: Option<AuthConfig>,
    pub conversation_manager: Option<ConversationManager>,
}

/// The body of an answer that reports an error.
#[derive(Debug)]
pub struct ErrorResponse {
    pub error: String,
}

/// The status with which a routing or agent error is answered.
pub open spec fn bad_request_status() -> u16 {
    400
}

/// Whether `outcome` is the answer to an envelope with a wrong magic text:
/// no failure, but an envelope with the command `error` whose payload is the
/// object that holds the complaint as `message` and nothing else.
pub open spec fn soft_error(outcome: Result<MCPMessage, MCPError>) -> bool {
    &&& outcome matches Ok(message)
    &&& message@ == envelope("error"@, message.payload)
    &&& is_object_of(
        message.payload,
        Map::<Seq<char>, Seq<char>>::empty().insert("message"@, "Magic inválido"@),
    )
}

/// The answer to an error: the status of a bad request, and the message of
/// the error as body.
pub fn error_response(error: &MCPError) -> (r: (u16, ErrorResponse))
    ensures
        r.0 == bad_request_status(),
        r.1.error@ == error@.text(),
{
    (400, ErrorResponse { error: error.message() })
}

/// Where an envelope goes.
pub enum Route<'a, A> {
    /// Nowhere: its magic text is wrong, and it is answered with an `error`
    /// envelope.
    WrongMagic,
    /// Nowhere: its command names no agent, for the reason given.
    Refused(MCPError),
    /// To this agent.
    Agent(&'a A),
}

/// Whether `route` is where `payload` goes on a server with this state: an
/// envelope with a wrong magic text never reaches the registry; every other
/// envelope goes where the registry finds its agent, or is refused with the
/// error of the registry.
pub open spec fn routed<A: AIAgent>(
    state: AppState<A>,
    payload: MCPMessage,
    route: Route<'_, A>,
) -> bool {
    if !payload@.dispatchable() {
        route is WrongMagic
    } else {
        match route {
            Route::WrongMagic => false,
            Route::Refused(e) => state.registry.resolves(payload, Err(e)),
            Route::Agent(agent) => state.registry.resolves(payload, Ok(agent)),
        }
    }
}

/// Decides where an envelope goes, without calling any agent. A server that
/// shares its state can decide while it holds the state and call the agent
/// after it has let go of it.
pub fn route<'a, A: AIAgent>(state: &'a AppState<A>, payload: &MCPMessage) -> (r: Route<'a, A>)
    ensures
        routed(*state, *payload, r),
{
    if !payload.is_dispatchable() {
        Route::WrongMagic
    } else {
        match state.registry.resolve(payload) {
            Ok(agent) => Route::Agent(agent),
            Err(e) => Route::Refused(e),
        }
    }
}

/// The answer to an envelope with a wrong magic text.
pub fn wrong_magic_answer() -> (r: MCPMessage)
    ensures
        soft_error(Ok(r)),
{
    let mut fields: Vec<(String, String)> = Vec::new();
    fields.push(("message".to_owned(), "Magic inválido".to_owned()));
    proof {
        assert(members_of(fields@) == members_of(fields@.drop_last()).insert(
            fields@.last().0@,
            fields@.last().1@,
        ));
    }
    MCPMessage::new("error", object_of_strings(&fields))
}

/// Handles one envelope. An envelope with a wrong magic text is answered
/// with an `error` envelope and never reaches the registry; every other
/// envelope is routed, and the outcome of that is the answer.
pub fn handle_mcp<A: AIAgent>(state: &AppState<A>, payload: MCPMessage) -> (r: Result<
    MCPMessage,
    MCPError,
>)
    ensures
        !payload@.dispatchable() ==> soft_error(r),
        payload@.dispatchable() ==> state.registry.routes(payload, r),
{
    match route(state, &payload) {
        Route::WrongMagic => Ok(wrong_magic_answer()),
        Route::Refused(e) => Err(e),
        Route::Agent(agent) => agent.process_request(payload),
    }
}

/// What is sent as the one event of a streamed answer.
pub enum StreamData {
    /// The answer of the agent, to be written out as JSON.
    Response(MCPMessage),
    /// A line of text that tells what went wrong.
    Notice(String),
}

/// Whether `data` is what a streamed answer carries for the outcome of
/// routing: the envelope, or the message of the error behind `Error: `.
pub open spec fn carries(data: StreamData, outcome: Result<MCPMessage, MCPError>) -> bool {
    match outcome {
        Ok(message) => data == StreamData::Response(message),
        Err(error) => data matches StreamData::Notice(text) && text@ == "Error: "@
            + error@.text(),
    }
}

/// The notice that a streamed answer carries for an envelope with a wrong
/// magic text.
pub open spec fn wrong_magic_text() -> Seq<char> {
    "Error: Invalid magic"@
}

/// The event of a streamed answer to an envelope with a wrong magic text.
pub fn wrong_magic_notice() -> (r: StreamData)
    ensures
        r matches StreamData::Notice(text) && text@ == wrong_magic_text(),
{
    StreamData::Notice("Error: Invalid magic".to_owned())
}

/// Handles one envelope for a streamed answer. An envelope with a wrong
/// magic text gives a notice and never reaches the registry; every other
/// envelope is routed, and the event carries the outcome.
pub fn handle_stream_mcp<A: AIAgent>(state: &AppState<A>, payload: MCPMessage) -> (r: StreamData)
    ensures
        !payload@.dispatchable() ==> (r matches StreamData::Notice(text) && text@
            == wrong_magic_text()),
        payload@.dispatchable() ==> exists|outcome: Result<MCPMessage, MCPError>|
            state.registry.routes(payload, outcome) && carries(r, outcome),
{
    match route(state, &payload) {
        Route::WrongMagic => wrong_magic_notice(),
        Route::Refused(e) => stream_data(Err(e)),
        Route::Agent(agent) => stream_data(agent.process_request(payload)),
    }
}

/// The event of a streamed answer for an outcome of routing.
pub fn stream_data(outcome: Result<MCPMessage, MCPError>) -> (r: StreamData)
    ensures
        carries(r, outcome),
{
    match outcome {
        Ok(message) => StreamData::Response(message),
        Err(error) => StreamData::Notice(joined("Error: ", error.message().as_str())),
    }
}

/// The answer to a request on conversations.
pub enum ConversationReply {
    /// A conversation was created; here it is.
    Created(Conversation),
    /// The conversation that was asked for.
    Found(Conversation),
    /// The store holds no conversation with the id that was asked for.
    NotFound,
    /// The server keeps no conversations.
    Disabled,
    /// The store failed, for the reason given.
    Failed(String),
}

impl ConversationReply {
    /// The status that goes with the reply.
    pub open spec fn status_code(self) -> u16 {
        match self {
            ConversationReply::Created(_) => 201,
            ConversationReply::Found(_) => 200,
            ConversationReply::NotFound => 404,
            ConversationReply::Disabled => 501,
            ConversationReply::Failed(_) => 500,
        }
    }

    /// The error text that goes with the reply, if it reports an error.
    pub open spec fn error_text(self) -> Option<Seq<char>> {
        match self {
            ConversationReply::Created(_) => None,
            ConversationReply::Found(_) => None,
            ConversationReply::NotFound => Some("Conversa não encontrada"@),
            ConversationReply::Disabled => Some(
                "Gerenciamento de conversas não está habilitado"@,
            ),
            ConversationReply::Failed(why) => Some(why@),
        }
    }

    /// The status that goes with the reply.
    pub fn status(&self) -> (r: u16)
        ensures
            r == self.status_code(),
    {
        match self {
            ConversationReply::Created(_) => 201,
            ConversationReply::Found(_) => 200,
            ConversationReply::NotFound => 404,
            ConversationReply::Disabled => 501,
            ConversationReply::Failed(_) => 500,
        }
    }

    /// The error text that goes with the reply, if it reports an error.
    pub fn error(&self) -> (r: Option<String>)
        ensures
            r is Some <==> self.error_text() is Some,
            r matches Some(text) ==> self.error_text() == Some(text@),
    {
        match self {
            ConversationReply::Created(_) => None,
            ConversationReply::Found(_) => None,
            ConversationReply::NotFound => Some("Conversa não encontrada".to_owned()),
            ConversationReply::Disabled => Some(
                "Gerenciamento de conversas não está habilitado".to_owned(),
            ),
            ConversationReply::Failed(why) => Some(why.clone()),
        }
    }
}

/// The conversations of a state, if it keeps any.
pub open spec fn kept<A: AIAgent>(state: AppState<A>) -> Option<Map<Seq<char>, ConversationModel>> {
    match state.conversation_manager {
        Some(manager) => Some(manager@),
        None => None,
    }
}

/// Creates a conversation. A server that keeps no conversations says so.
pub fn create_conversation<A: AIAgent>(state: &mut AppState<A>) -> (r: ConversationReply)
    ensures
        final(state).registry == old(state).registry,
        final(state).auth_config == old(state).auth_config,
        kept(*old(state)) is None ==> r == ConversationReply::Disabled && kept(*final(state))
            is None,
        kept(*old(state)) matches Some(before) ==> (r matches ConversationReply::Created(c)
            && is_hyphenated_uuid(c.id@) && c@ == ConversationModel::started(
            c.id@,
            c.created_at,
        ).filed(entry(before, c.id@), c.created_at) && kept(*final(state)) == Some(
            before.insert(c.id@, c@),
        )),
{
    match &mut state.conversation_manager {
        Some(manager) => {
            match manager.create_conversation() {
                Ok(conversation) => ConversationReply::Created(conversation),
                Err(why) => ConversationReply::Failed(why),
            }
        },
        None => ConversationReply::Disabled,
    }
}

/// Looks a conversation up. A server that keeps no conversations says so.
pub fn get_conversation<A: AIAgent>(state: &AppState<A>, id: &str) -> (r: ConversationReply)
    ensures
        kept(*state) is None ==> r == ConversationReply::Disabled,
        kept(*state) matches Some(store) ==> (if store.contains_key(id@) {
            r matches ConversationReply::Found(c) && c@ == store[id@] && c.id@ == id@
        } else {
            r == ConversationReply::NotFound
        }),
{
    match &state.conversation_manager {
        Some(manager) => {
            match manager.get_conversation(id) {
                Some(conversation) => ConversationReply::Found(conversation),
                None => ConversationReply::NotFound,
            }
        },
        None => ConversationReply::Disabled,
    }
}

/// The whole seconds from the time `then` to the time `now`, both in
/// nanoseconds; zero if `then` is the later one.
pub fn elapsed_seconds(then: u128, now: u128) -> (r: u128)
    ensures
        now >= then ==> r == (now - then) / 1_000_000_000,
        now < then ==> r == 0,
{
    if now >= then {
        (now - then) / 1_000_000_000
    } else {
        0
    }
}

} // verus!
