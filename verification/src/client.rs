//! The client side: building an envelope for an agent and sending it to a
//! server.

use crate::agent::{envelope, separator, MCPMessage, MessageModel};
use crate::testing::{posts, reads, HttpClient, HttpResponse};
use crate::text::{joined, joined3, lemma_split_joined};
use vstd::prelude::*;

verus! {

/// Why a request to a server gave no envelope.
#[derive(Debug)]
pub enum MCPClientError {
    /// The request could not be sent or no answer came.
    NetworkError(String),
    /// The server answered with a status that is not one of success.
    UnexpectedStatus { status: u16, status_text: String },
    /// The body of the answer is no envelope.
    DeserializationError(String),
}

/// `MCPClientError` with its texts as character sequences.
pub enum ClientErrorModel {
    NetworkError(Seq<char>),
    UnexpectedStatus { status: u16, status_text: Seq<char> },
    DeserializationError(Seq<char>),
}

impl ClientErrorModel {
    /// The message shown to a person for this error.
    pub open spec fn text(self) -> Seq<char> {
        match self {
            ClientErrorModel::NetworkError(detail) => "Erro de rede ao enviar requisição: "@
                + detail,
            ClientErrorModel::UnexpectedStatus { status, status_text } =>
                "O servidor retornou um status inesperado: "@ + status_text,
            ClientErrorModel::DeserializationError(detail) =>
                "Falha ao deserializar a resposta MCP: "@ + detail,
        }
    }
}

impl View for MCPClientError {
    type V = ClientErrorModel;

    open spec fn view(&self) -> ClientErrorModel {
        match self {
            MCPClientError::NetworkError(detail) => ClientErrorModel::NetworkError(detail@),
            MCPClientError::UnexpectedStatus { status, status_text } =>
                ClientErrorModel::UnexpectedStatus { status: *status, status_text: status_text@ },
            MCPClientError::DeserializationError(detail) => ClientErrorModel::DeserializationError(
                detail@,
            ),
        }
    }
}

impl MCPClientError {
    /// The message shown to a person for this error.
    pub fn message(&self) -> (r: String)
        ensures
            r@ == self@.text(),
    {
        match self {
            MCPClientError::NetworkError(detail) => joined(
                "Erro de rede ao enviar requisição: ",
                detail.as_str(),
            ),
            MCPClientError::UnexpectedStatus { status, status_text } => joined(
                "O servidor retornou um status inesperado: ",
                status_text.as_str(),
            ),
            MCPClientError::DeserializationError(detail) => joined(
                "Falha ao deserializar a resposta MCP: ",
                detail.as_str(),
            ),
        }
    }
}

/// The command that addresses `action` to `agent`.
pub open spec fn command_for(agent: Seq<char>, action: Seq<char>) -> Seq<char> {
    agent + seq![separator()] + action
}

/// The envelope that addresses `action` to `agent` with `payload`.
pub fn create_mcp_message_for_agent(agent: &str, action: &str, payload: serde_json::Value) -> (r:
    MCPMessage)
    ensures
        r@ == envelope(command_for(agent@, action@), payload),
{
    proof {
        reveal_strlit(":");
        assert(":"@ =~= seq![separator()]);
    }
    let command = joined3(agent, ":", action);
    MCPMessage::new(command.as_str(), payload)
}

/// An envelope built for an agent whose name holds no separator is well
/// formed, and it splits into that name and the action again, whatever the
/// action holds.
pub proof fn lemma_command_splits_back(agent: Seq<char>, action: Seq<char>, m: MessageModel)
    requires
        !agent.contains(separator()),
        m.command == command_for(agent, action),
    ensures
        m.well_formed(),
        m.agent_key() == agent,
        m.action() == action,
{
    lemma_split_joined(agent, separator(), action);
}

/// Whether `outcome` is what comes of posting: the failure of the client
/// as a network error; a status that is not one of success as an unexpected
/// status; and otherwise what reading the body gives.
pub open spec fn delivery<C: HttpClient<MCPMessage, MCPMessage>>(
    client: C,
    posted: Result<HttpResponse, String>,
    outcome: Result<MCPMessage, MCPClientError>,
) -> bool {
    match posted {
        Err(why) => outcome matches Err(e) && e@ == ClientErrorModel::NetworkError(why@),
        Ok(response) => if !response.success() {
            outcome matches Err(e) && e@ == (ClientErrorModel::UnexpectedStatus {
                status: response.status,
                status_text: response.status_text@,
            })
        } else {
            exists|body: Result<MCPMessage, String>|
                reads(client, response, body) && envelope_read(body, outcome)
        },
    }
}

/// Whether `outcome` is what reading a body gave: the envelope, or the
/// reason why the body is none.
pub open spec fn envelope_read(
    body: Result<MCPMessage, String>,
    outcome: Result<MCPMessage, MCPClientError>,
) -> bool {
    match body {
        Ok(m) => outcome == Ok::<MCPMessage, MCPClientError>(m),
        Err(why) => outcome matches Err(e) && e@ == ClientErrorModel::DeserializationError(why@),
    }
}

/// Sends `message` to the server at `server_url` through `client`, without
/// headers of its own, and reads the envelope that comes back. Each way in
/// which no envelope comes back has its own error: the request failed, the
/// status is not one of success, or the body could not be read.
pub fn send_mcp_request<C: HttpClient<MCPMessage, MCPMessage>>(
    client: &C,
    server_url: &str,
    message: &MCPMessage,
) -> (r: Result<MCPMessage, MCPClientError>)
    ensures
        exists|
            url: String,
            headers: Vec<(String, String)>,
            posted: Result<HttpResponse, String>,
        |
            {
                &&& url@ == server_url@
                &&& headers@.len() == 0
                &&& posts(*client, url, *message, headers, posted)
                &&& delivery(*client, posted, r)
            },
{
    let url = server_url.to_owned();
    let sent = message.clone();
    let headers: Vec<(String, String)> = Vec::new();
    let posted = client.post(url, sent, headers);
    let r = deliver(client, posted);
    proof {
        assert(posts(*client, url, *message, headers, posted));
    }
    r
}

/// What comes of posting. The body of an answer is read only if its status
/// is one of success.
pub fn deliver<C: HttpClient<MCPMessage, MCPMessage>>(
    client: &C,
    posted: Result<HttpResponse, String>,
) -> (r: Result<MCPMessage, MCPClientError>)
    ensures
        delivery(*client, posted, r),
{
    match posted {
        Err(why) => Err(MCPClientError::NetworkError(why)),
        Ok(response) => {
            if !response.is_success() {
                Err(
                    MCPClientError::UnexpectedStatus {
                        status: response.status,
                        status_text: response.status_text,
                    },
                )
            } else {
                read_envelope(client.json(response))
            }
        },
    }
}

/// The outcome of a request whose answer had a status of success, by what
/// reading its body gave.
pub fn read_envelope(body: Result<MCPMessage, String>) -> (r: Result<MCPMessage, MCPClientError>)
    ensures
        envelope_read(body, r),
{
    match body {
        Ok(m) => Ok(m),
        Err(why) => Err(MCPClientError::DeserializationError(why)),
    }
}

} // verus!
