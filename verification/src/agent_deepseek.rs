//! The agent for the DeepSeek chat API.
//!
//! The agent takes the prompt and the optional limits out of the payload,
//! asks the chat completions endpoint of its server with them, and answers
//! with the text of the first choice, the id of the answer and the reason
//! why the text ended.

use crate::agent::{envelope, failed_with, AIAgent, ErrorModel, MCPError, MCPMessage};
use crate::json::{
    is_object_of, members_of, object_of_strings, string_member, string_members, u64_member,
    u64_members,
};
use crate::testing::{bearer_json_headers, json_headers, posts, reads, HttpClient, HttpResponse};
use crate::text::joined;
use vstd::prelude::*;

verus! {

/// The body of a chat request.
pub struct DeepSeekRequest {
    pub model: String,
    pub messages: Vec<DeepSeekMessage>,
    pub max_tokens: Option<u32>,
    /// The payload of the envelope as it came. The sender takes the
    /// temperature from it, the member `temperature` if that is a number:
    /// a floating-point number, which this library does not touch.
    pub payload: serde_json::Value,
}

/// One message of a chat request.
pub struct DeepSeekMessage {
    pub role: String,
    pub content: String,
}

/// The body of a chat answer.
pub struct DeepSeekResponse {
    pub id: String,
    pub choices: Vec<DeepSeekChoice>,
}

/// One choice of a chat answer.
pub struct DeepSeekChoice {
    pub message: DeepSeekMessageResponse,
    pub finish_reason: String,
}

/// The message of one choice.
pub struct DeepSeekMessageResponse {
    pub role: String,
    pub content: String,
}

/// A request as it is handed to the client.
pub struct DeepSeekCall {
    pub url: String,
    pub headers: Vec<(String, String)>,
    pub body: DeepSeekRequest,
}

/// The path of the chat completions endpoint on a server.
pub open spec fn completions_path() -> Seq<char> {
    "/v1/chat/completions"@
}

/// The payload member that holds the prompt.
pub open spec fn prompt_member() -> Seq<char> {
    "user_prompt"@
}

/// Whether the payload of `request` holds a prompt: a text member
/// `user_prompt`.
pub open spec fn has_prompt(request: MCPMessage) -> bool {
    string_members(request.payload).contains_key(prompt_member())
}

/// The error for a payload without prompt.
pub open spec fn missing_prompt() -> ErrorModel {
    ErrorModel::InternalAgentError("Missing user_prompt"@)
}

/// The limit on the tokens of an answer that a payload asks for: its member
/// `max_tokens`, if that is an unsigned integer, cut to its low 32 bits.
pub open spec fn token_limit(payload: serde_json::Value) -> Option<u32> {
    if u64_members(payload).contains_key("max_tokens"@) {
        Some((u64_members(payload)["max_tokens"@] % 0x1_0000_0000) as u32)
    } else {
        None
    }
}

/// Whether `messages` is the single message of the user with `prompt`.
pub open spec fn asks(messages: Seq<DeepSeekMessage>, prompt: Seq<char>) -> bool {
    &&& messages.len() == 1
    &&& messages[0].role@ == "user"@
    &&& messages[0].content@ == prompt
}

/// Whether `call` is the request for the payload of `request` on behalf of
/// an agent with this key, server and model: a JSON request to the chat
/// completions endpoint of the server, authorised with the key, that asks
/// the model with the prompt and the token limit of the payload and carries
/// the payload along.
pub open spec fn request_for(
    api_key: Seq<char>,
    endpoint: Seq<char>,
    model: Seq<char>,
    request: MCPMessage,
    call: DeepSeekCall,
) -> bool {
    &&& call.url@ == endpoint + completions_path()
    &&& json_headers(call.headers@, api_key)
    &&& call.body.model@ == model
    &&& asks(call.body.messages@, string_members(request.payload)[prompt_member()])
    &&& call.body.max_tokens == token_limit(request.payload)
    &&& call.body.payload == request.payload
}

/// The error for an answer with a status that is not one of success. It
/// quotes the status as the server worded it.
pub open spec fn refused(response: HttpResponse) -> ErrorModel {
    ErrorModel::InternalAgentError("DeepSeek API retornou status "@ + response.status_text@)
}

/// Whether `outcome` is the answer for a choice: an envelope with the
/// command `deepseek_response` whose payload is the object that holds the
/// text as `answer`, the id of the answer as `id` and the reason as
/// `finish_reason`, and nothing else.
pub open spec fn answer_with(
    outcome: Result<MCPMessage, MCPError>,
    text: Seq<char>,
    id: Seq<char>,
    reason: Seq<char>,
) -> bool {
    &&& outcome matches Ok(message)
    &&& message@ == envelope("deepseek_response"@, message.payload)
    &&& is_object_of(
        message.payload,
        Map::<Seq<char>, Seq<char>>::empty().insert("answer"@, text).insert("id"@, id).insert(
            "finish_reason"@,
            reason,
        ),
    )
}

/// Whether `outcome` is what the agent makes of a body that was read, or
/// could not be read: the answer for the first choice; an error with the
/// reason for a body that could not be read; an error of its own for a body
/// without choices.
pub open spec fn completion_outcome(
    body: Result<DeepSeekResponse, String>,
    outcome: Result<MCPMessage, MCPError>,
) -> bool {
    match body {
        Err(why) => failed_with(outcome, ErrorModel::InternalAgentError(why@)),
        Ok(completion) => if completion.choices@.len() == 0 {
            failed_with(outcome, ErrorModel::InternalAgentError("No response choices"@))
        } else {
            answer_with(
                outcome,
                completion.choices@[0].message.content@,
                completion.id@,
                completion.choices@[0].finish_reason@,
            )
        },
    }
}

/// The agent for the DeepSeek chat API.
pub struct DeepSeekAgent<C> {
    /// The key that authorises requests.
    pub api_key: String,
    /// The address of the server, such as `https://api.deepseek.ai`.
    pub endpoint: String,
    /// The model to ask.
    pub model: String,
    /// The client that carries the requests.
    pub http_client: C,
}

impl<C: HttpClient<DeepSeekRequest, DeepSeekResponse>> DeepSeekAgent<C> {
    /// Whether `outcome` is one that this agent may give for `request`.
    ///
    /// A payload without prompt is refused before anything is sent.
    /// Otherwise the request for the payload is posted through the client.
    /// If the client fails, the outcome is an error with its reason; if the
    /// status of the answer is not one of success, an error that quotes the
    /// status; otherwise what the agent makes of the body as the client
    /// reads it.
    pub open spec fn exchange(
        self,
        request: MCPMessage,
        outcome: Result<MCPMessage, MCPError>,
    ) -> bool {
        if !has_prompt(request) {
            failed_with(outcome, missing_prompt())
        } else {
            exists|call: DeepSeekCall, posted: Result<HttpResponse, String>|
                {
                    &&& request_for(self.api_key@, self.endpoint@, self.model@, request, call)
                    &&& posts(self.http_client, call.url, call.body, call.headers, posted)
                    &&& self.settles(posted, outcome)
                }
        }
    }

    /// Whether `outcome` is what this agent makes of what posting gave.
    pub open spec fn settles(
        self,
        posted: Result<HttpResponse, String>,
        outcome: Result<MCPMessage, MCPError>,
    ) -> bool {
        match posted {
            Err(why) => failed_with(outcome, ErrorModel::InternalAgentError(why@)),
            Ok(response) => if !response.success() {
                failed_with(outcome, refused(response))
            } else {
                exists|body: Result<DeepSeekResponse, String>|
                    reads(self.http_client, response, body) && completion_outcome(body, outcome)
            },
        }
    }

    /// An agent that asks `model` on the server at `endpoint` with
    /// `api_key` through `http_client`.
    pub fn new(api_key: String, endpoint: String, model: String, http_client: C) -> (r: Self)
        ensures
            r.api_key == api_key,
            r.endpoint == endpoint,
            r.model == model,
            r.http_client == http_client,
    {
        DeepSeekAgent { api_key, endpoint, model, http_client }
    }

    /// What is sent for `message`: its prompt as the single message of the
    /// user, with the token limit that the payload asks for and the payload
    /// itself, for the model of this agent, to the chat completions endpoint
    /// of its server. A payload without a text member `user_prompt` is
    /// refused.
    pub fn build_request(&self, message: &MCPMessage) -> (r: Result<DeepSeekCall, MCPError>)
        ensures
            !has_prompt(*message) ==> (r matches Err(e) && e@ == missing_prompt()),
            has_prompt(*message) ==> (r matches Ok(call) && request_for(
                self.api_key@,
                self.endpoint@,
                self.model@,
                *message,
                call,
            )),
    {
        match string_member(&message.payload, "user_prompt") {
            None => Err(MCPError::InternalAgentError("Missing user_prompt".to_owned())),
            Some(prompt) => {
                let mut messages: Vec<DeepSeekMessage> = Vec::new();
                messages.push(DeepSeekMessage { role: "user".to_owned(), content: prompt });
                let max_tokens = match u64_member(&message.payload, "max_tokens") {
                    Some(limit) => Some(low_32_bits(limit)),
                    None => None,
                };
                Ok(
                    DeepSeekCall {
                        url: joined(self.endpoint.as_str(), "/v1/chat/completions"),
                        headers: bearer_json_headers(self.api_key.as_str()),
                        body: DeepSeekRequest {
                            model: self.model.clone(),
                            messages,
                            max_tokens,
                            payload: message.payload.clone(),
                        },
                    },
                )
            },
        }
    }

    /// Whether an answer with this status is read on: a status outside 200
    /// to 299 is an error that quotes the status as the server worded it.
    pub fn check_status(response: &HttpResponse) -> (r: Result<(), MCPError>)
        ensures
            response.success() ==> r is Ok,
            !response.success() ==> (r matches Err(e) && e@ == refused(*response)),
    {
        if response.is_success() {
            Ok(())
        } else {
            Err(
                MCPError::InternalAgentError(
                    joined("DeepSeek API retornou status ", response.status_text.as_str()),
                ),
            )
        }
    }

    /// The envelope for a body that was read: the content of the first
    /// choice as `answer`, with the id of the answer and the finish reason
    /// of that choice. A body that could not be read is an error with the
    /// reason, a body without choices an error of its own.
    pub fn read_completion(body: Result<DeepSeekResponse, String>) -> (r: Result<
        MCPMessage,
        MCPError,
    >)
        ensures
            completion_outcome(body, r),
    {
        match body {
            Err(why) => Err(MCPError::InternalAgentError(why)),
            Ok(completion) => {
                if completion.choices.len() == 0 {
                    Err(MCPError::InternalAgentError("No response choices".to_owned()))
                } else {
                    let mut fields: Vec<(String, String)> = Vec::new();
                    fields.push(
                        ("answer".to_owned(), completion.choices[0].message.content.clone()),
                    );
                    fields.push(("id".to_owned(), completion.id.clone()));
                    fields.push(
                        ("finish_reason".to_owned(), completion.choices[0].finish_reason.clone()),
                    );
                    proof {
                        let two = fields@.drop_last();
                        let one = two.drop_last();
                        assert(members_of(one) == members_of(one.drop_last()).insert(
                            one.last().0@,
                            one.last().1@,
                        ));
                        assert(members_of(two) == members_of(one).insert(
                            two.last().0@,
                            two.last().1@,
                        ));
                    }
                    Ok(MCPMessage::new("deepseek_response", object_of_strings(&fields)))
                }
            },
        }
    }

    /// What the agent makes of what posting gave. The body of an answer is
    /// read only if its status is one of success.
    pub fn settle(&self, posted: Result<HttpResponse, String>) -> (r: Result<
        MCPMessage,
        MCPError,
    >)
        ensures
            self.settles(posted, r),
    {
        match posted {
            Err(why) => Err(MCPError::InternalAgentError(why)),
            Ok(response) => {
                match Self::check_status(&response) {
                    Err(e) => Err(e),
                    Ok(()) => Self::read_completion(self.http_client.json(response)),
                }
            },
        }
    }
}

/// The low 32 bits of `n`.
fn low_32_bits(n: u64) -> (r: u32)
    ensures
        r == n % 0x1_0000_0000,
{
    assert((n & 0xffff_ffff) == n % 0x1_0000_0000) by (bit_vector);
    (n & 0xffff_ffff) as u32
}

impl<C: HttpClient<DeepSeekRequest, DeepSeekResponse>> AIAgent for DeepSeekAgent<C> {
    fn name(&self) -> (r: &str)
        ensures
            r@ == "deepseek"@,
    {
        "deepseek"
    }

    fn process_request(&self, message: MCPMessage) -> (r: Result<MCPMessage, MCPError>)
        ensures
            self.exchange(message, r),
    {
        let call = match self.build_request(&message) {
            Ok(call) => call,
            Err(e) => {
                return Err(e);
            },
        };
        let posted = self.http_client.post(call.url, call.body, call.headers);
        let r = self.settle(posted);
        proof {
            assert(posts(self.http_client, call.url, call.body, call.headers, posted));
        }
        r
    }
}

/// An agent with the settings given, which a program takes from its
/// environment. A setting that is not given has its default: a placeholder
/// for the key, `https://api.deepseek.ai` for the server and `deepseek-chat`
/// for the model.
pub fn create_deepseek_agent<C: HttpClient<DeepSeekRequest, DeepSeekResponse>>(
    api_key: Option<String>,
    endpoint: Option<String>,
    model: Option<String>,
    http_client: C,
) -> (r: DeepSeekAgent<C>)
    ensures
        api_key matches Some(key) ==> r.api_key == key,
        api_key is None ==> r.api_key@ == "SUA_DEEPSEEK_KEY"@,
        endpoint matches Some(address) ==> r.endpoint == address,
        endpoint is None ==> r.endpoint@ == "https://api.deepseek.ai"@,
        model matches Some(name) ==> r.model == name,
        model is None ==> r.model@ == "deepseek-chat"@,
        r.http_client == http_client,
{
    let key = match api_key {
        Some(key) => key,
        None => "SUA_DEEPSEEK_KEY".to_owned(),
    };
    let address = match endpoint {
        Some(address) => address,
        None => "https://api.deepseek.ai".to_owned(),
    };
    let name = match model {
        Some(name) => name,
        None => "deepseek-chat".to_owned(),
    };
    DeepSeekAgent::new(key, address, name, http_client)
}

} // verus!
