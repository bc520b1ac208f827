//! The agent for the OpenAI chat API.
//!
//! The agent takes the prompt out of the payload, asks the chat completions
//! endpoint with it, and answers with the text of the first choice.

use crate::agent::{envelope, failed_with, AIAgent, ErrorModel, MCPError, MCPMessage};
use crate::json::{
    is_object_of, members_of, object_of_strings, string_member, string_members,
};
use crate::testing::{bearer_json_headers, json_headers, posts, reads, HttpClient, HttpResponse};
use crate::text::joined;
use vstd::prelude::*;

verus! {

/// The body of a chat request.
pub struct OpenAIChatRequest {
    pub model: String,
    pub messages: Vec<OpenAIChatMessage>,
}

/// One message of a chat request.
pub struct OpenAIChatMessage {
    pub role: String,
    pub content: String,
}

/// The body of a chat answer.
pub struct OpenAIChatResponse {
    pub choices: Vec<OpenAIChatChoice>,
}

/// One choice of a chat answer.
pub struct OpenAIChatChoice {
    pub message: OpenAIChatMessageResponse,
}

/// The message of one choice.
pub struct OpenAIChatMessageResponse {
    pub role: String,
    pub content: String,
}

/// A request as it is handed to the client.
pub struct OpenAICall {
    pub url: String,
    pub headers: Vec<(String, String)>,
    pub body: OpenAIChatRequest,
}

/// The address of the chat completions endpoint.
pub open spec fn openai_url() -> Seq<char> {
    "https://api.openai.com/v1/chat/completions"@
}

/// The payload member that holds the prompt.
pub open spec fn prompt_member() -> Seq<char> {
    "user_prompt"@
}

/// Whether the payload of `request` holds a prompt: a text member
/// `user_prompt`.
pub open spec fn has_prompt(request: MCPMessage) -> bool {
    string_members(request.payload).contains_key(prompt_member())
}

/// The error for a payload without prompt.
pub open spec fn missing_prompt() -> ErrorModel {
    ErrorModel::InternalAgentError("Missing user_prompt"@)
}

/// Whether `messages` is the single message of the user with `prompt`.
pub open spec fn asks(messages: Seq<OpenAIChatMessage>, prompt: Seq<char>) -> bool {
    &&& messages.len() == 1
    &&& messages[0].role@ == "user"@
    &&& messages[0].content@ == prompt
}

/// Whether `call` is the request for a prompt on behalf of an agent with
/// this key and model: a JSON request to the chat completions endpoint,
/// authorised with the key, that asks the model with the prompt.
pub open spec fn request_for(
    api_key: Seq<char>,
    model: Seq<char>,
    prompt: Seq<char>,
    call: OpenAICall,
) -> bool {
    &&& call.url@ == openai_url()
    &&& json_headers(call.headers@, api_key)
    &&& call.body.model@ == model
    &&& asks(call.body.messages@, prompt)
}

/// The error for an answer with a status that is not one of success. It
/// quotes the status as the server worded it.
pub open spec fn refused(response: HttpResponse) -> ErrorModel {
    ErrorModel::InternalAgentError("OpenAI API retornou status "@ + response.status_text@)
}

/// Whether `outcome` is the answer that carries `text`: an envelope with the
/// command `openai_response` whose payload is the object that holds `text`
/// as `answer` and nothing else.
pub open spec fn answer_with(outcome: Result<MCPMessage, MCPError>, text: Seq<char>) -> bool {
    &&& outcome matches Ok(message)
    &&& message@ == envelope("openai_response"@, message.payload)
    &&& is_object_of(
        message.payload,
        Map::<Seq<char>, Seq<char>>::empty().insert("answer"@, text),
    )
}

/// Whether `outcome` is what the agent makes of a body that was read, or
/// could not be read: the content of the first choice as answer; an error
/// with the reason for a body that could not be read; an error of its own
/// for a body without choices.
pub open spec fn completion_outcome(
    body: Result<OpenAIChatResponse, String>,
    outcome: Result<MCPMessage, MCPError>,
) -> bool {
    match body {
        Err(why) => failed_with(outcome, ErrorModel::InternalAgentError(why@)),
        Ok(completion) => if completion.choices@.len() == 0 {
            failed_with(outcome, ErrorModel::InternalAgentError("No response choices"@))
        } else {
            answer_with(outcome, completion.choices@[0].message.content@)
        },
    }
}

/// The agent for the OpenAI chat API.
pub struct OpenAIAgent<C> {
    /// The key that authorises requests.
    pub api_key: String,
    /// The model to ask, such as `gpt-3.5-turbo`.
    pub model: String,
    /// The client that carries the requests.
    pub http_client: C,
}

impl<C: HttpClient<OpenAIChatRequest, OpenAIChatResponse>> OpenAIAgent<C> {
    /// Whether `outcome` is one that this agent may give for `request`.
    ///
    /// A payload without prompt is refused before anything is sent.
    /// Otherwise the request for the prompt is posted through the client.
    /// If the client fails, the outcome is an error with its reason; if the
    /// status of the answer is not one of success, an error that quotes the
    /// status; otherwise what the agent makes of the body as the client
    /// reads it.
    pub open spec fn exchange(
        self,
        request: MCPMessage,
        outcome: Result<MCPMessage, MCPError>,
    ) -> bool {
        if !has_prompt(request) {
            failed_with(outcome, missing_prompt())
        } else {
            exists|call: OpenAICall, posted: Result<HttpResponse, String>|
                {
                    &&& request_for(
                        self.api_key@,
                        self.model@,
                        string_members(request.payload)[prompt_member()],
                        call,
                    )
                    &&& posts(self.http_client, call.url, call.body, call.headers, posted)
                    &&& self.settles(posted, outcome)
                }
        }
    }

    /// Whether `outcome` is what this agent makes of what posting gave.
    pub open spec fn settles(
        self,
        posted: Result<HttpResponse, String>,
        outcome: Result<MCPMessage, MCPError>,
    ) -> bool {
        match posted {
            Err(why) => failed_with(outcome, ErrorModel::InternalAgentError(why@)),
            Ok(response) => if !response.success() {
                failed_with(outcome, refused(response))
            } else {
                exists|body: Result<OpenAIChatResponse, String>|
                    reads(self.http_client, response, body) && completion_outcome(body, outcome)
            },
        }
    }

    /// An agent that asks `model` with `api_key` through `http_client`.
    pub fn new(api_key: String, model: String, http_client: C) -> (r: Self)
        ensures
            r.api_key == api_key,
            r.model == model,
            r.http_client == http_client,
    {
        OpenAIAgent { api_key, model, http_client }
    }

    /// What is sent for `message`: its prompt as the single message of the
    /// user, for the model of this agent, to the chat completions endpoint.
    /// A payload without a text member `user_prompt` is refused.
    pub fn build_request(&self, message: &MCPMessage) -> (r: Result<OpenAICall, MCPError>)
        ensures
            !has_prompt(*message) ==> (r matches Err(e) && e@ == missing_prompt()),
            has_prompt(*message) ==> (r matches Ok(call) && request_for(
                self.api_key@,
                self.model@,
                string_members(message.payload)[prompt_member()],
                call,
            )),
    {
        match string_member(&message.payload, "user_prompt") {
            None => Err(MCPError::InternalAgentError("Missing user_prompt".to_owned())),
            Some(prompt) => {
                let mut messages: Vec<OpenAIChatMessage> = Vec::new();
                messages.push(OpenAIChatMessage { role: "user".to_owned(), content: prompt });
                Ok(
                    OpenAICall {
                        url: "https://api.openai.com/v1/chat/completions".to_owned(),
                        headers: bearer_json_headers(self.api_key.as_str()),
                        body: OpenAIChatRequest { model: self.model.clone(), messages },
                    },
                )
            },
        }
    }

    /// Whether an answer with this status is read on: a status outside 200
    /// to 299 is an error that quotes the status as the server worded it.
    pub fn check_status(response: &HttpResponse) -> (r: Result<(), MCPError>)
        ensures
            response.success() ==> r is Ok,
            !response.success() ==> (r matches Err(e) && e@ == refused(*response)),
    {
        if response.is_success() {
            Ok(())
        } else {
            Err(
                MCPError::InternalAgentError(
                    joined("OpenAI API retornou status ", response.status_text.as_str()),
                ),
            )
        }
    }

    /// The envelope for a body that was read: the content of the first
    /// choice as `answer`. A body that could not be read is an error with
    /// the reason, a body without choices an error of its own.
    pub fn read_completion(body: Result<OpenAIChatResponse, String>) -> (r: Result<
        MCPMessage,
        MCPError,
    >)
        ensures
            completion_outcome(body, r),
    {
        match body {
            Err(why) => Err(MCPError::InternalAgentError(why)),
            Ok(completion) => {
                if completion.choices.len() == 0 {
                    Err(MCPError::InternalAgentError("No response choices".to_owned()))
                } else {
                    let mut fields: Vec<(String, String)> = Vec::new();
                    fields.push(
                        ("answer".to_owned(), completion.choices[0].message.content.clone()),
                    );
                    proof {
                        assert(members_of(fields@) == members_of(fields@.drop_last()).insert(
                            fields@.last().0@,
                            fields@.last().1@,
                        ));
                    }
                    Ok(MCPMessage::new("openai_response", object_of_strings(&fields)))
                }
            },
        }
    }

    /// What the agent makes of what posting gave. The body of an answer is
    /// read only if its status is one of success.
    pub fn settle(&self, posted: Result<HttpResponse, String>) -> (r: Result<
        MCPMessage,
        MCPError,
    >)
        ensures
            self.settles(posted, r),
    {
        match posted {
            Err(why) => Err(MCPError::InternalAgentError(why)),
            Ok(response) => {
                match Self::check_status(&response) {
                    Err(e) => Err(e),
                    Ok(()) => Self::read_completion(self.http_client.json(response)),
                }
            },
        }
    }
}

impl<C: HttpClient<OpenAIChatRequest, OpenAIChatResponse>> AIAgent for OpenAIAgent<C> {
    fn name(&self) -> (r: &str)
        ensures
            r@ == "openai"@,
    {
        "openai"
    }

    fn process_request(&self, message: MCPMessage) -> (r: Result<MCPMessage, MCPError>)
        ensures
            self.exchange(message, r),
    {
        let call = match self.build_request(&message) {
            Ok(call) => call,
            Err(e) => {
                return Err(e);
            },
        };
        let posted = self.http_client.post(call.url, call.body, call.headers);
        let r = self.settle(posted);
        proof {
            assert(posts(self.http_client, call.url, call.body, call.headers, posted));
        }
        r
    }
}

/// An agent for the model `gpt-3.5-turbo`. The key is the one given, which
/// a program takes from its environment, or a placeholder if none is given.
pub fn create_openai_agent<C: HttpClient<OpenAIChatRequest, OpenAIChatResponse>>(
    api_key: Option<String>,
    http_client: C,
) -> (r: OpenAIAgent<C>)
    ensures
        api_key matches Some(key) ==> r.api_key == key,
        api_key is None ==> r.api_key@ == "SUA_KEY_AQUI"@,
        r.model@ == "gpt-3.5-turbo"@,
        r.http_client == http_client,
{
    let key = match api_key {
        Some(key) => key,
        None => "SUA_KEY_AQUI".to_owned(),
    };
    OpenAIAgent::new(key, "gpt-3.5-turbo".to_owned(), http_client)
}

} // verus!
