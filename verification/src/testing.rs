//! The seam between an agent and the network.
//!
//! An agent decides what to send and what an answer means; sending is done
//! by an `HttpClient`. A program plugs in a client that talks to the
//! network, a test one that answers from memory. Nothing is promised of a
//! client: whatever it returns, the agent's handling of it is verified.

use crate::text::joined;
use vstd::prelude::*;

verus! {

/// What came back from a request: the status code, the status as the server
/// worded it, and the body as it arrived.
pub struct HttpResponse {
    pub status: u16,
    pub status_text: String,
    pub body: Vec<u8>,
}

impl HttpResponse {
    /// Whether the status is one of success, that is, from 200 to 299.
    pub open spec fn success(self) -> bool {
        200 <= self.status <= 299
    }

    /// Whether the status is one of success.
    pub fn is_success(&self) -> (r: bool)
        ensures
            r == self.success(),
    {
        200 <= self.status && self.status <= 299
    }
}

/// Sends requests with a body of type `Q` written as JSON and reads the
/// bodies of answers as JSON of the shape `R`. A failure is told as text.
pub trait HttpClient<Q, R>: Send + Sync {
    /// Posts `body` to `url` with the given headers.
    fn post(&self, url: String, body: Q, headers: Vec<(String, String)>) -> Result<
        HttpResponse,
        String,
    >;

    /// Reads the body of `response`.
    fn json(&self, response: HttpResponse) -> Result<R, String>;
}

/// Whether `posted` is what `client` may return for such a request.
pub open spec fn posts<Q, R, C: HttpClient<Q, R>>(
    client: C,
    url: String,
    body: Q,
    headers: Vec<(String, String)>,
    posted: Result<HttpResponse, String>,
) -> bool {
    call_ensures(C::post, (&client, url, body, headers), posted)
}

/// Whether `read` is what `client` may make of the body of `response`.
pub open spec fn reads<Q, R, C: HttpClient<Q, R>>(
    client: C,
    response: HttpResponse,
    read: Result<R, String>,
) -> bool {
    call_ensures(C::json, (&client, response), read)
}

/// A boxed client is the client in the box.
impl<Q, R, T: HttpClient<Q, R> + ?Sized> HttpClient<Q, R> for Box<T> {
    fn post(&self, url: String, body: Q, headers: Vec<(String, String)>) -> (r: Result<
        HttpResponse,
        String,
    >)
        ensures
            call_ensures(T::post, (&**self, url, body, headers), r),
    {
        (**self).post(url, body, headers)
    }

    fn json(&self, response: HttpResponse) -> (r: Result<R, String>)
        ensures
            call_ensures(T::json, (&**self, response), r),
    {
        (**self).json(response)
    }
}

/// Whether `headers` are the two headers of a JSON request authorised with
/// `api_key`.
pub open spec fn json_headers(headers: Seq<(String, String)>, api_key: Seq<char>) -> bool {
    &&& headers.len() == 2
    &&& headers[0].0@ == "Authorization"@
    &&& headers[0].1@ == "Bearer "@ + api_key
    &&& headers[1].0@ == "Content-Type"@
    &&& headers[1].1@ == "application/json"@
}

/// The two headers of a JSON request authorised with `api_key`.
pub fn bearer_json_headers(api_key: &str) -> (headers: Vec<(String, String)>)
    ensures
        json_headers(headers@, api_key@),
{
    let mut headers: Vec<(String, String)> = Vec::new();
    headers.push(("Authorization".to_owned(), joined("Bearer ", api_key)));
    headers.push(("Content-Type".to_owned(), "application/json".to_owned()));
    headers
}

} // verus!
