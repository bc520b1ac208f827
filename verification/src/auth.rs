//! Authentication by bearer token: the set of tokens that are accepted, and
//! what a request has to show to count as authenticated.

use vstd::hash_set::StringHashSet;
use vstd::prelude::*;

verus! {

/// A caller that showed a bearer token.
#[derive(Debug)]
pub struct AuthUser {
    /// The token that was shown.
    pub token: String,
}

impl Clone for AuthUser {
    fn clone(&self) -> (r: Self)
        ensures
            r == *self,
    {
        AuthUser { token: self.token.clone() }
    }
}

/// The tokens that are accepted.
pub struct AuthConfig {
    tokens: StringHashSet,
}

impl View for AuthConfig {
    type V = Set<Seq<char>>;

    closed spec fn view(&self) -> Set<Seq<char>> {
        self.tokens@
    }
}

impl AuthConfig {
    /// A configuration that accepts no token.
    pub fn new() -> (r: Self)
        ensures
            r@ == Set::<Seq<char>>::empty(),
    {
        AuthConfig { tokens: StringHashSet::new() }
    }

    /// Accepts `token` from now on.
    pub fn add_token(&mut self, token: String)
        ensures
            final(self)@ == old(self)@.insert(token@),
    {
        let _ = self.tokens.insert(token);
    }

    /// Whether `token` is accepted.
    pub fn is_valid_token(&self, token: &str) -> (r: bool)
        ensures
            r == self@.contains(token@),
    {
        self.tokens.contains(token)
    }
}

impl Default for AuthConfig {
    fn default() -> (r: Self)
        ensures
            r@ == Set::<Seq<char>>::empty(),
    {
        AuthConfig::new()
    }
}

/// Why a request does not count as authenticated.
#[derive(Debug)]
pub struct AuthError {
    /// The reason, for the caller to read.
    pub message: String,
}

/// The reason given to a request without a bearer token.
pub open spec fn missing_token_text() -> Seq<char> {
    "Token de autorização ausente ou inválido"@
}

/// The status of an answer to a request that is not authenticated.
pub open spec fn unauthorized_status() -> u16 {
    401
}

impl AuthError {
    /// The status with which such a request is answered.
    pub fn status(&self) -> (r: u16)
        ensures
            r == unauthorized_status(),
    {
        401
    }
}

impl AuthUser {
    /// The caller behind a request, by the bearer token of its authorization
    /// header. A request that shows a token counts as authenticated with it;
    /// whether the token is an accepted one is a question to `AuthConfig`.
    /// A request without such a header is refused.
    pub fn from_bearer(bearer: Option<&str>) -> (r: Result<AuthUser, AuthError>)
        ensures
            bearer matches Some(token) ==> (r matches Ok(user) && user.token@ == token@),
            bearer is None ==> (r matches Err(e) && e.message@ == missing_token_text()),
    {
        match bearer {
            Some(token) => Ok(AuthUser { token: token.to_owned() }),
            None => Err(
                AuthError { message: "Token de autorização ausente ou inválido".to_owned() },
            ),
        }
    }
}

} // verus!
