use vstd::prelude::*;

use crate::authority::Authority;

verus! {

/// A stored account: its object id and its credentials.
#[derive(Debug, Clone)]
pub struct Account {
    pub obj: String,
    pub creds: Creds,
}

/// The public face of an account.
#[derive(Debug, Clone)]
pub struct User {
    pub username: String,
    pub disp_name: String,
}

/// Credentials as sent to register or log in, and as stored.
#[derive(Debug, Clone)]
pub struct Creds {
    pub username: String,
    pub password: String,
    pub disp_name: String,
    pub auth: Authority,
}

/// A bare username and password.
#[derive(Debug, Clone)]
pub struct Kernel {
    pub username: String,
    pub password: String,
}

/// The claims a session token carries: whose it is, their authority,
/// when it was issued and when it expires (seconds since the epoch).
#[derive(Debug, Clone)]
pub struct TokenClaims {
    pub sub: String,
    pub auth: Authority,
    pub iat: usize,
    pub exp: usize,
}

/// The body of a refusal: a status word and a message.
#[derive(Debug, Clone)]
pub struct ErrorResponse {
    status: String,
    message: String,
}

impl ErrorResponse {
    /// A refusal with the given status word and message.
    pub fn new(status: String, message: String) -> (r: ErrorResponse)
        ensures
            r.status() == status@,
            r.message() == message@,
    {
        ErrorResponse { status, message }
    }

    pub closed spec fn status(self) -> Seq<char> {
        self.status@
    }

    pub closed spec fn message(self) -> Seq<char> {
        self.message@
    }

    /// The status word.
    pub fn status_text(&self) -> (r: &str)
        ensures
            r@ == self.status(),
    {
        self.status.as_str()
    }

    /// The message.
    pub fn message_text(&self) -> (r: &str)
        ensures
            r@ == self.message(),
    {
        self.message.as_str()
    }
}

/// Who is making a request, as the session token says.
#[derive(Debug, Clone)]
pub struct Identity {
    pub user_id: String,
    pub auth: Authority,
}

} // verus!
