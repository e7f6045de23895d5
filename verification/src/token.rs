//! The login token kept for the template server.

use vstd::prelude::*;
use crate::favorites::{clone_opt, same_opt};
use crate::graphql::UserIdError;
use crate::text::{concat2, path_join, path_join_str};

verus! {

/// The saved login.
#[derive(Debug, Clone)]
pub struct Token {
    pub token: String,
    pub access_token: String,
    /// The token that renews the login once it expires.
    pub refresh_token: Option<String>,
    pub user: User,
}

/// The logged-in user.
#[derive(Debug, Clone)]
pub struct User {
    pub avatar_url: String,
    pub create_at: Option<String>,
    pub id: u64,
    pub username: String,
}

impl Token {
    /// Where the login is saved: `.cargo-actions/token.json` under the home
    /// directory `home`.
    pub fn token_file(home: &str) -> (r: String)
        ensures
            r@ == path_join(home@, ".cargo-actions/token.json"@),
    {
        path_join_str(home, ".cargo-actions/token.json")
    }

    /// The `Authorization` header value that authenticates requests.
    pub fn authorization(&self) -> (r: String)
        ensures
            r@ == "Bearer "@ + self.token@,
    {
        concat2("Bearer ", self.token.as_str())
    }
}

/// The body of the request that renews an expired login.
#[derive(Debug, Clone)]
pub struct RefreshRequest {
    /// The user's identifier.
    pub id: u64,
    /// The refresh token kept with the login.
    pub refresh_token: Option<String>,
}

/// The fields read from the server's answer to a renewal: its `code`, when
/// it is a number that fits a `u64`, and its three tokens, when they are
/// strings.
#[derive(Debug, Clone)]
pub struct RefreshReply {
    pub code: Option<u64>,
    pub token: Option<String>,
    pub access_token: Option<String>,
    pub refresh_token: Option<String>,
}

impl RefreshReply {
    /// The server refused the renewal: its code is 500.
    pub open spec fn refused(&self) -> bool {
        self.code == Some(500u64)
    }

    /// An answer that renews the login carries all three tokens.
    pub open spec fn complete(&self) -> bool {
        &&& self.token is Some
        &&& self.access_token is Some
        &&& self.refresh_token is Some
    }
}

impl Token {
    /// What is sent to renew this login: the user's identifier and the
    /// refresh token.
    pub fn refresh_request(&self) -> (r: RefreshRequest)
        ensures
            r.id == self.user.id,
            same_opt(r.refresh_token, self.refresh_token),
    {
        RefreshRequest { id: self.user.id, refresh_token: clone_opt(&self.refresh_token) }
    }

    /// Takes in the outcome of a renewal: `None` when the request could not
    /// be sent or answered. A failed request, or an answer with code 500,
    /// is the error `RefreshFailed` and leaves the login as it was; any
    /// other answer replaces the three tokens with the answer's and gives
    /// the user's identifier.
    pub fn apply_refresh(&mut self, reply: Option<RefreshReply>) -> (r: Result<u64, UserIdError>)
        requires
            reply is Some && !reply->0.refused() ==> reply->0.complete(),
        ensures
            (reply is None || reply->0.refused()) ==> {
                &&& r == Err::<u64, UserIdError>(UserIdError::RefreshFailed)
                &&& *final(self) == *old(self)
            },
            reply is Some && !reply->0.refused() ==> {
                let a = reply->0;
                &&& r == Ok::<u64, UserIdError>(old(self).user.id)
                &&& final(self).token@ == a.token->0@
                &&& final(self).access_token@ == a.access_token->0@
                &&& final(self).refresh_token matches Some(t) && t@ == a.refresh_token->0@
                &&& final(self).user == old(self).user
            },
    {
        match reply {
            None => Err(UserIdError::RefreshFailed),
            Some(a) => {
                if a.code == Some(500u64) {
                    return Err(UserIdError::RefreshFailed);
                }
                match (a.token, a.access_token, a.refresh_token) {
                    (Some(t), Some(at), Some(rt)) => {
                        self.token = t;
                        self.access_token = at;
                        self.refresh_token = Some(rt);
                        Ok(self.user.id)
                    },
                    _ => Err(UserIdError::RefreshFailed),
                }
            },
        }
    }
}

} // verus!
