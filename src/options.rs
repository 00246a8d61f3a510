//! Options of the command line, and the token request they call for.
use vstd::prelude::*;

verus! {

/// Gets ratelimit from docker hub.
#[derive(Debug)]
pub struct Opts {
    /// User for basic authentication
    pub user: Option<String>,
    /// Password for basic authentication
    pub pass: Option<String>,
}

/// How to obtain a token.
#[derive(Debug)]
pub enum TokenRequest {
    /// Ask for an anonymous token.
    Anonymous,
    /// Ask with these credentials.
    Basic { user: String, pass: String },
    /// Ask for the password of `user` first, then ask with those credentials.
    Prompt { user: String },
}

/// `r` is the request that the options `user` and `pass` call for: anonymous
/// without a user, whatever the password; with a user, the given password or,
/// where there is none, one to be asked for.
pub open spec fn requests(user: Option<Seq<char>>, pass: Option<Seq<char>>, r: TokenRequest) -> bool {
    match user {
        None => r is Anonymous,
        Some(u) => match pass {
            Some(p) => match r {
                TokenRequest::Basic { user, pass } => user@ == u && pass@ == p,
                _ => false,
            },
            None => match r {
                TokenRequest::Prompt { user } => user@ == u,
                _ => false,
            },
        },
    }
}

/// The text of an optional string.
pub open spec fn text_view(s: Option<String>) -> Option<Seq<char>> {
    match s {
        Some(t) => Some(t@),
        None => None,
    }
}

impl Opts {
    /// The token request that these options call for.
    pub fn token_request(&self) -> (r: TokenRequest)
        ensures
            requests(text_view(self.user), text_view(self.pass), r),
    {
        match &self.user {
            None => TokenRequest::Anonymous,
            Some(u) => match &self.pass {
                Some(p) => TokenRequest::Basic { user: u.clone(), pass: p.clone() },
                None => TokenRequest::Prompt { user: u.clone() },
            },
        }
    }
}

/// The prompt under which the password of `user` is read.
pub fn password_prompt(user: &str) -> (r: String)
    ensures
        r@ == "Password for "@ + user@ + ": "@,
{
    String::from_str("Password for ").concat(user).concat(": ")
}

} // verus!
