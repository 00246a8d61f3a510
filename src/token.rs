//! Tokens of the registry's authentication service, and how its replies are
//! judged.
use crate::err::{fails_with, DrlErr, DrlResult, ExitCode};
use crate::number::{decimal_text, usize_text};
use vstd::prelude::*;

verus! {

/// Token endpoint, scoped to pulls of the repository whose manifest reports the
/// rate limit.
pub const DOCKER_URL: &'static str = "https://auth.docker.io/token?service=registry.docker.io&scope=repository:ratelimitpreview/test:pull";

/// Struct to hold token information.
#[derive(Debug)]
pub struct Token {
    pub token: String,
    pub expires_in: usize,
    pub issued_at: String,
}

impl Token {
    /// An empty token: no text, no lifetime.
    pub open spec fn is_empty(self) -> bool {
        &&& self.token@ == Seq::<char>::empty()
        &&& self.expires_in == 0
        &&& self.issued_at@ == Seq::<char>::empty()
    }

    /// Creates an empty token.
    pub fn new() -> (r: Token)
        ensures
            r.is_empty(),
    {
        Token { token: String::new(), expires_in: 0, issued_at: String::new() }
    }
}

impl Default for Token {
    /// An empty token.
    fn default() -> (r: Self)
        ensures
            r.is_empty(),
    {
        Token::new()
    }
}

/// Message for a status that the token service should not have sent.
pub open spec fn unknown_response_msg(status: u16) -> Seq<char> {
    "unknown response "@ + decimal_text(status as nat)
}

/// The error for a status that the token service should not have sent.
fn unknown_response(status: u16) -> (r: DrlErr)
    ensures
        r.msg@ == unknown_response_msg(status),
        r.ret == ExitCode::Connection,
{
    let msg = String::from_str("unknown response ").concat(usize_text(status as usize).as_str());
    DrlErr::new(msg, ExitCode::Connection)
}

/// The outcome of the status of the reply to an anonymous token request: only
/// success lets the token be read.
pub fn anon_token_status(status: u16) -> (r: DrlResult<()>)
    ensures
        status == 200 ==> r is Ok,
        status != 200 ==> fails_with(r, unknown_response_msg(status), ExitCode::Connection),
{
    if status == 200 {
        Ok(())
    } else {
        Err(unknown_response(status))
    }
}

/// The outcome of the status of the reply to a token request made with the
/// credentials of `user`: success, refused credentials, or anything else.
pub fn userpass_token_status(status: u16, user: &str) -> (r: DrlResult<()>)
    ensures
        status == 200 ==> r is Ok,
        status == 401 ==> fails_with(r, "authentication failed for "@ + user@, ExitCode::Unauthorized),
        status != 200 && status != 401 ==> fails_with(
            r,
            unknown_response_msg(status),
            ExitCode::Connection,
        ),
{
    if status == 200 {
        Ok(())
    } else if status == 401 {
        let msg = String::from_str("authentication failed for ").concat(user);
        Err(DrlErr::new(msg, ExitCode::Unauthorized))
    } else {
        Err(unknown_response(status))
    }
}

/// Message of the error for a reply whose body cannot be read as a token.
pub open spec fn body_failure_msg(detail: Seq<char>) -> Seq<char> {
    "failed to parse response: "@ + detail
}

/// The error for a reply whose body cannot be read, or not as a token;
/// `detail` says why.
pub fn body_failure(detail: &str) -> (r: DrlErr)
    ensures
        r.msg@ == body_failure_msg(detail@),
        r.ret == ExitCode::Body,
{
    let msg = String::from_str("failed to parse response: ").concat(detail);
    DrlErr::new(msg, ExitCode::Body)
}

} // verus!
