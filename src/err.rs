//! Exit codes and the error type carried through the library.
use vstd::prelude::*;

verus! {

/// Exit codes.
#[derive(Debug, Clone, Copy, PartialEq, Eq, Structural)]
pub enum ExitCode {
    /// Exit code for successful programs
    Success,
    /// Exit code when limit has been exceeded
    OverLimit,
    /// Exit code for failed authentication
    Unauthorized,
    /// Exit code for connection errors
    Connection,
    /// Error parsing body
    Body,
    /// Error parsing rate limit
    Parsing,
}

impl ExitCode {
    /// The process status that stands for each exit code, counted from zero in
    /// declaration order.
    pub open spec fn status(self) -> i32 {
        match self {
            ExitCode::Success => 0,
            ExitCode::OverLimit => 1,
            ExitCode::Unauthorized => 2,
            ExitCode::Connection => 3,
            ExitCode::Body => 4,
            ExitCode::Parsing => 5,
        }
    }

    /// Process status to exit with.
    pub fn code(&self) -> (r: i32)
        ensures
            r == self.status(),
    {
        match self {
            ExitCode::Success => 0,
            ExitCode::OverLimit => 1,
            ExitCode::Unauthorized => 2,
            ExitCode::Connection => 3,
            ExitCode::Body => 4,
            ExitCode::Parsing => 5,
        }
    }
}

/// Wrapper around exit code.
#[derive(Debug, Clone)]
pub struct DrlErr {
    /// Message to print on exit
    pub msg: String,
    /// ExitCode to use
    pub ret: ExitCode,
}

/// Result whose error carries an exit code.
pub type DrlResult<T> = Result<T, DrlErr>;

impl DrlErr {
    /// Builds an error from its message and exit code.
    pub fn new(msg: String, ret: ExitCode) -> (r: DrlErr)
        ensures
            r.msg@ == msg@,
            r.ret == ret,
    {
        DrlErr { msg, ret }
    }
}

/// `r` is an error with message `msg` and exit code `code`.
pub open spec fn fails_with<T>(r: DrlResult<T>, msg: Seq<char>, code: ExitCode) -> bool {
    match r {
        Ok(_) => false,
        Err(e) => e.msg@ == msg && e.ret == code,
    }
}

/// Message of the error for a request that never got a reply.
pub open spec fn connect_failure_msg(detail: Seq<char>) -> Seq<char> {
    "failed to connect to docker.io: "@ + detail
}

/// The error for a request that never got a reply; `detail` says why.
pub fn connect_failure(detail: &str) -> (r: DrlErr)
    ensures
        r.msg@ == connect_failure_msg(detail@),
        r.ret == ExitCode::Connection,
{
    let msg = String::from_str("failed to connect to docker.io: ").concat(detail);
    DrlErr::new(msg, ExitCode::Connection)
}

impl Default for DrlErr {
    /// An empty message with the success code.
    fn default() -> (r: Self)
        ensures
            r.msg@ == Seq::<char>::empty(),
            r.ret == ExitCode::Success,
    {
        Self::new(String::new(), ExitCode::Success)
    }
}

} // verus!
