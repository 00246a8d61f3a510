//! The quota that a registry reports in the headers of its reply to a
//! manifest request.
use crate::err::{fails_with, DrlErr, DrlResult, ExitCode};
use crate::number::{decimal_parse, decimal_text, parse_decimal, usize_text, NumberError};
use vstd::prelude::*;
use vstd::slice::slice_subrange;

verus! {

/// Manifest that is fetched to read the rate limit.
pub const LIMIT_URL: &'static str = "https://registry-1.docker.io/v2/ratelimitpreview/test/manifests/latest";

/// Header that holds the total number of requests of the rate limit.
pub const LIMIT_HEADER: &'static str = "ratelimit-limit";

/// Header that holds the number of requests that are left.
pub const REMAINING_HEADER: &'static str = "ratelimit-remaining";

/// The current state of the rate limit.
#[derive(Debug, Default, Copy, Clone, PartialEq, Eq, Structural)]
pub struct Limit {
    /// Number of remaining requests of the rate limit, out of `total`
    pub remaining: usize,
    /// Total number of possible requests for the rate limit
    pub total: usize,
}

impl Limit {
    /// `remaining/total` in decimal.
    pub open spec fn view_text(self) -> Seq<char> {
        decimal_text(self.remaining as nat) + "/"@ + decimal_text(self.total as nat)
    }

    /// The limit written as `remaining/total`.
    pub fn text(&self) -> (r: String)
        ensures
            r@ == self.view_text(),
    {
        let head = usize_text(self.remaining);
        let tail = usize_text(self.total);
        let with_slash = head.concat("/");
        with_slash.concat(tail.as_str())
    }
}

/// A byte that a header value may hold and still be read as text: a visible
/// ASCII character, a space or a tab.
pub open spec fn is_header_char(b: u8) -> bool {
    (32 <= b && b < 127) || b == 9
}

/// Position of the first `;` in `s`, or its length where it holds none.
pub open spec fn field_end(s: Seq<u8>) -> nat
    decreases s.len(),
{
    if s.len() == 0 || s[0] == 59 {
        0
    } else {
        1 + field_end(s.drop_first())
    }
}

/// Opening of every message about a rate-limit header that cannot be read.
pub open spec fn parse_failure() -> Seq<char> {
    "error parsing rate limit"@
}

/// What a rate-limit header gives: its number, or the message of the error.
/// The value must be text; only what stands before its first `;` is read.
pub open spec fn header_reading(value: Option<Seq<u8>>) -> Result<nat, Seq<char>> {
    match value {
        None => Err(parse_failure()),
        Some(b) => if !(forall|i: int| 0 <= i < b.len() ==> is_header_char(#[trigger] b[i])) {
            Err(parse_failure() + ": failed to convert header to a str"@)
        } else {
            match decimal_parse(b.take(field_end(b) as int)) {
                Ok(n) => Ok(n),
                Err(e) => Err(parse_failure() + ": "@ + e.message()),
            }
        },
    }
}

/// The bytes of an optional header value, as a sequence.
pub open spec fn value_view(value: Option<&[u8]>) -> Option<Seq<u8>> {
    match value {
        Some(b) => Some(b@),
        None => None,
    }
}

/// Reads the number in the value of a rate-limit header (`None` where the
/// reply had no such header).
pub fn parse_header(value: Option<&[u8]>) -> (r: DrlResult<usize>)
    ensures
        match header_reading(value_view(value)) {
            Ok(m) => r matches Ok(n) && n as nat == m,
            Err(msg) => fails_with(r, msg, ExitCode::Parsing),
        },
{
    let bytes = match value {
        Some(b) => b,
        None => {
            return Err(DrlErr::new(String::from_str("error parsing rate limit"), ExitCode::Parsing));
        },
    };
    let mut i: usize = 0;
    while i < bytes.len()
        invariant
            i <= bytes@.len(),
            value_view(value) == Some(bytes@),
            forall|j: int| 0 <= j < i ==> is_header_char(#[trigger] bytes@[j]),
        decreases bytes.len() - i,
    {
        let b = bytes[i];
        if !((32 <= b && b < 127) || b == 9) {
            let msg = String::from_str("error parsing rate limit: failed to convert header to a str");
            proof {
                assert(!is_header_char(bytes@[i as int]));
                reveal_strlit("error parsing rate limit: failed to convert header to a str");
                reveal_strlit("error parsing rate limit");
                reveal_strlit(": failed to convert header to a str");
                assert(msg@ =~= parse_failure() + ": failed to convert header to a str"@);
            }
            return Err(DrlErr::new(msg, ExitCode::Parsing));
        }
        i = i + 1;
    }
    let end = find_semicolon(bytes);
    let field = slice_subrange(bytes, 0, end);
    match parse_decimal(field) {
        Ok(n) => Ok(n),
        Err(e) => {
            let msg = String::from_str("error parsing rate limit: ").concat(e.text().as_str());
            proof {
                reveal_strlit("error parsing rate limit: ");
                reveal_strlit("error parsing rate limit");
                reveal_strlit(": ");
                assert(msg@ =~= parse_failure() + ": "@ + e.message());
            }
            Err(DrlErr::new(msg, ExitCode::Parsing))
        },
    }
}

/// Reads the limit from the values of its two headers, `total` first: the
/// first of them that cannot be read gives the error.
pub fn limit_from_headers(total: Option<&[u8]>, remaining: Option<&[u8]>) -> (r: DrlResult<Limit>)
    ensures
        match (header_reading(value_view(total)), header_reading(value_view(remaining))) {
            (Err(msg), _) => fails_with(r, msg, ExitCode::Parsing),
            (Ok(_), Err(msg)) => fails_with(r, msg, ExitCode::Parsing),
            (Ok(t), Ok(m)) => r matches Ok(l) && l.total as nat == t && l.remaining as nat == m,
        },
{
    let total = parse_header(total)?;
    let remaining = parse_header(remaining)?;
    Ok(Limit { remaining, total })
}

/// Reason phrase that a status has no standard one.
pub open spec fn unknown_reason() -> Seq<char> {
    "<unknown status code>"@
}

/// What a status code and its standard reason phrase (if any) print as.
pub open spec fn status_line(status: u16, reason: Option<Seq<char>>) -> Seq<char> {
    decimal_text(status as nat) + " "@ + match reason {
        Some(p) => p,
        None => unknown_reason(),
    }
}

/// The text of an optional reason phrase.
pub open spec fn reason_view(reason: Option<&str>) -> Option<Seq<char>> {
    match reason {
        Some(p) => Some(p@),
        None => None,
    }
}

/// The outcome of the status of the reply to the rate-limit request: success,
/// too many requests, or any other status (given with its standard reason
/// phrase, if it has one).
pub fn limit_status(status: u16, reason: Option<&str>) -> (r: DrlResult<()>)
    ensures
        status == 200 ==> r is Ok,
        status == 429 ==> fails_with(r, "over limit"@, ExitCode::OverLimit),
        status != 200 && status != 429 ==> fails_with(
            r,
            "error connecting to docker.io: "@ + status_line(status, reason_view(reason)),
            ExitCode::Connection,
        ),
{
    if status == 200 {
        Ok(())
    } else if status == 429 {
        Err(DrlErr::new(String::from_str("over limit"), ExitCode::OverLimit))
    } else {
        let phrase = match reason {
            Some(p) => p,
            None => "<unknown status code>",
        };
        let msg = String::from_str("error connecting to docker.io: ")
            .concat(usize_text(status as usize).as_str())
            .concat(" ")
            .concat(phrase);
        proof {
            assert(msg@ =~= "error connecting to docker.io: "@ + status_line(status, reason_view(reason)));
        }
        Err(DrlErr::new(msg, ExitCode::Connection))
    }
}

/// Position of the first `;` in `s`, or its length.
fn find_semicolon(s: &[u8]) -> (r: usize)
    ensures
        r == field_end(s@),
        r <= s@.len(),
{
    let mut i: usize = 0;
    assert(s@.skip(0) =~= s@);
    while i < s.len() && s[i] != 59
        invariant
            i <= s@.len(),
            field_end(s@) == i + field_end(s@.skip(i as int)),
        decreases s.len() - i,
    {
        proof {
            assert(s@.skip(i as int).drop_first() =~= s@.skip(i + 1));
        }
        i = i + 1;
    }
    proof {
        assert(s@.skip(i as int).len() == 0 || s@.skip(i as int)[0] == 59);
        lemma_field_end_bound(s@);
    }
    i
}

proof fn lemma_field_end_bound(s: Seq<u8>)
    ensures
        field_end(s) <= s.len(),
    decreases s.len(),
{
    if s.len() > 0 && s[0] != 59 {
        lemma_field_end_bound(s.drop_first());
    }
}

} // verus!
