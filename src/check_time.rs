//! Sanity check of the system clock against a time server, and the answer to
//! the prompt that follows a failed check.

use vstd::prelude::*;
use vstd::string::*;
use crate::text::same_text;

verus! {

/// Seconds from the NTP epoch (1900) to the Unix epoch (1970).
pub const NTP_UNIX_OFFSET: u64 = 2208988800;

/// How far, in minutes, the system clock may stray from the time server.
pub const PERMISSIBLE_ERROR_MIN: u64 = 15;

/// Why the system clock could not be trusted.
#[derive(Clone, Copy, Debug, PartialEq, Eq, Structural)]
pub enum TimeCheckError {
    /// The time server did not answer.
    ServerUnreachable,
    /// The system clock is further from the server's time than allowed.
    ClockSkewed,
}

impl TimeCheckError {
    /// A sentence that describes the error.
    pub fn message(&self) -> (r: &'static str)
        ensures
            *self == TimeCheckError::ServerUnreachable ==> r@
                == "failed to communicate with time server"@,
            *self == TimeCheckError::ClockSkewed ==> r@
                == "system clock is more than 15 minute out of date"@,
    {
        match self {
            TimeCheckError::ServerUnreachable => "failed to communicate with time server",
            TimeCheckError::ClockSkewed => "system clock is more than 15 minute out of date",
        }
    }
}

/// Absolute difference of two instants.
pub open spec fn spec_diff(a: int, b: int) -> int {
    if a > b { a - b } else { b - a }
}

/// Absolute difference of two instants.
pub fn diff(a: u64, b: u64) -> (r: u64)
    ensures
        r == spec_diff(a as int, b as int),
{
    if a > b {
        a - b
    } else {
        b - a
    }
}

/// Checks the system clock, in seconds since the Unix epoch, against the
/// time server's answer, in seconds since the NTP epoch (`None` where the
/// server did not answer).
pub fn check_time(system_unix_secs: u64, server_ntp_secs: Option<u64>) -> (r: Result<(), TimeCheckError>)
    requires
        system_unix_secs + NTP_UNIX_OFFSET <= u64::MAX,
    ensures
        server_ntp_secs is None ==> r == Err::<(), TimeCheckError>(TimeCheckError::ServerUnreachable),
        server_ntp_secs matches Some(server) ==> (r is Ok <==> spec_diff(
            system_unix_secs + NTP_UNIX_OFFSET,
            server as int,
        ) <= 60 * PERMISSIBLE_ERROR_MIN),
        r is Err ==> server_ntp_secs is Some ==> r == Err::<(), TimeCheckError>(
            TimeCheckError::ClockSkewed,
        ),
{
    let system_ntp_secs = system_unix_secs + NTP_UNIX_OFFSET;
    let server = match server_ntp_secs {
        Some(server) => server,
        None => return Err(TimeCheckError::ServerUnreachable),
    };
    if diff(system_ntp_secs, server) <= 60 * PERMISSIBLE_ERROR_MIN {
        Ok(())
    } else {
        Err(TimeCheckError::ClockSkewed)
    }
}

/// Whether `c` has the Unicode White_Space property.
pub open spec fn is_white_space(c: char) -> bool {
    ('\u{9}' <= c <= '\u{d}') || c == ' ' || c == '\u{85}' || c == '\u{a0}' || c == '\u{1680}'
        || ('\u{2000}' <= c <= '\u{200a}') || c == '\u{2028}' || c == '\u{2029}' || c == '\u{202f}'
        || c == '\u{205f}' || c == '\u{3000}'
}

/// `s` without its leading white space.
pub open spec fn trim_start(s: Seq<char>) -> Seq<char>
    decreases s.len(),
{
    if s.len() > 0 && is_white_space(s[0]) {
        trim_start(s.drop_first())
    } else {
        s
    }
}

/// `s` without its trailing white space.
pub open spec fn trim_end(s: Seq<char>) -> Seq<char>
    decreases s.len(),
{
    if s.len() > 0 && is_white_space(s.last()) {
        trim_end(s.drop_last())
    } else {
        s
    }
}

/// `s` without leading and trailing white space.
pub open spec fn trimmed(s: Seq<char>) -> Seq<char> {
    trim_end(trim_start(s))
}

/// Relies on `str::trim`: leading and trailing characters with the Unicode
/// White_Space property removed.
#[verifier::external_body]
fn trim(s: &str) -> (r: &str)
    ensures
        r@ == trimmed(s@),
{
    s.trim()
}

/// The answers that agree to go on.
pub open spec fn is_yes(answer: Seq<char>) -> bool {
    answer == "y"@ || answer == "Y"@ || answer == "yes"@ || answer == "YES"@ || answer == "Yes"@
}

/// Whether an answer, already trimmed, agrees to go on.
pub fn is_yes_answer(answer: &str) -> (r: bool)
    ensures
        r == is_yes(answer@),
{
    same_text(answer, "y") || same_text(answer, "Y") || same_text(answer, "yes") || same_text(
        answer,
        "YES",
    ) || same_text(answer, "Yes")
}

/// Whether a typed line agrees to go on, white space around it ignored.
pub fn confirms(line: &str) -> (r: bool)
    ensures
        r == is_yes(trimmed(line@)),
{
    is_yes_answer(trim(line))
}

} // verus!
