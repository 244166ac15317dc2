//! Punch records: a time of day and a direction, clock in or clock out.

use vstd::prelude::*;
use vstd::string::*;
use chrono::Timelike;
use crate::text::same_text;
use crate::time::TimeOfDay;

verus! {

/// Direction of a punch.
#[derive(Clone, Copy, Debug, PartialEq, Eq, Structural)]
pub enum IO {
    /// Clock in.
    I,
    /// Clock out.
    O,
}

/// Why a stored row could not be read as a punch.
#[derive(Clone, Copy, Debug, PartialEq, Eq, Structural)]
pub enum RecordError {
    /// The timestamp is not `YYYY-MM-DD HH:MM:SS`.
    MalformedTimestamp,
    /// The direction is neither `i` nor `o`.
    MalformedDirection,
}

impl RecordError {
    /// A sentence that describes the error.
    pub fn message(&self) -> (r: &'static str)
        ensures
            *self == RecordError::MalformedTimestamp ==> r@
                == "stored timestamp is not YYYY-MM-DD HH:MM:SS"@,
            *self == RecordError::MalformedDirection ==> r@ == "Unexpected IO char"@,
    {
        match self {
            RecordError::MalformedTimestamp => "stored timestamp is not YYYY-MM-DD HH:MM:SS",
            RecordError::MalformedDirection => "Unexpected IO char",
        }
    }
}

/// A punch: when it happened and in which direction.
#[derive(Clone, Copy, Debug, PartialEq, Eq, Structural)]
pub struct Record(pub TimeOfDay, pub IO);

/// The direction that a stored code names, if any.
pub open spec fn io_of_code(code: Seq<char>) -> Option<IO> {
    if code == seq!['i'] {
        Some(IO::I)
    } else if code == seq!['o'] {
        Some(IO::O)
    } else {
        None
    }
}

/// Seconds past midnight of the time in a stored timestamp, where chrono
/// reads it as `%Y-%m-%d %H:%M:%S`.
pub uninterp spec fn stored_time_of(timestamp: Seq<char>) -> Option<u32>;

/// Relies on chrono's `NaiveDateTime::parse_from_str` with the format
/// `%Y-%m-%d %H:%M:%S`, then `Timelike::num_seconds_from_midnight` of its
/// time, which counts the non-leap seconds past midnight (below 86400).
#[verifier::external_body]
fn parse_stored_time(timestamp: &str) -> (r: Option<u32>)
    ensures
        r == stored_time_of(timestamp@),
        r matches Some(secs) ==> secs < 86400,
{
    match chrono::NaiveDateTime::parse_from_str(timestamp, "%Y-%m-%d %H:%M:%S") {
        Ok(datetime) => Some(datetime.time().num_seconds_from_midnight()),
        Err(_) => None,
    }
}

impl IO {
    /// The one-letter code stored for this direction.
    pub open spec fn spec_code(self) -> Seq<char> {
        match self {
            IO::I => seq!['i'],
            IO::O => seq!['o'],
        }
    }

    /// The one-letter code stored for this direction: `i` or `o`.
    pub fn code(&self) -> (r: &'static str)
        ensures
            r@ == self.spec_code(),
    {
        match self {
            IO::I => {
                proof { reveal_strlit("i"); }
                "i"
            },
            IO::O => {
                proof { reveal_strlit("o"); }
                "o"
            },
        }
    }

    /// Reads a stored one-letter code.
    pub fn from_code(code: &str) -> (r: Result<IO, RecordError>)
        ensures
            r matches Ok(io) ==> io_of_code(code@) == Some(io),
            r is Err ==> io_of_code(code@) is None && r == Err::<IO, RecordError>(
                RecordError::MalformedDirection,
            ),
    {
        proof {
            reveal_strlit("i");
            reveal_strlit("o");
            assert("i"@ =~= seq!['i']);
            assert("o"@ =~= seq!['o']);
        }
        if same_text(code, "i") {
            Ok(IO::I)
        } else if same_text(code, "o") {
            Ok(IO::O)
        } else {
            Err(RecordError::MalformedDirection)
        }
    }
}

impl Record {
    pub open spec fn valid(self) -> bool {
        self.0.valid()
    }

    /// Builds a record from a stored timestamp's seconds past midnight, as
    /// read by chrono (`None` where it could not be read), and a stored
    /// direction code. The timestamp is reported first where both are bad.
    pub fn from_parsed(secs: Option<u32>, io: &str) -> (r: Result<Record, RecordError>)
        ensures
            r == Record::spec_from_parsed(secs, io@),
    {
        let secs = match secs {
            Some(secs) => secs,
            None => return Err(RecordError::MalformedTimestamp),
        };
        match IO::from_code(io) {
            Ok(direction) => Ok(Record(TimeOfDay { secs }, direction)),
            Err(e) => Err(e),
        }
    }

    /// Builds a record from a stored row's timestamp (`YYYY-MM-DD HH:MM:SS`)
    /// and direction (`i` or `o`) columns.
    pub fn from_statement(timestamp: &str, io: &str) -> (r: Result<Record, RecordError>)
        ensures
            r == Record::spec_from_parsed(stored_time_of(timestamp@), io@),
            r matches Ok(rec) ==> rec.valid(),
    {
        Record::from_parsed(parse_stored_time(timestamp), io)
    }

    /// What `from_parsed` returns.
    pub open spec fn spec_from_parsed(secs: Option<u32>, io: Seq<char>) -> Result<Record, RecordError> {
        match secs {
            None => Err(RecordError::MalformedTimestamp),
            Some(secs) => match io_of_code(io) {
                None => Err(RecordError::MalformedDirection),
                Some(direction) => Ok(Record(TimeOfDay { secs }, direction)),
            },
        }
    }
}

} // verus!
