//! Time of day as whole seconds past midnight, and its `HH:MM:SS` text.

use vstd::prelude::*;
use vstd::string::*;

verus! {

/// Number of seconds in one day.
pub const SECONDS_PER_DAY: u32 = 86400;

/// A time of day, as whole seconds past midnight.
///
/// A valid time lies within one day (`secs < SECONDS_PER_DAY`).
#[derive(Clone, Copy, Debug, PartialEq, Eq, Structural)]
pub struct TimeOfDay {
    pub secs: u32,
}

/// The character of a decimal digit.
pub open spec fn digit_char(d: nat) -> char {
    if d == 0 { '0' }
    else if d == 1 { '1' }
    else if d == 2 { '2' }
    else if d == 3 { '3' }
    else if d == 4 { '4' }
    else if d == 5 { '5' }
    else if d == 6 { '6' }
    else if d == 7 { '7' }
    else if d == 8 { '8' }
    else { '9' }
}

/// Decimal notation of `n`, without leading zeros.
pub open spec fn decimal(n: nat) -> Seq<char>
    decreases n,
{
    if n < 10 {
        seq![digit_char(n)]
    } else {
        decimal(n / 10).push(digit_char(n % 10))
    }
}

/// Decimal notation of `n`, padded with a zero to at least two digits.
pub open spec fn two_digits(n: nat) -> Seq<char> {
    if n < 10 {
        seq!['0', digit_char(n)]
    } else {
        decimal(n)
    }
}

/// `HH:MM:SS` for a number of seconds.
pub open spec fn hms(secs: nat) -> Seq<char> {
    two_digits(secs / 3600) + seq![':'] + two_digits(secs / 60 % 60) + seq![':'] + two_digits(
        secs % 60,
    )
}

/// `H:MM:SS` for a number of seconds: the hour without a leading zero.
pub open spec fn hms_short_hour(secs: nat) -> Seq<char> {
    decimal(secs / 3600) + seq![':'] + two_digits(secs / 60 % 60) + seq![':'] + two_digits(
        secs % 60,
    )
}

impl TimeOfDay {
    pub open spec fn valid(self) -> bool {
        self.secs < SECONDS_PER_DAY
    }

    /// Midnight, the first second of the day.
    pub fn midnight() -> (r: TimeOfDay)
        ensures
            r.secs == 0,
    {
        TimeOfDay { secs: 0 }
    }

    /// 23:59:59, the last second of the day.
    pub fn last_second() -> (r: TimeOfDay)
        ensures
            r.secs == SECONDS_PER_DAY - 1,
    {
        TimeOfDay { secs: SECONDS_PER_DAY - 1 }
    }

    /// The time `hour:minute:second`, or `None` where a field is out of range.
    pub fn from_hms(hour: u32, minute: u32, second: u32) -> (r: Option<TimeOfDay>)
        ensures
            r is Some <==> (hour < 24 && minute < 60 && second < 60),
            r matches Some(t) ==> t.secs == hour * 3600 + minute * 60 + second && t.valid(),
    {
        if hour < 24 && minute < 60 && second < 60 {
            Some(TimeOfDay { secs: hour * 3600 + minute * 60 + second })
        } else {
            None
        }
    }

    /// The time `secs` seconds past midnight, or `None` past the end of the day.
    pub fn from_seconds(secs: u32) -> (r: Option<TimeOfDay>)
        ensures
            r is Some <==> secs < SECONDS_PER_DAY,
            r matches Some(t) ==> t.secs == secs,
    {
        if secs < SECONDS_PER_DAY {
            Some(TimeOfDay { secs })
        } else {
            None
        }
    }

    /// The time as `HH:MM:SS`.
    pub fn to_hms_string(&self) -> (r: String)
        ensures
            r@ == hms(self.secs as nat),
    {
        let mut s = String::new();
        push_hms(&mut s, self.secs as u64);
        s
    }
}

/// One decimal digit as text.
fn digit_str(d: u64) -> (r: &'static str)
    requires
        d < 10,
    ensures
        r@ == seq![digit_char(d as nat)],
{
    if d == 0 {
        proof { reveal_strlit("0"); }
        "0"
    } else if d == 1 {
        proof { reveal_strlit("1"); }
        "1"
    } else if d == 2 {
        proof { reveal_strlit("2"); }
        "2"
    } else if d == 3 {
        proof { reveal_strlit("3"); }
        "3"
    } else if d == 4 {
        proof { reveal_strlit("4"); }
        "4"
    } else if d == 5 {
        proof { reveal_strlit("5"); }
        "5"
    } else if d == 6 {
        proof { reveal_strlit("6"); }
        "6"
    } else if d == 7 {
        proof { reveal_strlit("7"); }
        "7"
    } else if d == 8 {
        proof { reveal_strlit("8"); }
        "8"
    } else {
        proof { reveal_strlit("9"); }
        "9"
    }
}

/// Appends the decimal notation of `n`.
pub fn push_decimal(s: &mut String, n: u64)
    ensures
        final(s)@ == old(s)@ + decimal(n as nat),
    decreases n,
{
    if n < 10 {
        s.append(digit_str(n));
    } else {
        push_decimal(s, n / 10);
        s.append(digit_str(n % 10));
    }
}

/// Appends `n` in decimal, padded to at least two digits.
fn push_two_digits(s: &mut String, n: u64)
    ensures
        final(s)@ == old(s)@ + two_digits(n as nat),
{
    if n < 10 {
        s.append(digit_str(0));
        s.append(digit_str(n));
        assert(final(s)@ =~= old(s)@ + two_digits(n as nat));
    } else {
        push_decimal(s, n);
    }
}

/// Appends `secs` as `HH:MM:SS`.
pub fn push_hms(s: &mut String, secs: u64)
    ensures
        final(s)@ == old(s)@ + hms(secs as nat),
{
    proof { reveal_strlit(":"); }
    push_two_digits(s, secs / 3600);
    s.append(":");
    push_two_digits(s, secs / 60 % 60);
    s.append(":");
    push_two_digits(s, secs % 60);
    assert(final(s)@ =~= old(s)@ + hms(secs as nat));
}

/// Appends `secs` as `H:MM:SS`, the hour without a leading zero.
pub fn push_hms_short_hour(s: &mut String, secs: u64)
    ensures
        final(s)@ == old(s)@ + hms_short_hour(secs as nat),
{
    proof { reveal_strlit(":"); }
    push_decimal(s, secs / 3600);
    s.append(":");
    push_two_digits(s, secs / 60 % 60);
    s.append(":");
    push_two_digits(s, secs % 60);
    assert(final(s)@ =~= old(s)@ + hms_short_hour(secs as nat));
}

} // verus!
