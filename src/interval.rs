//! Reconstruction of work intervals from a day's ordered punches.
//!
//! Each punch stays pending until the next one settles it: the builder slides
//! a window of two over the punches padded with an absent punch at both ends,
//! `[None, e1, .., en, None]`, and each window yields at most one interval.

use vstd::prelude::*;
use crate::punch::{IO, Record};
use crate::time::{TimeOfDay, SECONDS_PER_DAY};

verus! {

/// Whether both punches of an interval are known.
#[derive(Clone, Copy, Debug, PartialEq, Eq, Structural)]
pub enum IntervalStatus {
    /// Clocked in, then out.
    Complete,
    /// A clock out with no clock in before it.
    MissingStart,
    /// A clock in with no clock out after it.
    MissingEnd,
}

/// A span of the day between two punches. Where a side is missing, the span
/// reaches the neighbouring punch or the edge of the day.
#[derive(Clone, Copy, Debug, PartialEq, Eq, Structural)]
pub struct Interval {
    pub start: TimeOfDay,
    pub end: TimeOfDay,
    pub status: IntervalStatus,
}

/// The interval that a window `(prev, current)` yields, if any.
pub open spec fn interval_between(prev: Option<Record>, current: Option<Record>) -> Option<Interval> {
    match prev {
        None => match current {
            Some(Record(end, IO::O)) => Some(
                Interval { start: TimeOfDay { secs: 0 }, end, status: IntervalStatus::MissingStart },
            ),
            _ => None,
        },
        Some(Record(start, IO::I)) => match current {
            None => Some(
                Interval {
                    start,
                    end: TimeOfDay { secs: (SECONDS_PER_DAY - 1) as u32 },
                    status: IntervalStatus::MissingEnd,
                },
            ),
            Some(Record(end, IO::I)) => Some(
                Interval { start, end, status: IntervalStatus::MissingEnd },
            ),
            Some(Record(end, IO::O)) => Some(
                Interval { start, end, status: IntervalStatus::Complete },
            ),
        },
        Some(Record(start, IO::O)) => match current {
            Some(Record(end, IO::O)) => Some(
                Interval { start, end, status: IntervalStatus::MissingStart },
            ),
            _ => None,
        },
    }
}

/// The earlier punch of window `k` over `[None, rs[0], .., rs[n-1], None]`.
pub open spec fn window_prev(rs: Seq<Record>, k: int) -> Option<Record> {
    if k == 0 { None } else { Some(rs[k - 1]) }
}

/// The later punch of window `k`.
pub open spec fn window_current(rs: Seq<Record>, k: int) -> Option<Record> {
    if k == rs.len() { None } else { Some(rs[k]) }
}

/// The intervals that the first `k` windows yield, in order.
pub open spec fn intervals_through(rs: Seq<Record>, k: nat) -> Seq<Interval>
    decreases k,
{
    if k == 0 {
        seq![]
    } else {
        let prior = intervals_through(rs, (k - 1) as nat);
        match interval_between(window_prev(rs, k - 1), window_current(rs, k - 1)) {
            Some(iv) => prior.push(iv),
            None => prior,
        }
    }
}

/// The intervals of a day's punches: those of all `n + 1` windows.
pub open spec fn intervals_of(rs: Seq<Record>) -> Seq<Interval> {
    intervals_through(rs, rs.len() + 1)
}

/// Punches that lie within the day, in ascending order of time.
pub open spec fn sorted(rs: Seq<Record>) -> bool {
    &&& forall|i: int| 0 <= i < rs.len() ==> #[trigger] rs[i].valid()
    &&& forall|i: int, j: int| 0 <= i <= j < rs.len() ==> rs[i].0.secs <= rs[j].0.secs
}

/// Intervals within the day, each running forward, each ending no later than
/// the next one starts.
pub open spec fn chained(ivs: Seq<Interval>) -> bool {
    &&& forall|k: int|
        0 <= k < ivs.len() ==> #[trigger] ivs[k].start.secs <= ivs[k].end.secs < SECONDS_PER_DAY
    &&& forall|k: int| 0 < k < ivs.len() ==> ivs[k - 1].end.secs <= #[trigger] ivs[k].start.secs
}

impl Interval {
    /// The interval that two neighbouring punches yield; `None` stands for
    /// the absent punch before the first and after the last.
    pub fn from_records(prev_record: &Option<Record>, current_record: &Option<Record>) -> (r:
        Option<Interval>)
        ensures
            r == interval_between(*prev_record, *current_record),
    {
        match (prev_record, current_record) {
            (None, None) | (None, Some(Record(_, IO::I))) | (Some(Record(_, IO::O)), None) | (
                Some(Record(_, IO::O)),
                Some(Record(_, IO::I)),
            ) => None,
            (None, Some(Record(time, IO::O))) => Some(
                Interval {
                    start: TimeOfDay::midnight(),
                    end: *time,
                    status: IntervalStatus::MissingStart,
                },
            ),
            (Some(Record(time_a, IO::O)), Some(Record(time_b, IO::O))) => Some(
                Interval { start: *time_a, end: *time_b, status: IntervalStatus::MissingStart },
            ),
            (Some(Record(time, IO::I)), None) => Some(
                Interval {
                    start: *time,
                    end: TimeOfDay::last_second(),
                    status: IntervalStatus::MissingEnd,
                },
            ),
            (Some(Record(time_a, IO::I)), Some(Record(time_b, IO::I))) => Some(
                Interval { start: *time_a, end: *time_b, status: IntervalStatus::MissingEnd },
            ),
            (Some(Record(time_in, IO::I)), Some(Record(time_out, IO::O))) => Some(
                Interval { start: *time_in, end: *time_out, status: IntervalStatus::Complete },
            ),
        }
    }

    /// Whether `time` lies strictly inside the interval.
    pub fn contains(&self, time: &TimeOfDay) -> (r: bool)
        ensures
            r == (self.start.secs < time.secs && time.secs < self.end.secs),
    {
        time.secs > self.start.secs && time.secs < self.end.secs
    }

    /// Length of the interval in seconds, negative where it runs backwards.
    pub fn duration(&self) -> (r: i64)
        ensures
            r == self.end.secs - self.start.secs,
    {
        self.end.secs as i64 - self.start.secs as i64
    }
}

/// The intervals of a day's punches, in the order of the punches. The punches
/// are taken as they come: the result means something only for punches in
/// ascending order of time.
pub fn get_intervals(records: &Vec<Record>) -> (r: Vec<Interval>)
    ensures
        r@ == intervals_of(records@),
{
    let mut intervals: Vec<Interval> = Vec::new();
    let mut prev_record: Option<Record> = None;
    let n = records.len();
    let mut k: usize = 0;
    while k < n
        invariant
            n == records@.len(),
            k <= n,
            intervals@ == intervals_through(records@, k as nat),
            prev_record == window_prev(records@, k as int),
        decreases n - k,
    {
        let current_record = Some(records[k]);
        if let Some(interval) = Interval::from_records(&prev_record, &current_record) {
            intervals.push(interval);
        }
        prev_record = current_record;
        k = k + 1;
    }
    if let Some(interval) = Interval::from_records(&prev_record, &None) {
        intervals.push(interval);
    }
    intervals
}

/// Whether the intervals are chained: each within the day and running
/// forward, each ending no later than the next one starts.
pub fn is_chained(intervals: &[Interval]) -> (r: bool)
    ensures
        r == chained(intervals@),
{
    let n = intervals.len();
    let mut k: usize = 0;
    while k < n
        invariant
            n == intervals@.len(),
            k <= n,
            forall|j: int|
                0 <= j < k ==> #[trigger] intervals@[j].start.secs <= intervals@[j].end.secs
                    < SECONDS_PER_DAY,
            forall|j: int| 0 < j < k ==> intervals@[j - 1].end.secs <= #[trigger] intervals@[j].start.secs,
        decreases n - k,
    {
        let iv = &intervals[k];
        if iv.start.secs > iv.end.secs || iv.end.secs >= SECONDS_PER_DAY {
            return false;
        }
        if k > 0 && intervals[k - 1].end.secs > iv.start.secs {
            return false;
        }
        k = k + 1;
    }
    true
}

proof fn lemma_intervals_through(rs: Seq<Record>, k: nat)
    requires
        sorted(rs),
        k <= rs.len() + 1,
    ensures
        intervals_through(rs, k).len() <= k,
        chained(intervals_through(rs, k)),
        1 <= k <= rs.len() && intervals_through(rs, k).len() > 0 ==> intervals_through(
            rs,
            k,
        ).last().end.secs <= rs[k - 1].0.secs,
    decreases k,
{
    if k > 0 {
        lemma_intervals_through(rs, (k - 1) as nat);
        let prior = intervals_through(rs, (k - 1) as nat);
        let w = k - 1;
        if w > 0 {
            assert(rs[w - 1].valid());
        }
        if w < rs.len() {
            assert(rs[w].valid());
            if w > 0 {
                assert(rs[w - 1].0.secs <= rs[w].0.secs);
            }
        }
    }
}

/// A day of `n` punches yields at most `n + 1` intervals. Where the punches are
/// in ascending order of time, the intervals are too: each lies within the
/// day, runs forward, and ends no later than the next one starts.
pub proof fn lemma_intervals_bounded_and_ordered(rs: Seq<Record>)
    ensures
        intervals_of(rs).len() <= rs.len() + 1,
        sorted(rs) ==> chained(intervals_of(rs)),
{
    lemma_intervals_count(rs, rs.len() + 1);
    if sorted(rs) {
        lemma_intervals_through(rs, rs.len() + 1);
    }
}

proof fn lemma_intervals_count(rs: Seq<Record>, k: nat)
    ensures
        intervals_through(rs, k).len() <= k,
    decreases k,
{
    if k > 0 {
        lemma_intervals_count(rs, (k - 1) as nat);
    }
}

/// Reconstruction is a function of the punches alone: two runs over the same
/// punches yield the same intervals.
pub proof fn lemma_reconstruction_deterministic(rs: Seq<Record>, first: Seq<Interval>, second: Seq<
    Interval,
>)
    requires
        first == intervals_of(rs),
        second == intervals_of(rs),
    ensures
        first == second,
{
}

} // verus!
