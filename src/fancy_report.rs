//! The fancy report: total time worked and a summary table of the intervals.

use vstd::prelude::*;
use vstd::string::*;
use crate::interval::{chained, Interval, IntervalStatus};
use crate::time::{hms, hms_short_hour, push_hms, push_hms_short_hour, SECONDS_PER_DAY};

verus! {

/// First word of the notice shown instead of a total.
pub const INCOMPLETE_WORD: &'static str = "ERROR";

/// Rest of the notice shown instead of a total.
pub const INCOMPLETE_MESSAGE: &'static str = "there are some incomplete intervals";

/// Guidance shown under the notice.
pub const INCOMPLETE_HINT_FIND: &'static str = "\tPlease run `timest report simple` to find the missing records ";

/// Guidance shown under the notice.
pub const INCOMPLETE_HINT_FIX: &'static str = "\tand fix them with `timest clock` and `timest fix`";

/// Label in front of the total.
pub const TOTAL_LABEL: &'static str = "TOTAL TIME WORKED: ";

/// Whether every interval is complete.
pub open spec fn all_complete(ivs: Seq<Interval>) -> bool {
    forall|k: int| 0 <= k < ivs.len() ==> #[trigger] ivs[k].status == IntervalStatus::Complete
}

/// Sum of `end - start` over the intervals, in seconds.
pub open spec fn sum_durations(ivs: Seq<Interval>) -> int
    decreases ivs.len(),
{
    if ivs.len() == 0 {
        0
    } else {
        sum_durations(ivs.drop_last()) + (ivs.last().end.secs - ivs.last().start.secs)
    }
}

/// Time worked: defined only where every interval is complete.
pub open spec fn total_seconds(ivs: Seq<Interval>) -> Option<int> {
    if all_complete(ivs) {
        Some(sum_durations(ivs))
    } else {
        None
    }
}

proof fn lemma_sum_bounded(ivs: Seq<Interval>)
    requires
        chained(ivs),
        ivs.len() > 0,
    ensures
        0 <= sum_durations(ivs) <= ivs.last().end.secs - ivs[0].start.secs,
    decreases ivs.len(),
{
    let k = ivs.len() - 1;
    assert(ivs[k].start.secs <= ivs[k].end.secs);
    assert(ivs.last() == ivs[k]);
    assert(sum_durations(ivs) == sum_durations(ivs.drop_last()) + (ivs[k].end.secs
        - ivs[k].start.secs));
    if ivs.len() > 1 {
        let prior = ivs.drop_last();
        assert(chained(prior)) by {
            assert forall|j: int| 0 <= j < prior.len() implies #[trigger] prior[j].start.secs
                <= prior[j].end.secs < SECONDS_PER_DAY by {
                assert(prior[j] == ivs[j]);
            }
            assert forall|j: int| 0 < j < prior.len() implies prior[j - 1].end.secs
                <= #[trigger] prior[j].start.secs by {
                assert(prior[j] == ivs[j]);
                assert(prior[j - 1] == ivs[j - 1]);
            }
        }
        lemma_sum_bounded(prior);
        assert(prior[0] == ivs[0]);
        assert(prior.last() == ivs[k - 1]);
        assert(ivs[k - 1].end.secs <= ivs[k].start.secs);
    } else {
        assert(ivs.drop_last().len() == 0);
        assert(sum_durations(ivs.drop_last()) == 0);
        assert(ivs.last() == ivs[0]);
    }
}

/// Where intervals are chained, a defined total lies within one day.
pub proof fn lemma_total_within_day(ivs: Seq<Interval>)
    requires
        chained(ivs),
    ensures
        total_seconds(ivs) matches Some(t) ==> 0 <= t < SECONDS_PER_DAY,
{
    if ivs.len() > 0 {
        lemma_sum_bounded(ivs);
        assert(ivs[0].start.secs <= ivs[0].end.secs);
        assert(ivs.last().end.secs < SECONDS_PER_DAY);
    }
}

/// Seconds worked over the intervals: `None` where any interval is
/// incomplete, since a partial total would under-report the day.
pub fn seconds_worked(intervals: &[Interval]) -> (r: Option<i128>)
    ensures
        r is Some <==> all_complete(intervals@),
        r matches Some(t) ==> t == sum_durations(intervals@),
        r is None <==> total_seconds(intervals@) is None,
        r matches Some(t) ==> total_seconds(intervals@) == Some(t as int),
{
    let n = intervals.len();
    let mut total: i128 = 0;
    let mut k: usize = 0;
    while k < n
        invariant
            n == intervals@.len(),
            k <= n,
            all_complete(intervals@.take(k as int)),
            total == sum_durations(intervals@.take(k as int)),
            -(k * 0x1_0000_0000) <= total <= k * 0x1_0000_0000,
        decreases n - k,
    {
        let interval = &intervals[k];
        if interval.status != IntervalStatus::Complete {
            assert(!all_complete(intervals@));
            return None;
        }
        proof {
            let next = intervals@.take(k + 1);
            assert(next.drop_last() =~= intervals@.take(k as int));
            assert((k + 1) * 0x1_0000_0000 <= 0x1_0000_0000_0000_0000 * 0x1_0000_0000)
                by (nonlinear_arith)
                requires
                    k < n,
                    n <= usize::MAX,
                    usize::MAX < 0x1_0000_0000_0000_0000,
            ;
            assert((k + 1) * 0x1_0000_0000 == k * 0x1_0000_0000 + 0x1_0000_0000)
                by (nonlinear_arith);
        }
        total = total + interval.duration() as i128;
        k = k + 1;
    }
    assert(intervals@.take(n as int) =~= intervals@);
    Some(total)
}

/// The total line's time, `H:MM:SS`; `None` where any interval is incomplete.
pub fn total_text(intervals: &[Interval]) -> (r: Option<String>)
    requires
        chained(intervals@),
    ensures
        r is Some <==> all_complete(intervals@),
        r matches Some(s) ==> s@ == hms_short_hour(sum_durations(intervals@) as nat),
{
    proof { lemma_total_within_day(intervals@); }
    match seconds_worked(intervals) {
        Some(total) => {
            assert(0 <= total < SECONDS_PER_DAY);
            let mut s = String::new();
            push_hms_short_hour(&mut s, total as u64);
            Some(s)
        },
        None => None,
    }
}

/// The summary table's row for one interval.
pub open spec fn summary_row(iv: Interval) -> Seq<char> {
    match iv.status {
        IntervalStatus::Complete => "│  "@ + hms(iv.start.secs as nat) + " - "@ + hms(
            iv.end.secs as nat,
        ) + "  │  "@ + hms_short_hour(
            (iv.end.secs - iv.start.secs) as nat,
        ) + "  │"@,
        IntervalStatus::MissingEnd => "│  "@ + hms(iv.start.secs as nat)
            + " - ??:??:??  │            │ "@,
        IntervalStatus::MissingStart => "│  ??:??:?? - "@ + hms(iv.end.secs as nat)
            + "  │            │"@,
    }
}

/// Lines above the rows of the summary table.
pub open spec fn summary_head() -> Seq<Seq<char>> {
    seq![
        "            SUMMARY"@,
        "┌───────────────────────┬────────────┐"@,
        "│        INTERVAL       │  DURATION  │"@,
        "├───────────────────────┼────────────┤"@,
    ]
}

/// Line below the rows of the summary table.
pub open spec fn summary_foot() -> Seq<char> {
    "└───────────────────────┴────────────┘"@
}

/// Renders one row of the summary table.
pub fn summary_row_text(interval: &Interval) -> (r: String)
    requires
        interval.start.secs <= interval.end.secs,
    ensures
        r@ == summary_row(*interval),
{
    match interval.status {
        IntervalStatus::Complete => {
            let mut s = String::from_str("│  ");
            push_hms(&mut s, interval.start.secs as u64);
            s.append(" - ");
            push_hms(&mut s, interval.end.secs as u64);
            s.append("  │  ");
            push_hms_short_hour(&mut s, (interval.end.secs - interval.start.secs) as u64);
            s.append("  │");
            s
        },
        IntervalStatus::MissingEnd => {
            let mut s = String::from_str("│  ");
            push_hms(&mut s, interval.start.secs as u64);
            s.append(" - ??:??:??  │            │ ");
            s
        },
        IntervalStatus::MissingStart => {
            let mut s = String::from_str("│  ??:??:?? - ");
            push_hms(&mut s, interval.end.secs as u64);
            s.append("  │            │");
            s
        },
    }
}

/// The summary table: a title, a header, one row per interval in order, and
/// a bottom border.
pub fn summary_lines(intervals: &[Interval]) -> (r: Vec<String>)
    requires
        chained(intervals@),
    ensures
        r@.len() == intervals@.len() + 5,
        forall|k: int| 0 <= k < 4 ==> #[trigger] r@[k]@ == summary_head()[k],
        forall|k: int|
            0 <= k < intervals@.len() ==> #[trigger] r@[k + 4]@ == summary_row(intervals@[k]),
        r@.last()@ == summary_foot(),
{
    let mut lines: Vec<String> = Vec::new();
    lines.push(String::from_str("            SUMMARY"));
    lines.push(String::from_str("┌───────────────────────┬────────────┐"));
    lines.push(String::from_str("│        INTERVAL       │  DURATION  │"));
    lines.push(String::from_str("├───────────────────────┼────────────┤"));
    let n = intervals.len();
    let mut k: usize = 0;
    while k < n
        invariant
            n == intervals@.len(),
            k <= n,
            chained(intervals@),
            lines@.len() == k + 4,
            forall|j: int| 0 <= j < 4 ==> #[trigger] lines@[j]@ == summary_head()[j],
            forall|j: int| 0 <= j < k ==> #[trigger] lines@[j + 4]@ == summary_row(intervals@[j]),
        decreases n - k,
    {
        assert(intervals@[k as int].start.secs <= intervals@[k as int].end.secs);
        lines.push(summary_row_text(&intervals[k]));
        k = k + 1;
    }
    lines.push(String::from_str("└───────────────────────┴────────────┘"));
    lines
}

} // verus!
