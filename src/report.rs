//! Report styles and the simple report, which lists the day's punches.

use vstd::prelude::*;
use vstd::string::*;
use crate::punch::Record;
use crate::time::{decimal, hms, push_decimal, push_hms};

verus! {

/// Which report to show.
#[derive(Clone, Copy, Debug, PartialEq, Eq, Structural)]
pub enum ReportStyle {
    /// The raw punches of the day, in order.
    Simple,
    /// Total time worked, a summary table and an occupancy bar.
    Fancy,
}

/// The simple report's row for the punch at 1-based position `seq`.
pub open spec fn simple_row(seq: nat, rec: Record) -> Seq<char> {
    "|  "@ + decimal(seq) + "  |  "@ + hms(rec.0.secs as nat) + "  |  "@ + rec.1.spec_code()
        + "  |"@
}

/// Renders the row of one punch at 1-based position `seq`.
pub fn simple_row_text(seq: usize, record: &Record) -> (r: String)
    ensures
        r@ == simple_row(seq as nat, *record),
{
    let mut s = String::from_str("|  ");
    push_decimal(&mut s, seq as u64);
    s.append("  |  ");
    push_hms(&mut s, record.0.secs as u64);
    s.append("  |  ");
    s.append(record.1.code());
    s.append("  |");
    s
}

/// The simple report: one row per punch, in the given order, numbered from 1
/// by position in the day.
pub fn simple_report(records: &Vec<Record>) -> (r: Vec<String>)
    ensures
        r@.len() == records@.len(),
        forall|k: int|
            0 <= k < records@.len() ==> #[trigger] r@[k]@ == simple_row((k + 1) as nat, records@[k]),
{
    let mut rows: Vec<String> = Vec::new();
    let n = records.len();
    let mut k: usize = 0;
    while k < n
        invariant
            n == records@.len(),
            k <= n,
            rows@.len() == k,
            forall|j: int|
                0 <= j < k ==> #[trigger] rows@[j]@ == simple_row((j + 1) as nat, records@[j]),
        decreases n - k,
    {
        rows.push(simple_row_text(k + 1, &records[k]));
        k = k + 1;
    }
    rows
}

} // verus!
