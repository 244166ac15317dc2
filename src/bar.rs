//! The occupancy bar: the day in 96 quarter-hour slots, a tick before every
//! fourth slot, each slot marked by the first interval that holds it.

use vstd::prelude::*;
use crate::interval::{Interval, IntervalStatus};
use crate::time::TimeOfDay;

verus! {

/// Hour marks above the bar, aligned with its ticks.
pub const BAR_HEADER: &'static str = "mdnt                          6         8         10        noon      2         4         6";

/// Number of quarter-hour slots in a day.
pub const SLOTS: usize = 96;

/// Number of columns of the bar: the slots and a tick before every fourth.
pub const BAR_WIDTH: usize = 120;

/// One column of the bar.
#[derive(Clone, Copy, Debug, PartialEq, Eq, Structural)]
pub enum BarCell {
    /// An hour boundary, `|`.
    Tick,
    /// A slot that no interval holds, `-`.
    Free,
    /// A slot held by a complete interval, `+`.
    Complete,
    /// A slot held by an incomplete interval, `+` in an alerting style.
    Incomplete,
}

/// The instant that stands for slot `i`: the close of its quarter hour.
pub open spec fn slot_instant(i: int) -> int {
    i * 900 + 900
}

/// Status of the first interval from index `j` on that holds `t` strictly inside.
pub open spec fn first_holding(ivs: Seq<Interval>, t: int, j: int) -> Option<IntervalStatus>
    decreases ivs.len() - j,
{
    if j < 0 || j >= ivs.len() {
        None
    } else if ivs[j].start.secs < t && t < ivs[j].end.secs {
        Some(ivs[j].status)
    } else {
        first_holding(ivs, t, j + 1)
    }
}

/// The cell of slot `i`.
pub open spec fn slot_cell(ivs: Seq<Interval>, i: int) -> BarCell {
    match first_holding(ivs, slot_instant(i), 0) {
        None => BarCell::Free,
        Some(IntervalStatus::Complete) => BarCell::Complete,
        Some(_) => BarCell::Incomplete,
    }
}

/// The cell in column `c` of the bar.
pub open spec fn bar_cell_at(ivs: Seq<Interval>, c: int) -> BarCell {
    if c % 5 == 0 {
        BarCell::Tick
    } else {
        slot_cell(ivs, (c / 5) * 4 + c % 5 - 1)
    }
}

impl BarCell {
    pub open spec fn spec_glyph(self) -> Seq<char> {
        match self {
            BarCell::Tick => seq!['|'],
            BarCell::Free => seq!['-'],
            BarCell::Complete => seq!['+'],
            BarCell::Incomplete => seq!['+'],
        }
    }

    /// The character drawn for this cell.
    pub fn glyph(&self) -> (r: &'static str)
        ensures
            r@ == self.spec_glyph(),
    {
        proof {
            reveal_strlit("|");
            reveal_strlit("-");
            reveal_strlit("+");
        }
        match self {
            BarCell::Tick => "|",
            BarCell::Free => "-",
            BarCell::Complete => "+",
            BarCell::Incomplete => "+",
        }
    }
}

/// The cell of the slot that instant `t` stands for: decided by the first
/// interval that holds `t` strictly inside.
fn cell_at_instant(intervals: &[Interval], t: u32) -> (r: BarCell)
    ensures
        r == (match first_holding(intervals@, t as int, 0) {
            None => BarCell::Free,
            Some(IntervalStatus::Complete) => BarCell::Complete,
            Some(_) => BarCell::Incomplete,
        }),
{
    let instant = TimeOfDay { secs: t };
    let n = intervals.len();
    let mut j: usize = 0;
    while j < n
        invariant
            n == intervals@.len(),
            j <= n,
            instant.secs == t,
            first_holding(intervals@, t as int, 0) == first_holding(intervals@, t as int, j as int),
        decreases n - j,
    {
        let interval = &intervals[j];
        if interval.contains(&instant) {
            return match interval.status {
                IntervalStatus::Complete => BarCell::Complete,
                _ => BarCell::Incomplete,
            };
        }
        j = j + 1;
    }
    BarCell::Free
}

/// The bar's columns for the intervals, left to right.
pub fn bar_cells(intervals: &[Interval]) -> (r: Vec<BarCell>)
    ensures
        r@.len() == BAR_WIDTH,
        forall|c: int| 0 <= c < BAR_WIDTH ==> #[trigger] r@[c] == bar_cell_at(intervals@, c),
{
    let mut cells: Vec<BarCell> = Vec::new();
    let mut c: usize = 0;
    while c < BAR_WIDTH
        invariant
            c <= BAR_WIDTH,
            cells@.len() == c,
            forall|j: int| 0 <= j < c ==> #[trigger] cells@[j] == bar_cell_at(intervals@, j),
        decreases BAR_WIDTH - c,
    {
        if c % 5 == 0 {
            cells.push(BarCell::Tick);
        } else {
            let slot = (c / 5) * 4 + c % 5 - 1;
            assert(slot < SLOTS);
            let t = (slot as u32) * 900 + 900;
            cells.push(cell_at_instant(intervals, t));
        }
        c = c + 1;
    }
    cells
}

/// For a single interval, a slot is marked exactly where the interval holds
/// the slot's instant strictly inside, in the style of the interval's status;
/// every other slot is free.
pub proof fn lemma_single_interval_slots(iv: Interval, i: int)
    requires
        0 <= i < SLOTS,
    ensures
        (iv.start.secs < slot_instant(i) < iv.end.secs) ==> slot_cell(seq![iv], i) == (
        if iv.status == IntervalStatus::Complete {
            BarCell::Complete
        } else {
            BarCell::Incomplete
        }),
        !(iv.start.secs < slot_instant(i) < iv.end.secs) ==> slot_cell(seq![iv], i)
            == BarCell::Free,
{
    assert(first_holding(seq![iv], slot_instant(i), 1) == None::<IntervalStatus>);
}

} // verus!
