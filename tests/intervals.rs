use timest::interval::{get_intervals, Interval, IntervalStatus};
use timest::punch::{Record, IO};
use timest::time::TimeOfDay;

fn at(hour: u32, minute: u32) -> TimeOfDay {
    TimeOfDay::from_hms(hour, minute, 0).unwrap()
}

fn punch(hour: u32, minute: u32, io: IO) -> Record {
    Record(at(hour, minute), io)
}

fn interval(start: TimeOfDay, end: TimeOfDay, status: IntervalStatus) -> Interval {
    Interval { start, end, status }
}

#[test]
fn window_of_two_absent_punches_yields_nothing() {
    assert_eq!(Interval::from_records(&None, &None), None);
}

#[test]
fn window_opening_with_clock_in_yields_nothing() {
    assert_eq!(Interval::from_records(&None, &Some(punch(8, 0, IO::I))), None);
}

#[test]
fn window_opening_with_clock_out_misses_start() {
    assert_eq!(
        Interval::from_records(&None, &Some(punch(9, 30, IO::O))),
        Some(interval(TimeOfDay::midnight(), at(9, 30), IntervalStatus::MissingStart))
    );
}

#[test]
fn window_closing_after_clock_in_misses_end() {
    assert_eq!(
        Interval::from_records(&Some(punch(13, 0, IO::I)), &None),
        Some(interval(at(13, 0), TimeOfDay::from_hms(23, 59, 59).unwrap(), IntervalStatus::MissingEnd))
    );
}

#[test]
fn window_closing_after_clock_out_yields_nothing() {
    assert_eq!(Interval::from_records(&Some(punch(17, 0, IO::O)), &None), None);
}

#[test]
fn two_clock_ins_miss_end() {
    assert_eq!(
        Interval::from_records(&Some(punch(8, 0, IO::I)), &Some(punch(9, 0, IO::I))),
        Some(interval(at(8, 0), at(9, 0), IntervalStatus::MissingEnd))
    );
}

#[test]
fn clock_in_then_out_is_complete() {
    assert_eq!(
        Interval::from_records(&Some(punch(8, 0, IO::I)), &Some(punch(17, 0, IO::O))),
        Some(interval(at(8, 0), at(17, 0), IntervalStatus::Complete))
    );
}

#[test]
fn clock_out_then_in_is_a_gap() {
    assert_eq!(
        Interval::from_records(&Some(punch(12, 0, IO::O)), &Some(punch(13, 0, IO::I))),
        None
    );
}

#[test]
fn two_clock_outs_miss_start() {
    assert_eq!(
        Interval::from_records(&Some(punch(12, 0, IO::O)), &Some(punch(13, 0, IO::O))),
        Some(interval(at(12, 0), at(13, 0), IntervalStatus::MissingStart))
    );
}

#[test]
fn empty_day_has_no_intervals() {
    assert!(get_intervals(&vec![]).is_empty());
}

#[test]
fn mixed_day_is_reconstructed_in_order() {
    let records = vec![
        punch(7, 0, IO::O),
        punch(8, 0, IO::I),
        punch(9, 0, IO::I),
        punch(10, 0, IO::O),
        punch(12, 0, IO::O),
        punch(13, 0, IO::I),
    ];
    let intervals = get_intervals(&records);
    assert_eq!(
        intervals,
        vec![
            interval(TimeOfDay::midnight(), at(7, 0), IntervalStatus::MissingStart),
            interval(at(8, 0), at(9, 0), IntervalStatus::MissingEnd),
            interval(at(9, 0), at(10, 0), IntervalStatus::Complete),
            interval(at(10, 0), at(12, 0), IntervalStatus::MissingStart),
            interval(at(13, 0), TimeOfDay::last_second(), IntervalStatus::MissingEnd),
        ]
    );
    assert!(intervals.len() <= records.len() + 1);
    for pair in intervals.windows(2) {
        assert!(pair[0].start.secs <= pair[0].end.secs);
        assert!(pair[0].end.secs <= pair[1].start.secs);
    }
}

#[test]
fn lone_clock_out_and_clock_in_give_most_intervals() {
    let records = vec![punch(7, 0, IO::O), punch(8, 0, IO::O), punch(9, 0, IO::I)];
    assert_eq!(get_intervals(&records).len(), records.len());
    let records = vec![punch(7, 0, IO::O), punch(9, 0, IO::I)];
    assert_eq!(get_intervals(&records).len(), records.len());
}

#[test]
fn reconstruction_twice_gives_the_same_intervals() {
    let records = vec![punch(8, 0, IO::I), punch(12, 0, IO::O), punch(13, 0, IO::I)];
    assert_eq!(get_intervals(&records), get_intervals(&records));
}

#[test]
fn containment_is_strict() {
    let iv = interval(at(8, 0), at(17, 0), IntervalStatus::Complete);
    assert!(!iv.contains(&at(8, 0)));
    assert!(iv.contains(&TimeOfDay::from_hms(8, 0, 1).unwrap()));
    assert!(iv.contains(&TimeOfDay::from_hms(16, 59, 59).unwrap()));
    assert!(!iv.contains(&at(17, 0)));
}

#[test]
fn duration_is_end_minus_start() {
    assert_eq!(interval(at(8, 0), at(17, 0), IntervalStatus::Complete).duration(), 32400);
    assert_eq!(interval(at(17, 0), at(8, 0), IntervalStatus::Complete).duration(), -32400);
}
