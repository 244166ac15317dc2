use timest::check_time::{check_time, confirms, diff, is_yes_answer, TimeCheckError, NTP_UNIX_OFFSET};
use timest::punch::{Record, RecordError, IO};
use timest::time::TimeOfDay;

#[test]
fn stored_row_is_read() {
    let rec = Record::from_statement("2023-05-31 17:30:05", "o").unwrap();
    assert_eq!(rec, Record(TimeOfDay::from_hms(17, 30, 5).unwrap(), IO::O));
    assert_eq!(rec.0.secs, 63005);
}

#[test]
fn malformed_timestamp_is_reported() {
    assert_eq!(Record::from_statement("2023-05-31 25:00:00", "i"), Err(RecordError::MalformedTimestamp));
    assert_eq!(Record::from_statement("yesterday", "x"), Err(RecordError::MalformedTimestamp));
}

#[test]
fn malformed_direction_is_reported() {
    assert_eq!(Record::from_statement("2023-05-31 08:00:00", "in"), Err(RecordError::MalformedDirection));
    assert_eq!(Record::from_parsed(Some(0), "I"), Err(RecordError::MalformedDirection));
}

#[test]
fn parsed_parts_make_a_record() {
    assert_eq!(Record::from_parsed(Some(28800), "i"), Ok(Record(TimeOfDay::from_hms(8, 0, 0).unwrap(), IO::I)));
    assert_eq!(Record::from_parsed(None, "i"), Err(RecordError::MalformedTimestamp));
}

#[test]
fn direction_codes_round_trip() {
    assert_eq!(IO::from_code(IO::I.code()), Ok(IO::I));
    assert_eq!(IO::from_code(IO::O.code()), Ok(IO::O));
    assert_eq!(IO::from_code(""), Err(RecordError::MalformedDirection));
}

#[test]
fn time_fields_are_range_checked() {
    assert_eq!(TimeOfDay::from_hms(23, 59, 59).unwrap().secs, 86399);
    assert_eq!(TimeOfDay::from_hms(24, 0, 0), None);
    assert_eq!(TimeOfDay::from_hms(8, 60, 0), None);
    assert_eq!(TimeOfDay::from_seconds(86400), None);
    assert_eq!(TimeOfDay::from_seconds(3723).unwrap().to_hms_string(), "01:02:03");
}

#[test]
fn clock_within_tolerance_passes() {
    let now = 1_700_000_000u64;
    assert_eq!(check_time(now, Some(now + NTP_UNIX_OFFSET + 900)), Ok(()));
    assert_eq!(check_time(now, Some(now + NTP_UNIX_OFFSET - 900)), Ok(()));
}

#[test]
fn skewed_clock_fails() {
    let now = 1_700_000_000u64;
    assert_eq!(check_time(now, Some(now + NTP_UNIX_OFFSET + 901)), Err(TimeCheckError::ClockSkewed));
    assert_eq!(
        TimeCheckError::ClockSkewed.message(),
        "system clock is more than 15 minute out of date"
    );
}

#[test]
fn silent_server_fails() {
    assert_eq!(check_time(0, None), Err(TimeCheckError::ServerUnreachable));
}

#[test]
fn difference_is_absolute() {
    assert_eq!(diff(3, 10), 7);
    assert_eq!(diff(10, 3), 7);
    assert_eq!(diff(5, 5), 0);
}

#[test]
fn answers_are_read_after_trimming() {
    assert!(confirms("  yes\n"));
    assert!(confirms("Y\r\n"));
    assert!(!confirms("no\n"));
    assert!(!confirms("yess"));
    assert!(is_yes_answer("YES"));
    assert!(!is_yes_answer(" y"));
}

#[test]
fn answers_surrounded_by_unicode_space_confirm() {
    assert!(confirms("\u{3000}yes\u{a0}"));
    assert!(!confirms("y e s"));
}
