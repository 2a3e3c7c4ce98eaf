use tracing_etw::time::{CivilTime, Timestamp, Win32SystemTime};

#[test]
fn system_time_of_a_known_moment() {
    let time = Win32SystemTime::from(&Timestamp { secs: 1_000_000_000, nanos: 123_456_789 });
    assert_eq!(time.unwrap().st, [2001, 9, 0, 9, 1, 46, 40, 123]);
}

#[test]
fn system_time_of_the_epoch() {
    let time = Win32SystemTime::from(&Timestamp { secs: 0, nanos: 0 });
    assert_eq!(time.unwrap().st, [1970, 1, 0, 1, 0, 0, 0, 0]);
}

#[test]
fn system_time_before_the_epoch() {
    let time = Win32SystemTime::from(&Timestamp { secs: -1, nanos: 999_000_000 });
    assert_eq!(time.unwrap().st, [1969, 12, 0, 31, 23, 59, 59, 999]);
}

#[test]
fn moment_out_of_the_calendar_has_no_system_time() {
    assert!(Win32SystemTime::from(&Timestamp { secs: i64::MAX, nanos: 0 }).is_none());
    assert!(Timestamp { secs: i64::MAX, nanos: 0 }.civil().is_none());
    assert!(Timestamp { secs: i64::MAX, nanos: 0 }.to_rfc3339().is_none());
}

#[test]
fn civil_time_of_a_known_moment() {
    let civil = Timestamp { secs: 1_000_000_000, nanos: 5 }.civil();
    assert_eq!(
        civil,
        Some(CivilTime {
            year: 2001,
            month: 9,
            day: 9,
            hour: 1,
            minute: 46,
            second: 40,
            nanosecond: 5
        })
    );
}

#[test]
fn system_time_keeps_the_placeholder_and_cuts_to_16_bits() {
    let civil = CivilTime {
        year: -1,
        month: 65_536 + 2,
        day: 3,
        hour: 4,
        minute: 5,
        second: 6,
        nanosecond: 1_999_999_999,
    };
    assert_eq!(Win32SystemTime::from_civil(&civil).st, [65_535, 2, 0, 3, 4, 5, 6, 1999]);
    let civil = CivilTime {
        year: 70_000,
        month: 1,
        day: 1,
        hour: 0,
        minute: 0,
        second: 0,
        nanosecond: 0,
    };
    assert_eq!(Win32SystemTime::from_civil(&civil).st, [4464, 1, 0, 1, 0, 0, 0, 0]);
}

#[test]
fn rfc3339_text_of_a_known_moment() {
    let text = Timestamp { secs: 1_000_000_000, nanos: 0 }.to_rfc3339();
    assert_eq!(text.as_deref(), Some("2001-09-09T01:46:40+00:00"));
    let text = Timestamp { secs: 1_000_000_000, nanos: 500_000_000 }.to_rfc3339();
    assert_eq!(text.as_deref(), Some("2001-09-09T01:46:40.500+00:00"));
}

#[test]
fn unix_seconds_of_a_moment() {
    assert_eq!(Timestamp { secs: 12, nanos: 999_999_999 }.unix_seconds(), Some(12));
    assert_eq!(Timestamp { secs: 0, nanos: 0 }.unix_seconds(), Some(0));
    assert_eq!(Timestamp { secs: -1, nanos: 0 }.unix_seconds(), None);
}

#[test]
fn durations_from_the_epoch_become_points_in_time() {
    assert_eq!(Timestamp::since_epoch(0, 0), Some(Timestamp { secs: 0, nanos: 0 }));
    assert_eq!(Timestamp::since_epoch(12, 34), Some(Timestamp { secs: 12, nanos: 34 }));
    assert_eq!(
        Timestamp::since_epoch(i64::MAX as u64, 999_999_999),
        Some(Timestamp { secs: i64::MAX, nanos: 999_999_999 })
    );
    assert_eq!(Timestamp::since_epoch(i64::MAX as u64 + 1, 0), None);

    assert_eq!(Timestamp::until_epoch(0, 0), Some(Timestamp { secs: 0, nanos: 0 }));
    assert_eq!(Timestamp::until_epoch(5, 0), Some(Timestamp { secs: -5, nanos: 0 }));
    assert_eq!(Timestamp::until_epoch(0, 1), Some(Timestamp { secs: -1, nanos: 999_999_999 }));
    assert_eq!(
        Timestamp::until_epoch(5, 250_000_000),
        Some(Timestamp { secs: -6, nanos: 750_000_000 })
    );
    assert_eq!(Timestamp::until_epoch(i64::MAX as u64, 0), None);
    assert_eq!(
        Timestamp::until_epoch(i64::MAX as u64 - 1, 1),
        Some(Timestamp { secs: i64::MIN + 1, nanos: 999_999_999 })
    );
}

#[test]
fn system_time_of_a_leap_second_stays_in_range() {
    let time = Win32SystemTime::from(&Timestamp { secs: 1_000_000_019, nanos: 1_999_999_999 });
    assert_eq!(time.unwrap().st, [2001, 9, 0, 9, 1, 46, 59, 1999]);
    let time = Win32SystemTime::from(&Timestamp { secs: 1_000_000_000, nanos: 1_999_999_999 });
    assert!(time.is_none());
}
