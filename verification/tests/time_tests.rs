use circadianlight::time::{InvalidHourMinute, Time, TimeOutOfRange};

#[test]
fn cycling_wraps_past_a_full_day() {
    assert_eq!(Time::new_cycling(1500), Time::from_total_minutes(60));
    assert_eq!(Time::new_cycling(1440), Time::from_total_minutes(0));
    assert_eq!(Time::new_cycling(1439), Time::from_total_minutes(1439));
}

#[test]
fn wide_cycling_wraps_past_many_days() {
    assert_eq!(Time::new_cycling_wide(100_000), Time::from_total_minutes(640));
    assert_eq!(Time::new_cycling_wide(2880), Time::from_total_minutes(0));
}

#[test]
fn hour_minute_pairs_round_trip() {
    let time = Time::from_hour_minute(23, 59);
    assert_eq!(time.total_minutes(), 1439);
    assert_eq!(time.hour(), 23);
    assert_eq!(time.minute(), 59);
    let midnight = Time::from_hour_minute(0, 0);
    assert_eq!(midnight.total_minutes(), 0);
}

#[test]
fn total_minutes_of_a_day_or_more_are_rejected() {
    assert_eq!(
        Time::try_from_total_minutes(1440).unwrap_err(),
        TimeOutOfRange { input_total_minutes: 1440 },
    );
    assert!(Time::try_from_total_minutes(1439).is_ok());
}

#[test]
fn out_of_range_hour_minute_pairs_are_rejected() {
    assert_eq!(
        Time::try_from_hour_minute(24, 0).unwrap_err(),
        InvalidHourMinute { hours: 24, minutes: 0 },
    );
    assert_eq!(
        Time::try_from_hour_minute(11, 60).unwrap_err(),
        InvalidHourMinute { hours: 11, minutes: 60 },
    );
    assert!(Time::try_from_hour_minute(23, 59).is_ok());
}
