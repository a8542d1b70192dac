use circadianlight::channel::{channel_value, linear_channel_function, map_channel_vector};
use circadianlight::config::{ChannelConfig, HourConfig};
use circadianlight::hour::{DayPhase, DuskScale};
use circadianlight::time::Time;

const EPSILON: f64 = 0.01;

/// An intensity in thousandths as the fraction of full brightness it names.
fn as_fraction(value: u16) -> f64 {
    f64::from(value) / 1000.0
}

#[test]
fn linear_channel_function_on_day() {
    let channel = linear_channel_function(
        ChannelConfig::new(400, 900).unwrap(),
        HourConfig::default(),
        Time::from_hour_minute(12, 0),
    );
    assert!((as_fraction(channel) - 0.9).abs() < EPSILON);

    let channel = linear_channel_function(
        ChannelConfig::new(1000, 1000).unwrap(),
        HourConfig::default(),
        Time::from_hour_minute(9, 0),
    );
    assert!((as_fraction(channel) - 1.0).abs() < EPSILON);

    let channel = linear_channel_function(
        ChannelConfig::new(800, 1000).unwrap(),
        HourConfig::default(),
        Time::from_hour_minute(9, 0),
    );
    assert!((as_fraction(channel) - 1.0).abs() < EPSILON);
}

#[test]
fn linear_channel_function_on_dusk() {
    let channel = linear_channel_function(
        ChannelConfig::new(400, 900).unwrap(),
        HourConfig::default(),
        Time::from_hour_minute(19, 0),
    );
    assert!(as_fraction(channel) > 0.4 + EPSILON && as_fraction(channel) < 0.9 - EPSILON);

    let channel = linear_channel_function(
        ChannelConfig::new(1000, 1000).unwrap(),
        HourConfig::default(),
        Time::from_hour_minute(19, 0),
    );
    assert!((as_fraction(channel) - 1.0).abs() < EPSILON);

    let channel = linear_channel_function(
        ChannelConfig::new(800, 1000).unwrap(),
        HourConfig::default(),
        Time::from_hour_minute(19, 0),
    );
    assert!(as_fraction(channel) > 0.8 + EPSILON && as_fraction(channel) < 1.0 - EPSILON);
}

#[test]
fn linear_channel_function_on_night() {
    let channel = linear_channel_function(
        ChannelConfig::new(400, 900).unwrap(),
        HourConfig::default(),
        Time::from_hour_minute(23, 0),
    );
    assert!((as_fraction(channel) - 0.4).abs() < EPSILON);

    let channel = linear_channel_function(
        ChannelConfig::new(400, 900).unwrap(),
        HourConfig::default(),
        Time::from_hour_minute(1, 0),
    );
    assert!((as_fraction(channel) - 0.4).abs() < EPSILON);

    let channel = linear_channel_function(
        ChannelConfig::new(1000, 1000).unwrap(),
        HourConfig::default(),
        Time::from_hour_minute(1, 0),
    );
    assert!((as_fraction(channel) - 1.0).abs() < EPSILON);

    let channel = linear_channel_function(
        ChannelConfig::new(800, 1000).unwrap(),
        HourConfig::default(),
        Time::from_hour_minute(1, 0),
    );
    assert!((as_fraction(channel) - 0.8).abs() < EPSILON);
}

#[test]
fn channel_value_hits_the_bounds_on_day_and_night() {
    let bounds = ChannelConfig::new(450, 1000).unwrap();
    assert_eq!(channel_value(bounds, DayPhase::Day), 1000);
    assert_eq!(channel_value(bounds, DayPhase::Night), 450);
}

#[test]
fn channel_value_interpolates_dusk_exactly() {
    let bounds = ChannelConfig::new(400, 900).unwrap();
    // Halfway through the window the ramp has lost half its height.
    let halfway = DuskScale { elapsed: 120, span: 240 };
    assert_eq!(channel_value(bounds, DayPhase::Dusk(halfway)), 650);
    // At the start of the window the channel still sits at its maximum.
    let start = DuskScale { elapsed: 0, span: 240 };
    assert_eq!(channel_value(bounds, DayPhase::Dusk(start)), 900);
    // At the last minute the channel has descended to one step above the
    // minimum: 400 + 500 / 240 rounded down.
    let last = DuskScale { elapsed: 239, span: 240 };
    assert_eq!(channel_value(bounds, DayPhase::Dusk(last)), 402);
}

#[test]
fn dusk_start_value_matches_the_day_value() {
    let bounds = ChannelConfig::new(650, 1000).unwrap();
    let at_dusk_start = linear_channel_function(
        bounds,
        HourConfig::default(),
        Time::from_hour_minute(17, 0),
    );
    let in_full_day = linear_channel_function(
        bounds,
        HourConfig::default(),
        Time::from_hour_minute(12, 0),
    );
    assert_eq!(at_dusk_start, in_full_day);
    assert_eq!(at_dusk_start, 1000);
}

#[test]
fn map_channel_vector_applies_to_each_channel() {
    let doubled = map_channel_vector([100u16, 200, 300], |value| value * 2);
    assert_eq!(doubled, [200, 400, 600]);
}
