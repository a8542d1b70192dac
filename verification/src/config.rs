//! Configuration of the engine: the starting times of the day phases and the
//! minimum and maximum intensity of each color channel.
//!
//! Channel intensities are measured in thousandths: `0` is a fully dark
//! channel, `1000` a fully bright one, matching the three-decimal precision
//! used when gamma values are formatted.

use vstd::prelude::*;

use crate::time::Time;

verus! {

/// Error yielded when the three phase starting times satisfy none of the
/// three valid rotations of the day cycle. See [`HourConfig`].
#[derive(Debug, Clone, Copy, PartialEq, Eq, Structural)]
pub struct InvalidDayPhases {
    /// Given starting time of the day phase.
    pub day_start: Time,
    /// Given starting time of the dusk phase.
    pub dusk_start: Time,
    /// Given starting time of the night phase.
    pub night_start: Time,
}

/// Error yielded when a channel's minimum exceeds its maximum. See
/// [`ChannelConfig`].
#[derive(Debug, Clone, Copy, PartialEq, Eq, Structural)]
pub struct InvalidChannelBounds {
    /// Given minimum intensity of the channel, in thousandths.
    pub min: u16,
    /// Given maximum intensity of the channel, in thousandths.
    pub max: u16,
}

/// Whether three phase starting times respect the cycle
/// `day -> dusk -> night -> day`. The three points live on a cycle, not on a
/// line, so there is no single global ordering: exactly the three rotations
/// below are valid, and any other arrangement is rejected.
pub open spec fn cycle_is_valid(day_start: int, dusk_start: int, night_start: int) -> bool {
    ||| day_start <= dusk_start <= night_start
    ||| night_start <= day_start <= dusk_start
    ||| dusk_start <= night_start <= day_start
}

/// Starting times of the day phases. See
/// [`DayPhase`](crate::hour::DayPhase).
#[derive(Debug, Clone, Copy, PartialEq, Eq, Structural, PartialOrd)]
pub struct HourConfig {
    day_start: Time,
    dusk_start: Time,
    night_start: Time,
}

impl HourConfig {
    /// Starting time of the day phase, as a mathematical value.
    pub closed spec fn spec_day_start(self) -> Time {
        self.day_start
    }

    /// Starting time of the dusk phase, as a mathematical value.
    pub closed spec fn spec_dusk_start(self) -> Time {
        self.dusk_start
    }

    /// Starting time of the night phase, as a mathematical value.
    pub closed spec fn spec_night_start(self) -> Time {
        self.night_start
    }

    /// A schedule is well formed when its three times lie inside the day
    /// cycle and respect the cycle `day -> dusk -> night -> day`.
    pub open spec fn wf(self) -> bool {
        &&& self.spec_day_start().wf()
        &&& self.spec_dusk_start().wf()
        &&& self.spec_night_start().wf()
        &&& cycle_is_valid(
            self.spec_day_start()@,
            self.spec_dusk_start()@,
            self.spec_night_start()@,
        )
    }

    /// Creates a schedule from the starting times of the day, dusk and night
    /// phases. Wrapping around midnight, the cycle
    /// `day -> dusk -> night -> day` must be respected: `day <= dusk <=
    /// night`, `dusk <= night <= day` and `night <= day <= dusk` are valid,
    /// and any other arrangement is rejected.
    pub fn new(day_start: Time, dusk_start: Time, night_start: Time) -> (result: Result<
        Self,
        InvalidDayPhases,
    >)
        ensures
            result is Ok <==> cycle_is_valid(day_start@, dusk_start@, night_start@),
            result matches Ok(config) ==> {
                &&& config.spec_day_start() == day_start
                &&& config.spec_dusk_start() == dusk_start
                &&& config.spec_night_start() == night_start
            },
            result is Ok && day_start.wf() && dusk_start.wf() && night_start.wf()
                ==> (result matches Ok(config) && config.wf()),
            result matches Err(error) ==> error == (InvalidDayPhases {
                day_start,
                dusk_start,
                night_start,
            }),
    {
        let day = day_start.total_minutes();
        let dusk = dusk_start.total_minutes();
        let night = night_start.total_minutes();
        if day <= dusk && dusk <= night
            || night <= day && day <= dusk
            || dusk <= night && night <= day
        {
            Ok(Self { day_start, dusk_start, night_start })
        } else {
            Err(InvalidDayPhases { day_start, dusk_start, night_start })
        }
    }

    /// Starting time of the day phase.
    #[verifier::when_used_as_spec(spec_day_start)]
    pub fn day_start(self) -> (start: Time)
        ensures
            start == self.spec_day_start(),
    {
        self.day_start
    }

    /// Starting time of the dusk phase.
    #[verifier::when_used_as_spec(spec_dusk_start)]
    pub fn dusk_start(self) -> (start: Time)
        ensures
            start == self.spec_dusk_start(),
    {
        self.dusk_start
    }

    /// Starting time of the night phase.
    #[verifier::when_used_as_spec(spec_night_start)]
    pub fn night_start(self) -> (start: Time)
        ensures
            start == self.spec_night_start(),
    {
        self.night_start
    }
}

impl Default for HourConfig {
    /// The stock schedule: day starts at 05:00, dusk at 17:00 and night at
    /// 21:00.
    fn default() -> (config: Self)
        ensures
            config.wf(),
            config.spec_day_start()@ == 300,
            config.spec_dusk_start()@ == 1020,
            config.spec_night_start()@ == 1260,
    {
        Self {
            day_start: Time::from_hour_minute(5, 0),
            dusk_start: Time::from_hour_minute(17, 0),
            night_start: Time::from_hour_minute(21, 0),
        }
    }
}

/// Bounds of a color channel: the darkest and brightest intensity the
/// channel may take across the day cycle, in thousandths.
#[derive(Debug, Clone, Copy, PartialEq, Eq, Structural, PartialOrd)]
pub struct ChannelConfig {
    min: u16,
    max: u16,
}

impl ChannelConfig {
    /// Minimum intensity of the channel, as a mathematical value.
    pub closed spec fn spec_min(self) -> u16 {
        self.min
    }

    /// Maximum intensity of the channel, as a mathematical value.
    pub closed spec fn spec_max(self) -> u16 {
        self.max
    }

    /// Channel bounds are well formed when the minimum does not exceed the
    /// maximum.
    pub open spec fn wf(self) -> bool {
        self.spec_min() <= self.spec_max()
    }

    /// Creates the bounds of a color channel from its minimum and maximum
    /// intensity, in thousandths. The restriction `min <= max` must be
    /// respected, and any pair violating it is rejected.
    pub fn new(min: u16, max: u16) -> (result: Result<ChannelConfig, InvalidChannelBounds>)
        ensures
            result is Ok <==> min <= max,
            result matches Ok(config) ==> {
                &&& config.spec_min() == min
                &&& config.spec_max() == max
                &&& config.wf()
            },
            result matches Err(error) ==> error == (InvalidChannelBounds { min, max }),
    {
        if min <= max {
            Ok(Self { min, max })
        } else {
            Err(InvalidChannelBounds { min, max })
        }
    }

    /// Minimum intensity of the channel, in thousandths.
    #[verifier::when_used_as_spec(spec_min)]
    pub fn min(self) -> (min: u16)
        ensures
            min == self.spec_min(),
    {
        self.min
    }

    /// Maximum intensity of the channel, in thousandths.
    #[verifier::when_used_as_spec(spec_max)]
    pub fn max(self) -> (max: u16)
        ensures
            max == self.spec_max(),
    {
        self.max
    }
}

impl Default for ChannelConfig {
    /// The stock channel bounds: the full intensity range.
    fn default() -> (config: Self)
        ensures
            config.wf(),
            config.spec_min() == 0,
            config.spec_max() == 1000,
    {
        Self { min: 0, max: 1000 }
    }
}

/// General configuration of the engine: the phase schedule and the bounds of
/// the three color channels.
#[derive(Debug, Clone, Copy, PartialEq, PartialOrd)]
pub struct Config {
    /// Configuration of the day phases.
    pub hours: HourConfig,
    /// Configuration of the color channels, in the order: red, green, blue.
    pub channels: [ChannelConfig; 3],
}

impl Config {
    /// A configuration is well formed when its schedule and each of its
    /// three channel bounds are.
    pub open spec fn wf(self) -> bool {
        &&& self.hours.wf()
        &&& self.channels[0].wf()
        &&& self.channels[1].wf()
        &&& self.channels[2].wf()
    }
}

impl Default for Config {
    /// The stock configuration: the stock schedule, a red channel pinned at
    /// full intensity, and green and blue channels that fall at night to
    /// `0.650` and `0.450` of their brightness.
    fn default() -> (config: Self)
        ensures
            config.wf(),
            config.hours.spec_day_start()@ == 300,
            config.hours.spec_dusk_start()@ == 1020,
            config.hours.spec_night_start()@ == 1260,
            config.channels[0].spec_min() == 1000 && config.channels[0].spec_max() == 1000,
            config.channels[1].spec_min() == 650 && config.channels[1].spec_max() == 1000,
            config.channels[2].spec_min() == 450 && config.channels[2].spec_max() == 1000,
    {
        Self {
            hours: HourConfig::default(),
            channels: [
                ChannelConfig { min: 1000, max: 1000 },
                ChannelConfig { min: 650, max: 1000 },
                ChannelConfig { min: 450, max: 1000 },
            ],
        }
    }
}

} // verus!
