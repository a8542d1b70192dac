//! Clock times on the 24-hour cycle, stored as whole minutes since midnight.
//! A [`Time`] is the engine's resolution of a moment of the day: the cycle
//! has `24 * 60 = 1440` minutes, and every valid time lies in `[0, 1440)`.

use vstd::prelude::*;

verus! {

/// Hours in a full day cycle.
pub const HOUR_COUNT: u16 = 24;
/// Minutes in an hour.
pub const MINUTE_COUNT: u16 = 60;
/// Minutes in a full day cycle.
pub const TOTAL_MINUTE_COUNT: u16 = HOUR_COUNT * MINUTE_COUNT;

/// Error yielded when a total minute count does not fit in a single day
/// cycle.
#[derive(Debug, Clone, Copy, PartialEq, Eq, Structural, PartialOrd, Ord, Hash, Default)]
pub struct TimeOutOfRange {
    /// The rejected minute count; a day holds only `[0, 1440)` minutes.
    pub input_total_minutes: u16,
}

/// Error yielded when an hour/minute pair does not name a time of the day.
#[derive(Debug, Clone, Copy, PartialEq, Eq, Structural, PartialOrd, Ord, Hash, Default)]
pub struct InvalidHourMinute {
    /// The rejected hour; valid hours lie in `[0, 24)`.
    pub hours: u16,
    /// The rejected minute; valid minutes lie in `[0, 60)`.
    pub minutes: u16,
}

/// A time of the day, counted in whole minutes since midnight.
#[derive(Debug, Clone, Copy, PartialEq, Eq, Structural, PartialOrd, Ord, Hash, Default)]
pub struct Time {
    minutes: u16,
}

impl View for Time {
    type V = int;

    /// A time is modelled as its count of minutes since midnight.
    closed spec fn view(&self) -> int {
        self.minutes as int
    }
}

impl Time {
    /// A time is well formed when it lies inside a single day cycle.
    pub open spec fn wf(self) -> bool {
        0 <= self@ < TOTAL_MINUTE_COUNT
    }

    /// Builds a time from a minute count, wrapping around the day cycle.
    pub fn new_cycling(total_minutes: u16) -> (time: Self)
        ensures
            time@ == total_minutes as int % (TOTAL_MINUTE_COUNT as int),
            time.wf(),
    {
        Self { minutes: total_minutes % TOTAL_MINUTE_COUNT }
    }

    /// Builds a time from a wide minute count, wrapping around the day cycle.
    pub fn new_cycling_wide(total_minutes: u32) -> (time: Self)
        ensures
            time@ == total_minutes as int % (TOTAL_MINUTE_COUNT as int),
            time.wf(),
    {
        Self { minutes: (total_minutes % u32::from(TOTAL_MINUTE_COUNT)) as u16 }
    }

    /// Builds a time from a minute count that is known to lie inside a single
    /// day cycle.
    pub fn from_total_minutes(total_minutes: u16) -> (time: Self)
        requires
            total_minutes < TOTAL_MINUTE_COUNT,
        ensures
            time@ == total_minutes as int,
            time.wf(),
    {
        Self::try_from_total_minutes(total_minutes)
            .expect("total minutes out of range")
    }

    /// Builds a time from a minute count, rejecting counts of a day or more.
    pub fn try_from_total_minutes(total_minutes: u16) -> (result: Result<
        Self,
        TimeOutOfRange,
    >)
        ensures
            result is Ok <==> total_minutes < TOTAL_MINUTE_COUNT,
            result matches Ok(time) ==> time@ == total_minutes as int && time.wf(),
            result matches Err(error) ==> error.input_total_minutes == total_minutes,
    {
        if total_minutes < TOTAL_MINUTE_COUNT {
            Ok(Self { minutes: total_minutes })
        } else {
            Err(TimeOutOfRange { input_total_minutes: total_minutes })
        }
    }

    /// Builds a time from an hour/minute pair that is known to be valid.
    pub fn from_hour_minute(hour: u16, minute: u16) -> (time: Self)
        requires
            hour < HOUR_COUNT,
            minute < MINUTE_COUNT,
        ensures
            time@ == hour * MINUTE_COUNT + minute,
            time.wf(),
    {
        Self::try_from_hour_minute(hour, minute)
            .expect("either hour or minute out of range")
    }

    /// Builds a time from an hour/minute pair, rejecting hours of 24 or more
    /// and minutes of 60 or more.
    pub fn try_from_hour_minute(hour: u16, minute: u16) -> (result: Result<
        Self,
        InvalidHourMinute,
    >)
        ensures
            result is Ok <==> hour < HOUR_COUNT && minute < MINUTE_COUNT,
            result matches Ok(time) ==> time@ == hour * MINUTE_COUNT + minute && time.wf(),
            result matches Err(error) ==> error.hours == hour && error.minutes == minute,
    {
        if hour < HOUR_COUNT && minute < MINUTE_COUNT {
            Ok(Self::from_total_minutes(hour * MINUTE_COUNT + minute))
        } else {
            Err(InvalidHourMinute { hours: hour, minutes: minute })
        }
    }

    /// The count of minutes since midnight.
    pub fn total_minutes(self) -> (total: u16)
        ensures
            total as int == self@,
    {
        self.minutes
    }

    /// The minute within the hour.
    pub fn minute(self) -> (minute: u16)
        ensures
            minute as int == self@ % (MINUTE_COUNT as int),
    {
        self.minutes % MINUTE_COUNT
    }

    /// The hour within the day.
    pub fn hour(self) -> (hour: u16)
        ensures
            hour as int == self@ / (MINUTE_COUNT as int),
    {
        self.minutes / MINUTE_COUNT
    }
}

} // verus!
