//! Classification of a time of the day into a day phase.
//!
//! The three phase starting times live on the 24-hour cycle, so each phase
//! occupies a half-open cyclic interval: day fills `[day_start, dusk_start)`,
//! dusk fills `[dusk_start, night_start)` and night fills the rest, each
//! interval possibly wrapping around midnight. Only the dusk phase carries a
//! transition: the return from night to day is instantaneous at `day_start`.

use vstd::prelude::*;

use crate::config::HourConfig;
use crate::time::{Time, TOTAL_MINUTE_COUNT};

verus! {

/// Whether `time` lies in the half-open interval of the day cycle that runs
/// from `start` forward to `end`, wrapping around midnight when `end` lies
/// before `start`. When `start == end` the interval is empty.
pub open spec fn in_cyclic_interval(time: int, start: int, end: int) -> bool {
    if start <= end {
        start <= time && time < end
    } else {
        time >= start || time < end
    }
}

/// The count of minutes travelled forward around the day cycle from `from`
/// to `to`.
pub open spec fn cyclic_offset(from: int, to: int) -> int {
    if to >= from {
        to - from
    } else {
        TOTAL_MINUTE_COUNT + to - from
    }
}

/// How far the dusk transition has advanced: `elapsed` minutes have passed
/// of a window `span` minutes wide, so the transition's progress is the
/// fraction `elapsed / span`, in `[0, 1)`.
#[derive(Debug, Clone, Copy, PartialEq, Eq, Structural, PartialOrd)]
pub struct DuskScale {
    /// Minutes passed since the dusk phase began.
    pub elapsed: u16,
    /// Width of the whole dusk window in minutes.
    pub span: u16,
}

impl DuskScale {
    /// A scale is well formed when strictly less of the window has passed
    /// than the window holds, so the fraction lies in `[0, 1)`.
    pub open spec fn wf(self) -> bool {
        self.elapsed < self.span
    }
}

/// A day phase.
#[derive(Debug, Clone, Copy, PartialEq, Eq, Structural, PartialOrd)]
pub enum DayPhase {
    /// Any part of the bright sun day phase.
    Day,
    /// A part of the transition from day to night, with an indication of how
    /// far the transition has advanced: a scale of `0` just after day,
    /// approaching `1` towards the start of night.
    Dusk(DuskScale),
    /// Any part of the night phase.
    Night,
}

/// The phase that a schedule assigns to a minute of the day: day inside the
/// cyclic interval `[day_start, dusk_start)`, dusk inside
/// `[dusk_start, night_start)` with its progress measured from `dusk_start`,
/// and night everywhere else.
pub open spec fn spec_day_phase(hour_config: HourConfig, current: int) -> DayPhase {
    let day = hour_config.spec_day_start()@;
    let dusk = hour_config.spec_dusk_start()@;
    let night = hour_config.spec_night_start()@;
    if in_cyclic_interval(current, day, dusk) {
        DayPhase::Day
    } else if in_cyclic_interval(current, dusk, night) {
        DayPhase::Dusk(
            DuskScale {
                elapsed: cyclic_offset(dusk, current) as u16,
                span: cyclic_offset(dusk, night) as u16,
            },
        )
    } else {
        DayPhase::Night
    }
}

impl DayPhase {
    /// Computes the day phase of the given time under the given schedule.
    ///
    /// The schedule satisfies exactly one of the three valid rotations of
    /// the cycle `day -> dusk -> night -> day`, and the classification
    /// branches on which one holds, so that each phase's interval is read
    /// correctly where it wraps around midnight. A dusk window of width zero
    /// is never observed: its interval is empty, so the time falls to day or
    /// night and no transition fraction is ever built over a zero width.
    pub fn from_current_hour(hour_config: HourConfig, current_hour: Time) -> (phase: DayPhase)
        requires
            hour_config.wf(),
            current_hour.wf(),
        ensures
            phase == spec_day_phase(hour_config, current_hour@),
            phase matches DayPhase::Dusk(scale) ==> scale.wf(),
    {
        let day = hour_config.day_start().total_minutes();
        let dusk = hour_config.dusk_start().total_minutes();
        let night = hour_config.night_start().total_minutes();
        let current = current_hour.total_minutes();
        if day <= dusk && dusk <= night {
            if current >= day && current < dusk {
                Self::Day
            } else if current >= dusk && current < night {
                Self::Dusk(DuskScale { elapsed: current - dusk, span: night - dusk })
            } else {
                Self::Night
            }
        } else if night <= day && day <= dusk {
            if current >= day && current < dusk {
                Self::Day
            } else if current >= dusk {
                Self::Dusk(
                    DuskScale {
                        elapsed: current - dusk,
                        span: TOTAL_MINUTE_COUNT + night - dusk,
                    },
                )
            } else if current < night {
                Self::Dusk(
                    DuskScale {
                        elapsed: TOTAL_MINUTE_COUNT + current - dusk,
                        span: TOTAL_MINUTE_COUNT + night - dusk,
                    },
                )
            } else {
                Self::Night
            }
        } else if dusk <= night && night <= day {
            if current >= day || current < dusk {
                Self::Day
            } else if current >= dusk && current < night {
                Self::Dusk(DuskScale { elapsed: current - dusk, span: night - dusk })
            } else {
                Self::Night
            }
        } else {
            proof {
                assert(false);
            }
            Self::Night
        }
    }
}

} // verus!
