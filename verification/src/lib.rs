//! Circadian light is a tool that adjusts a screen's gamma color spectrum in
//! order to improve sleep, by reducing the green and blue channels at night.
//! This library holds the core engine: clock times on the 24-hour cycle,
//! validated day-phase schedules and channel bounds, the classification of a
//! time into a day phase, and the interpolation of each color channel for
//! that phase. Channel intensities are measured in thousandths, matching the
//! three-decimal precision used when gamma values are formatted.

pub mod channel;
pub mod config;
pub mod hour;
pub mod time;
