//! Interpolation of color channel intensities across the day phases.
//!
//! Each channel holds its maximum intensity through the day phase, its
//! minimum through the night phase, and ramps down linearly across the dusk
//! window: at the start of dusk the channel is still at its maximum, and as
//! the transition advances towards night it falls towards its minimum.

use vstd::arithmetic::div_mod::{lemma_div_is_ordered, lemma_div_multiples_vanish};
use vstd::prelude::*;

use crate::config::{ChannelConfig, Config, HourConfig};
use crate::hour::{cyclic_offset, in_cyclic_interval, spec_day_phase, DayPhase, DuskScale};
use crate::time::{Time, TOTAL_MINUTE_COUNT};

verus! {

/// Index of the red color channel, never intended to change.
pub const RED: usize = 0;

/// Index of the green color channel, never intended to change.
pub const GREEN: usize = 1;

/// Index of the blue color channel, never intended to change.
pub const BLUE: usize = 2;

/// The intensity a channel takes in a phase: the maximum through day, the
/// minimum through night, and a value that falls linearly from the maximum
/// to the minimum as the dusk transition advances. The dusk value rounds
/// down to a whole thousandth.
pub open spec fn spec_channel_value(channel_config: ChannelConfig, phase: DayPhase) -> int {
    match phase {
        DayPhase::Day => channel_config.spec_max() as int,
        DayPhase::Night => channel_config.spec_min() as int,
        DayPhase::Dusk(scale) => channel_config.spec_min() + (channel_config.spec_max()
            - channel_config.spec_min()) * (scale.span - scale.elapsed) / (scale.span as int),
    }
}

/// The intensity a channel takes at a minute of the day under a schedule:
/// the channel's value in the phase that the schedule assigns to that
/// minute.
pub open spec fn spec_linear_channel(
    channel_config: ChannelConfig,
    hour_config: HourConfig,
    current: int,
) -> int {
    spec_channel_value(channel_config, spec_day_phase(hour_config, current))
}

/// The three channel intensities that a configuration yields at a minute of
/// the day, in the order: red, green, blue.
pub open spec fn spec_gamma(config: Config, current: int) -> Seq<int> {
    seq![
        spec_linear_channel(config.channels[0], config.hours, current),
        spec_linear_channel(config.channels[1], config.hours, current),
        spec_linear_channel(config.channels[2], config.hours, current),
    ]
}

/// Computes the intensity of a channel in a day phase, in thousandths. The
/// result always lies between the channel's minimum and maximum.
pub fn channel_value(channel_config: ChannelConfig, phase: DayPhase) -> (value: u16)
    requires
        channel_config.wf(),
        phase matches DayPhase::Dusk(scale) ==> scale.wf(),
    ensures
        value as int == spec_channel_value(channel_config, phase),
        channel_config.spec_min() <= value <= channel_config.spec_max(),
{
    match phase {
        DayPhase::Day => channel_config.max(),
        DayPhase::Night => channel_config.min(),
        DayPhase::Dusk(scale) => {
            let min = channel_config.min();
            let max = channel_config.max();
            let difference: u32 = (max - min) as u32;
            let remaining: u32 = (scale.span - scale.elapsed) as u32;
            let span: u32 = scale.span as u32;
            proof {
                let d = difference as int;
                let r = remaining as int;
                let s = span as int;
                assert(d * r <= u16::MAX * u16::MAX) by (nonlinear_arith)
                    requires
                        0 <= d <= u16::MAX,
                        0 <= r <= u16::MAX,
                ;
                assert(d * r <= d * s) by (nonlinear_arith)
                    requires
                        0 <= d,
                        r <= s,
                ;
                lemma_div_is_ordered(d * r, d * s, s);
                lemma_div_multiples_vanish(d, s);
                assert(d * s == s * d);
                assert((d * r) / s <= d);
            }
            let ramp: u32 = difference * remaining / span;
            min + (ramp as u16)
        },
    }
}

/// Computes the intensity of a channel at a time of the day: the channel is
/// interpolated linearly across the dusk window, hence the name.
pub fn linear_channel_function(
    channel_config: ChannelConfig,
    hour_config: HourConfig,
    current_hour: Time,
) -> (value: u16)
    requires
        channel_config.wf(),
        hour_config.wf(),
        current_hour.wf(),
    ensures
        value as int == spec_linear_channel(channel_config, hour_config, current_hour@),
        channel_config.spec_min() <= value <= channel_config.spec_max(),
{
    channel_value(channel_config, DayPhase::from_current_hour(hour_config, current_hour))
}

/// Maps channels of different types.
pub fn map_channel_vector<F, T, U>(input: [T; 3], mapper: F) -> (output: [U; 3]) where
    T: Copy,
    F: Fn(T) -> U,

    requires
        forall|i: int| 0 <= i < 3 ==> call_requires(mapper, (input[i],)),
    ensures
        forall|i: int| 0 <= i < 3 ==> call_ensures(mapper, (input[i],), #[trigger] output[i]),
{
    [mapper(input[0]), mapper(input[1]), mapper(input[2])]
}

/// Computes the gamma color channel vector that a configuration yields at a
/// time of the day, in the order: red, green, blue.
pub fn gamma_function(config: Config, current_hour: Time) -> (gamma: [u16; 3])
    requires
        config.wf(),
        current_hour.wf(),
    ensures
        gamma@.map_values(|value: u16| value as int) == spec_gamma(config, current_hour@),
        gamma[0] as int == spec_linear_channel(config.channels[0], config.hours, current_hour@),
        gamma[1] as int == spec_linear_channel(config.channels[1], config.hours, current_hour@),
        gamma[2] as int == spec_linear_channel(config.channels[2], config.hours, current_hour@),
{
    let phase = DayPhase::from_current_hour(config.hours, current_hour);
    let gamma = [
        channel_value(config.channels[0], phase),
        channel_value(config.channels[1], phase),
        channel_value(config.channels[2], phase),
    ];
    proof {
        assert(gamma@.map_values(|value: u16| value as int) =~= spec_gamma(
            config,
            current_hour@,
        ));
    }
    gamma
}

/// Law: in the day phase a channel sits at its configured maximum, and in
/// the night phase at its configured minimum.
pub proof fn lemma_day_night_extremes(channel_config: ChannelConfig)
    requires
        channel_config.wf(),
    ensures
        spec_channel_value(channel_config, DayPhase::Day) == channel_config.spec_max(),
        spec_channel_value(channel_config, DayPhase::Night) == channel_config.spec_min(),
{
}

/// Law: the curve is continuous where day meets dusk: under any well-formed
/// schedule whose dusk window is not empty, the channel value at the first
/// minute of dusk equals the day-phase value, the channel's maximum.
pub proof fn lemma_continuous_at_dusk_start(
    channel_config: ChannelConfig,
    hour_config: HourConfig,
)
    requires
        channel_config.wf(),
        hour_config.wf(),
        hour_config.spec_dusk_start()@ != hour_config.spec_night_start()@,
    ensures
        spec_linear_channel(channel_config, hour_config, hour_config.spec_dusk_start()@)
            == channel_config.spec_max(),
{
    let day = hour_config.spec_day_start()@;
    let dusk = hour_config.spec_dusk_start()@;
    let night = hour_config.spec_night_start()@;
    let span = cyclic_offset(dusk, night);
    let d = channel_config.spec_max() - channel_config.spec_min();
    assert(0 < span <= TOTAL_MINUTE_COUNT);
    assert(!in_cyclic_interval(dusk, day, dusk));
    assert(in_cyclic_interval(dusk, dusk, night));
    assert(cyclic_offset(dusk, dusk) == 0);
    let scale = DuskScale { elapsed: 0, span: span as u16 };
    assert(spec_day_phase(hour_config, dusk) == DayPhase::Dusk(scale));
    assert(spec_channel_value(channel_config, DayPhase::Dusk(scale))
        == channel_config.spec_min() + d * span / span);
    lemma_div_multiples_vanish(d, span);
    assert(d * span == span * d) by (nonlinear_arith);
}

/// Law: the curve approaches the night value at the end of the dusk window:
/// at the last minute of the window the channel value exceeds the channel's
/// minimum by no more than the window's per-minute step.
pub proof fn lemma_fades_into_night(channel_config: ChannelConfig, scale: DuskScale)
    requires
        channel_config.wf(),
        scale.wf(),
        scale.elapsed == scale.span - 1,
    ensures
        spec_channel_value(channel_config, DayPhase::Dusk(scale)) - channel_config.spec_min()
            == (channel_config.spec_max() - channel_config.spec_min()) / (scale.span as int),
{
    let d = channel_config.spec_max() - channel_config.spec_min();
    assert(d * (scale.span - scale.elapsed) == d * 1 == d);
}

/// Law: the dusk ramp only descends: as more of the dusk window passes, the
/// channel value never rises, so the curve falls steadily from the day value
/// towards the night value.
pub proof fn lemma_dusk_ramp_descends(
    channel_config: ChannelConfig,
    earlier: DuskScale,
    later: DuskScale,
)
    requires
        channel_config.wf(),
        earlier.wf(),
        later.wf(),
        earlier.span == later.span,
        earlier.elapsed <= later.elapsed,
    ensures
        spec_channel_value(channel_config, DayPhase::Dusk(earlier)) >= spec_channel_value(
            channel_config,
            DayPhase::Dusk(later),
        ),
{
    let d = channel_config.spec_max() - channel_config.spec_min();
    let s = earlier.span as int;
    let remaining_earlier = earlier.span - earlier.elapsed;
    let remaining_later = later.span - later.elapsed;
    assert(d * remaining_later <= d * remaining_earlier) by (nonlinear_arith)
        requires
            0 <= d,
            remaining_later <= remaining_earlier,
    ;
    lemma_div_is_ordered(d * remaining_later, d * remaining_earlier, s);
}

/// Law: evaluation is deterministic: the gamma vector is a function of the
/// configuration and the time alone, so two evaluations that meet the
/// contract of [`gamma_function`] on equal inputs carry identical values.
pub proof fn lemma_gamma_deterministic(
    config: Config,
    current: int,
    gamma1: [u16; 3],
    gamma2: [u16; 3],
)
    requires
        gamma1@.map_values(|value: u16| value as int) == spec_gamma(config, current),
        gamma2@.map_values(|value: u16| value as int) == spec_gamma(config, current),
    ensures
        gamma1@ == gamma2@,
{
    let values1 = gamma1@.map_values(|value: u16| value as int);
    let values2 = gamma2@.map_values(|value: u16| value as int);
    assert forall|i: int| 0 <= i < 3 implies gamma1@[i] == gamma2@[i] by {
        assert(values1[i] == values2[i]);
    }
    assert(gamma1@ =~= gamma2@);
}

} // verus!
