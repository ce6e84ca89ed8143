//! The periodic anemometer sampler.
//!
//! On every timer tick the sampler atomically drains the pulse counter
//! and converts the count into rotations per second: the counter is
//! divided by the pulses per rotation (the cups produce two pulses per
//! full turn) and by the length of the measurement interval.  The raw
//! whole-rotation value feeds the statistics window; the figure in
//! thousandths is kept as the current reading.

use vstd::prelude::*;

use crate::pulse::PulseCounter;
use crate::stats::WindDataHistory;
use crate::window_buf::slide;

verus! {

/// Pulses the anemometer produces per full rotation: a hardware
/// constant of the cup wheel.
pub const PULSES_PER_ROTATION: u32 = 2;

/// Rotations per second in thousandths, computed from a pulse count
/// over an interval in milliseconds.
pub open spec fn spec_rps_milli(count: int, pulses_per_rotation: int, interval_ms: int) -> int {
    count * 1_000_000 / (pulses_per_rotation * interval_ms)
}

/// Whole rotations per second, truncated, from the same inputs.
pub open spec fn spec_rps_whole(count: int, pulses_per_rotation: int, interval_ms: int) -> int {
    count * 1000 / (pulses_per_rotation * interval_ms)
}

/// The raw sample the statistics window receives: whole rotations per
/// second, saturated at the largest sample value.
pub open spec fn spec_rps_sample(count: int, pulses_per_rotation: int, interval_ms: int) -> u16 {
    if spec_rps_whole(count, pulses_per_rotation, interval_ms) <= u16::MAX {
        spec_rps_whole(count, pulses_per_rotation, interval_ms) as u16
    } else {
        u16::MAX
    }
}

/// Rotations per second in thousandths for a drained pulse count.
pub fn rps_milli(count: u32, pulses_per_rotation: u32, interval_ms: u32) -> (r: u64)
    requires
        pulses_per_rotation >= 1,
        interval_ms >= 1,
    ensures
        r == spec_rps_milli(count as int, pulses_per_rotation as int, interval_ms as int),
{
    proof {
        assert(1 <= (pulses_per_rotation as int) * (interval_ms as int) < 0x1_0000_0000_0000_0000)
            by (nonlinear_arith)
            requires
                1 <= pulses_per_rotation <= u32::MAX,
                1 <= interval_ms <= u32::MAX,
        ;
    }
    let denom: u64 = (pulses_per_rotation as u64) * (interval_ms as u64);
    (count as u64) * 1_000_000 / denom
}

/// Whole rotations per second for a drained pulse count, saturated at
/// the largest raw sample value.
pub fn rps_sample(count: u32, pulses_per_rotation: u32, interval_ms: u32) -> (r: u16)
    requires
        pulses_per_rotation >= 1,
        interval_ms >= 1,
    ensures
        r == spec_rps_sample(count as int, pulses_per_rotation as int, interval_ms as int),
{
    proof {
        assert(1 <= (pulses_per_rotation as int) * (interval_ms as int) < 0x1_0000_0000_0000_0000)
            by (nonlinear_arith)
            requires
                1 <= pulses_per_rotation <= u32::MAX,
                1 <= interval_ms <= u32::MAX,
        ;
    }
    let denom: u64 = (pulses_per_rotation as u64) * (interval_ms as u64);
    let whole = (count as u64) * 1000 / denom;
    if whole <= u16::MAX as u64 {
        whole as u16
    } else {
        u16::MAX
    }
}

/// The last sampled reading, in thousandths of a rotation per second:
/// the single point of truth the rest of the system reads.
pub struct AnemometerData {
    rps_milli: u64,
}

impl AnemometerData {
    /// The current reading in thousandths of a rotation per second.
    pub closed spec fn current_rps_milli(&self) -> int {
        self.rps_milli as int
    }

    /// A fresh reading of zero.
    pub fn new() -> (r: Self)
        ensures
            r.current_rps_milli() == 0,
    {
        AnemometerData { rps_milli: 0 }
    }

    /// Replace the reading with a freshly sampled value.
    pub fn set_current_rps(&mut self, rps_milli: u64)
        ensures
            final(self).current_rps_milli() == rps_milli,
    {
        self.rps_milli = rps_milli;
    }

    /// Read the current value.
    pub fn get_current_rps(&self) -> (r: u64)
        ensures
            r == self.current_rps_milli(),
    {
        self.rps_milli
    }
}

/// One measurement-timer tick: drain the pulse counter, convert the
/// count to rotations per second, store the raw sample (direction zero,
/// the vane being absent) in the statistics window, and return the
/// reading in thousandths.
pub fn sample_tick(
    counter: &mut PulseCounter,
    history: &mut WindDataHistory,
    pulses_per_rotation: u32,
    interval_ms: u32,
) -> (r: u64)
    requires
        old(counter).wf(),
        old(history).wf(),
        pulses_per_rotation >= 1,
        interval_ms >= 1,
    ensures
        final(counter).wf(),
        final(counter).pending() == 0,
        final(counter).total_drained() == final(counter).total_counted(),
        r == spec_rps_milli(
            old(counter).pending() as int,
            pulses_per_rotation as int,
            interval_ms as int,
        ),
        final(history).wf(),
        final(history).speeds() == slide(
            old(history).speeds(),
            240,
            spec_rps_sample(
                old(counter).pending() as int,
                pulses_per_rotation as int,
                interval_ms as int,
            ),
        ),
        final(history).gusts() == slide(
            old(history).gusts(),
            6,
            spec_rps_sample(
                old(counter).pending() as int,
                pulses_per_rotation as int,
                interval_ms as int,
            ),
        ),
        final(history).directions() == slide(old(history).directions(), 240, 0u16),
{
    let count = counter.drain();
    let sample = rps_sample(count, pulses_per_rotation, interval_ms);
    history.store_measurement(sample, 0);
    rps_milli(count, pulses_per_rotation, interval_ms)
}

} // verus!
