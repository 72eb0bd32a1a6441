//! The plugin's state, its initialisation, and the per-block metering gate.
//!
//! The sample arithmetic (gain times sample, the block's mean, the release
//! formula) is floating point and is done by the caller; the decisions and the
//! state they touch are here.
use vstd::prelude::*;
use crate::param::{in_float_range, FloatParam, FloatRange, IntParam, IntRange};
use crate::peak_meter::{next_peak, PeakMeter};
use crate::smoother::Smoother;

verus! {

/// The bit pattern of 1.0, a gain of 0 dB.
pub const UNITY_GAIN_BITS: u32 = 0x3f80_0000;

/// The single-precision gain nearest -30 dB.
pub const GAIN_MIN_BITS: u32 = 0x3d01_86e2;

/// The single-precision gain nearest +30 dB.
pub const GAIN_MAX_BITS: u32 = 0x41fc_fb72;

/// The range shared by the main and the side-chain gain.
pub open spec fn gain_range() -> FloatRange {
    FloatRange { min: GAIN_MIN_BITS, max: GAIN_MAX_BITS }
}

/// What a freshly made gain parameter holds: 0 dB, not smoothing.
pub open spec fn fresh_gain(p: FloatParam) -> bool {
    &&& p.target_value() == UNITY_GAIN_BITS
    &&& p.range() == gain_range()
    &&& p.smoother() == (Smoother {
        current: UNITY_GAIN_BITS,
        target: UNITY_GAIN_BITS,
        steps_left: 0,
    })
    &&& p.steps() == 0
}

/// The plugin's parameters.
pub struct RingModSideChainParams {
    pub gain: FloatParam,
    pub side_chain_gain: FloatParam,
    pub some_int: IntParam,
}

impl RingModSideChainParams {
    /// Both gains at 0 dB within -30 dB to +30 dB; the integer at 3 within 0
    /// to 3.
    pub fn new() -> (p: Self)
        ensures
            fresh_gain(p.gain),
            fresh_gain(p.side_chain_gain),
            p.some_int.target_value() == 3,
            p.some_int.range() == (IntRange { min: 0, max: 3 }),
    {
        let range = FloatRange { min: GAIN_MIN_BITS, max: GAIN_MAX_BITS };
        assert(in_float_range(range, UNITY_GAIN_BITS));
        RingModSideChainParams {
            gain: FloatParam::new(UNITY_GAIN_BITS, range),
            side_chain_gain: FloatParam::new(UNITY_GAIN_BITS, range),
            some_int: IntParam::new(3, IntRange { min: 0, max: 3 }),
        }
    }
}

impl Default for RingModSideChainParams {
    fn default() -> (p: Self)
        ensures
            fresh_gain(p.gain),
            fresh_gain(p.side_chain_gain),
            p.some_int.target_value() == 3,
            p.some_int.range() == (IntRange { min: 0, max: 3 }),
    {
        Self::new()
    }
}

/// The plugin: its parameters, the meters' per-sample decay weight (a bit
/// pattern), and the two meters.
pub struct RingModSideChain {
    pub params: RingModSideChainParams,
    pub peak_meter_decay_weight: u32,
    pub peak_meter: PeakMeter,
    pub side_chain_peak_meter: PeakMeter,
}

impl RingModSideChain {
    /// Fresh parameters, meters at silence, and a weight of 1.0 until the
    /// sample rate is known.
    pub fn new() -> (s: Self)
        ensures
            fresh_gain(s.params.gain),
            fresh_gain(s.params.side_chain_gain),
            s.params.some_int.target_value() == 3,
            s.params.some_int.range() == (IntRange { min: 0, max: 3 }),
            s.peak_meter_decay_weight == UNITY_GAIN_BITS,
            s.peak_meter.value() == 0,
            s.side_chain_peak_meter.value() == 0,
    {
        RingModSideChain {
            params: RingModSideChainParams::new(),
            peak_meter_decay_weight: UNITY_GAIN_BITS,
            peak_meter: PeakMeter::new(),
            side_chain_peak_meter: PeakMeter::new(),
        }
    }

    /// Takes the values derived from the sample rate: the meters' decay
    /// weight, `0.25 ^ (1 / (rate * 150 ms))`, and the number of samples a
    /// gain trajectory takes. Always accepts.
    pub fn initialize(&mut self, decay_weight: u32, smoothing_steps: u32) -> (r: bool)
        ensures
            r,
            final(self).peak_meter_decay_weight == decay_weight,
            final(self).params.gain.steps() == smoothing_steps,
            final(self).params.side_chain_gain.steps() == smoothing_steps,
            final(self).params.gain.target_value() == old(self).params.gain.target_value(),
            final(self).params.gain.range() == old(self).params.gain.range(),
            final(self).params.gain.smoother() == old(self).params.gain.smoother(),
            final(self).params.side_chain_gain.target_value() == old(
                self,
            ).params.side_chain_gain.target_value(),
            final(self).params.side_chain_gain.range() == old(self).params.side_chain_gain.range(),
            final(self).params.side_chain_gain.smoother() == old(
                self,
            ).params.side_chain_gain.smoother(),
            final(self).peak_meter.value() == old(self).peak_meter.value(),
            final(self).side_chain_peak_meter.value() == old(self).side_chain_peak_meter.value(),
    {
        self.peak_meter_decay_weight = decay_weight;
        self.params.gain.set_smoothing_steps(smoothing_steps);
        self.params.side_chain_gain.set_smoothing_steps(smoothing_steps);
        true
    }
}

impl Default for RingModSideChain {
    fn default() -> (s: Self)
        ensures
            fresh_gain(s.params.gain),
            fresh_gain(s.params.side_chain_gain),
            s.params.some_int.target_value() == 3,
            s.params.some_int.range() == (IntRange { min: 0, max: 3 }),
            s.peak_meter_decay_weight == UNITY_GAIN_BITS,
            s.peak_meter.value() == 0,
            s.side_chain_peak_meter.value() == 0,
    {
        Self::new()
    }
}

/// The end of a block: while metering is active the meter takes the block's
/// mean amplitude (its absolute value) through one update, where `released`
/// is `current * weight + |mean| * (1 - weight)`; while it is not, the meter
/// is left exactly as it was.
pub fn meter_block(meter: &mut PeakMeter, active: bool, mean_amplitude: u32, released: u32)
    ensures
        final(meter).value() == (if active {
            next_peak(old(meter).value(), mean_amplitude, released)
        } else {
            old(meter).value()
        }),
{
    if active {
        meter.update(mean_amplitude, released);
    }
}

} // verus!
