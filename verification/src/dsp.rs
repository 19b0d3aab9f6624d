//! Control-side values of the DSP chain: the wet/dry mix ratio, fade curves,
//! volumes, and the target-tracking state of a smoothed parameter.
//!
//! Scalar DSP values are 32-bit floats in the engine; here they are held as
//! raw bit patterns ([`crate::RawSample`]), so that storing, comparing and
//! handing them between the control and rendering sides is bit-exact.

use vstd::prelude::*;

verus! {

/// Bit pattern of the 32-bit float one half: an even wet/dry balance.
pub const MIX_CENTER_BITS: crate::RawSample = 0x3F00_0000;

/// Bit pattern of the 32-bit float minus twenty: the default wet gain in
/// decibels.
pub const DB_MINUS_20_BITS: crate::RawSample = 0xC1A0_0000;

/// The wet/dry mix ratio, the bit pattern of a 32-bit float in `[0, 1]`
/// where zero is fully dry and one fully wet; compared bit for bit.
#[derive(Clone, Copy, Debug, PartialEq, Eq, Structural)]
pub struct Mix(pub crate::RawSample);

impl Mix {
    /// An even balance of wet and dry signal.
    pub fn center() -> (r: Mix)
        ensures
            r == Mix(MIX_CENTER_BITS),
    {
        Mix(MIX_CENTER_BITS)
    }
}

impl Default for Mix {
    fn default() -> (r: Mix)
        ensures
            r == Mix(MIX_CENTER_BITS),
    {
        Mix(MIX_CENTER_BITS)
    }
}

/// The shape of a fade between two signals or between silence and signal.
#[derive(Clone, Copy, Debug, PartialEq, Eq, Structural)]
pub enum FadeCurve {
    /// Equal-power crossfade, perceptually constant loudness.
    EqualPower3dB,
    /// Square-root crossfade.
    SquareRoot,
    /// Linear crossfade.
    Linear,
}

impl Default for FadeCurve {
    fn default() -> (r: FadeCurve)
        ensures
            r == FadeCurve::EqualPower3dB,
    {
        FadeCurve::EqualPower3dB
    }
}

/// A gain, either as a linear amplitude factor or in decibels, each held as
/// the bit pattern of a 32-bit float; compared bit for bit.
#[derive(Clone, Copy, Debug, PartialEq, Eq, Structural)]
pub enum Volume {
    /// A linear amplitude factor.
    Linear(crate::RawSample),
    /// A gain in decibels.
    Decibels(crate::RawSample),
}

/// The target-tracking state of a scalar parameter that ramps toward its
/// target over a fixed smoothing time instead of stepping.
///
/// The ramp samples themselves are floating-point work done by the rendering
/// side; this state fixes what they ramp from and to: each block ramps from
/// `current` toward `target`, and [`SmoothedParam::settle`] records that the
/// value sits at its target once the block's ramp has been written.
pub struct SmoothedParam {
    /// The value the last written ramp ended on.
    pub current: crate::RawSample,
    /// The value the next ramp heads toward.
    pub target: crate::RawSample,
}

impl SmoothedParam {
    /// A parameter resting at `value`.
    pub fn new(value: crate::RawSample) -> (r: SmoothedParam)
        ensures
            r.current == value,
            r.target == value,
    {
        SmoothedParam { current: value, target: value }
    }

    /// Retargets the parameter; only the target changes, the ramp still
    /// starts from wherever the last block ended.
    pub fn set_value(&mut self, target: crate::RawSample)
        ensures
            final(self).target == target,
            final(self).current == old(self).current,
    {
        self.target = target;
    }

    /// Records that a full block's ramp has been written: the next block
    /// starts flat at the target unless retargeted again.
    pub fn settle(&mut self)
        ensures
            final(self).current == old(self).target,
            final(self).target == old(self).target,
    {
        self.current = self.target;
    }
}

} // verus!

