//! Verified core of a real-time audio processing node: sample resources
//! storing multichannel PCM audio, a parameter diff/patch protocol, and the
//! control logic of a convolution effect node.
//!
//! Normalized engine samples are 32-bit floats; the verified core manipulates
//! them as raw bit patterns ([`RawSample`]) so that every move, clear and copy
//! is bit-exact. The floating-point arithmetic itself (PCM conversion
//! formulas, convolution, gain ramps) lives outside the verified core.

use vstd::prelude::*;

pub mod convolution;
pub mod dsp;
pub mod sample_resource;

verus! {

/// The bit pattern of one normalized 32-bit float audio sample.
///
/// `0` is the bit pattern of positive zero, the engine's silence value.
pub type RawSample = u32;

} // verus!
