//! The DSP control values: bit-exact scalar constants and the smoothed
//! parameter's target tracking.

use firewheel_dsp::dsp::{
    FadeCurve, Mix, SmoothedParam, Volume, DB_MINUS_20_BITS, MIX_CENTER_BITS,
};

#[test]
fn scalar_constants_are_the_documented_floats() {
    assert_eq!(f32::from_bits(MIX_CENTER_BITS), 0.5);
    assert_eq!(f32::from_bits(DB_MINUS_20_BITS), -20.0);
    assert_eq!(Mix::center(), Mix(0.5f32.to_bits()));
    assert_eq!(Mix::default(), Mix::center());
    assert_eq!(FadeCurve::default(), FadeCurve::EqualPower3dB);
}

#[test]
fn volume_variants_compare_bit_for_bit() {
    assert_eq!(
        Volume::Decibels(0.0f32.to_bits()),
        Volume::Decibels(0.0f32.to_bits())
    );
    assert_ne!(
        Volume::Decibels(1.0f32.to_bits()),
        Volume::Linear(1.0f32.to_bits())
    );
}

#[test]
fn smoothed_param_tracks_only_its_target_until_settled() {
    let mut p = SmoothedParam::new(0.25f32.to_bits());
    assert_eq!(p.current, p.target);

    // Retargeting moves the target alone: the running ramp still starts
    // from where the last block ended.
    p.set_value(1.0f32.to_bits());
    assert_eq!(f32::from_bits(p.current), 0.25);
    assert_eq!(f32::from_bits(p.target), 1.0);

    // After a block's ramp is written the parameter sits flat at its
    // target, so the next block starts flat unless retargeted again.
    p.settle();
    assert_eq!(p.current, p.target);
    assert_eq!(f32::from_bits(p.current), 1.0);
}
