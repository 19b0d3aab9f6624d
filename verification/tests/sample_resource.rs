//! Filling per-channel buffers from interleaved and de-interleaved PCM
//! resources: exact offsets, agreement of the filling strategies, and
//! untouched memory outside the requested range.

use firewheel_dsp::sample_resource::{
    fill_buffers_deinterleaved, fill_buffers_deinterleaved_f32, fill_buffers_deinterleaved_general,
    fill_buffers_deinterleaved_stereo, fill_buffers_interleaved, fill_buffers_interleaved_general,
    fill_buffers_interleaved_mono, fill_buffers_interleaved_stereo, InterleavedResourceF32,
    InterleavedResourceI16, InterleavedResourceU16, SampleResource, SampleResourceF32,
    SampleResourceInfo,
};

fn pcm_i16_to_f32(s: i16) -> f32 {
    f32::from(s) * (1.0 / i16::MAX as f32)
}

fn pcm_u16_to_f32(s: u16) -> f32 {
    (f32::from(s) * (2.0 / u16::MAX as f32)) - 1.0
}

fn buffers(channels: usize, len: usize) -> Vec<Vec<i16>> {
    vec![vec![7777i16; len]; channels]
}

#[test]
fn interleaved_fill_reads_exact_offsets() {
    // Two channels interleaved: frame f holds samples (10 * f, 10 * f + 1).
    let frames = 8usize;
    let mut data: Vec<i16> = Vec::new();
    for f in 0..frames {
        data.push((10 * f) as i16);
        data.push((10 * f + 1) as i16);
    }
    let mut bufs = buffers(2, 6);
    // Fill positions 1..4 starting at source frame 3.
    fill_buffers_interleaved(&mut bufs, 1..4, 3, 2, &data);
    for i in 1..4 {
        let frame = 3 + (i - 1);
        assert_eq!(bufs[0][i], (10 * frame) as i16);
        assert_eq!(bufs[1][i], (10 * frame + 1) as i16);
    }
    // Outside the range nothing moved.
    assert_eq!(bufs[0][0], 7777);
    assert_eq!(bufs[1][0], 7777);
    for c in 0..2 {
        for i in 4..6 {
            assert_eq!(bufs[c][i], 7777);
        }
    }
}

#[test]
fn interleaved_fill_converted_matches_formula_at_offsets() {
    // The engine's normalized samples are the conversion formula applied to
    // the raw samples the fill delivers, at the corresponding source offsets.
    let data: Vec<i16> = vec![0, i16::MAX, -i16::MAX, 1000, -1000, 123, -456, 32000];
    let mut bufs = buffers(2, 4);
    fill_buffers_interleaved(&mut bufs, 0..4, 0, 2, &data);
    for c in 0..2 {
        for i in 0..4 {
            let raw = data[i * 2 + c];
            assert_eq!(pcm_i16_to_f32(bufs[c][i]), pcm_i16_to_f32(raw));
        }
    }
    // The fixed conversion formulas themselves, at their extreme points.
    assert_eq!(pcm_i16_to_f32(0), 0.0);
    assert_eq!(pcm_i16_to_f32(i16::MAX), 1.0);
    assert_eq!(pcm_i16_to_f32(-i16::MAX), -1.0);
    assert_eq!(pcm_u16_to_f32(0), -1.0);
    assert_eq!(pcm_u16_to_f32(u16::MAX), 1.0);
}

#[test]
fn fill_strategies_agree_on_channel_counts_1_2_3_5() {
    for &channels in &[1usize, 2, 3, 5] {
        let frames = 10usize;
        let mut data: Vec<i16> = Vec::new();
        for f in 0..frames {
            for c in 0..channels {
                data.push((100 * f + c) as i16);
            }
        }
        // More destination buffers than channels: the extra stay untouched.
        let n_bufs = channels + 1;
        let mut via_dispatch = buffers(n_bufs, 8);
        let mut via_general = buffers(n_bufs, 8);
        fill_buffers_interleaved(&mut via_dispatch, 2..7, 1, channels, &data);
        fill_buffers_interleaved_general(&mut via_general, 2..7, 1, channels, &data);
        assert_eq!(via_dispatch, via_general);
        if channels == 1 {
            let mut via_mono = buffers(n_bufs, 8);
            fill_buffers_interleaved_mono(&mut via_mono, 2..7, 1, channels, &data);
            assert_eq!(via_mono, via_general);
        }
        if channels == 2 {
            let mut via_stereo = buffers(n_bufs, 8);
            fill_buffers_interleaved_stereo(&mut via_stereo, 2..7, 1, channels, &data);
            assert_eq!(via_stereo, via_general);
        }
    }
}

#[test]
fn deinterleaved_strategies_agree_on_channel_counts_1_2_3_5() {
    for &channels in &[1usize, 2, 3, 5] {
        let frames = 10usize;
        let mut data: Vec<Vec<i16>> = Vec::new();
        for c in 0..channels {
            data.push((0..frames).map(|f| (100 * f + c) as i16).collect());
        }
        let n_bufs = channels + 1;
        let mut via_dispatch = buffers(n_bufs, 8);
        let mut via_general = buffers(n_bufs, 8);
        fill_buffers_deinterleaved(&mut via_dispatch, 2..7, 1, &data);
        fill_buffers_deinterleaved_general(&mut via_general, 2..7, 1, &data);
        assert_eq!(via_dispatch, via_general);
        if channels == 2 {
            let mut via_stereo = buffers(n_bufs, 8);
            fill_buffers_deinterleaved_stereo(&mut via_stereo, 2..7, 1, &data);
            assert_eq!(via_stereo, via_general);
        }
    }
}

#[test]
fn empty_range_mutates_nothing() {
    let data: Vec<i16> = (0..20).collect();
    let mut bufs = buffers(2, 5);
    let before = bufs.clone();
    fill_buffers_interleaved(&mut bufs, 3..3, 2, 2, &data);
    assert_eq!(bufs, before);
    let ch_data: Vec<Vec<i16>> = vec![(0..10).collect(), (10..20).collect()];
    fill_buffers_deinterleaved(&mut bufs, 0..0, 5, &ch_data);
    assert_eq!(bufs, before);
}

#[test]
fn interleaved_resource_i16_fills_and_reports() {
    let r = InterleavedResourceI16 {
        data: vec![1, 2, 3, 4, 5, 6],
        channels: 2,
    };
    assert_eq!(r.num_channels(), 2);
    assert_eq!(r.len_frames(), 3);
    let mut bufs = buffers(3, 3);
    r.fill_buffers(&mut bufs, 0..3, 0);
    assert_eq!(bufs[0], vec![1, 3, 5]);
    assert_eq!(bufs[1], vec![2, 4, 6]);
    // A buffer beyond the resource's channels stays as it was.
    assert_eq!(bufs[2], vec![7777, 7777, 7777]);
}

#[test]
fn interleaved_resource_u16_fills_and_reports() {
    let r = InterleavedResourceU16 {
        data: vec![0, u16::MAX, 40000, 20000],
        channels: 1,
    };
    assert_eq!(r.num_channels(), 1);
    assert_eq!(r.len_frames(), 4);
    let mut bufs: Vec<Vec<u16>> = vec![vec![9u16; 2]];
    r.fill_buffers(&mut bufs, 0..2, 2);
    assert_eq!(bufs[0], vec![40000, 20000]);
}

#[test]
fn interleaved_resource_f32_round_trips_bits() {
    let samples = [0.0f32, 0.5, -0.25, 1.0];
    let r = InterleavedResourceF32 {
        data: samples.iter().map(|s| s.to_bits()).collect(),
        channels: 2,
    };
    assert_eq!(r.num_channels(), 2);
    assert_eq!(r.len_frames(), 2);
    let mut bufs: Vec<Vec<u32>> = vec![vec![0u32; 2]; 2];
    r.fill_buffers(&mut bufs, 0..2, 0);
    assert_eq!(f32::from_bits(bufs[0][0]), 0.0);
    assert_eq!(f32::from_bits(bufs[1][0]), 0.5);
    assert_eq!(f32::from_bits(bufs[0][1]), -0.25);
    assert_eq!(f32::from_bits(bufs[1][1]), 1.0);
}

#[test]
fn deinterleaved_vec_resource_fills_and_grants_channel_access() {
    let left: Vec<u32> = vec![1, 2, 3, 4];
    let right: Vec<u32> = vec![5, 6, 7, 8];
    let r: Vec<Vec<u32>> = vec![left.clone(), right.clone()];
    assert_eq!(SampleResourceInfo::num_channels(&r), 2);
    assert_eq!(SampleResourceInfo::len_frames(&r), 4);
    let mut bufs: Vec<Vec<u32>> = vec![vec![0u32; 3]; 2];
    r.fill_buffers(&mut bufs, 0..3, 1);
    assert_eq!(bufs[0], vec![2, 3, 4]);
    assert_eq!(bufs[1], vec![6, 7, 8]);
    assert_eq!(r.channel(0), Some(&left));
    assert_eq!(r.channel(1), Some(&right));
    assert_eq!(r.channel(2), None);
}

#[test]
fn deinterleaved_f32_copies_bits_unchanged() {
    let data: Vec<Vec<u32>> = vec![
        vec![0.1f32.to_bits(), 0.2f32.to_bits(), 0.3f32.to_bits()],
        vec![0.4f32.to_bits(), 0.5f32.to_bits(), 0.6f32.to_bits()],
    ];
    let mut bufs: Vec<Vec<u32>> = vec![vec![0u32; 2]; 2];
    fill_buffers_deinterleaved_f32(&mut bufs, 0..2, 1, &data);
    assert_eq!(f32::from_bits(bufs[0][0]), 0.2);
    assert_eq!(f32::from_bits(bufs[0][1]), 0.3);
    assert_eq!(f32::from_bits(bufs[1][0]), 0.5);
    assert_eq!(f32::from_bits(bufs[1][1]), 0.6);
}
