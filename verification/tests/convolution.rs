//! The convolution node: configuration validation, the diff/patch protocol,
//! block outcomes, engine initialization, and end-to-end renders against the
//! real convolution engine.

use std::sync::Arc;

use fft_convolver::FFTConvolver;
use firewheel_dsp::convolution::{
    clear_output_buffers, copy_block, engine_source_channels, BlockOutcome, ConfigError,
    ConvolutionNode, ConvolutionNodeConfig, ConvolutionNodePatch, ConvolutionProcessor, SharedIr,
};
use firewheel_dsp::dsp::{FadeCurve, Mix, Volume, DB_MINUS_20_BITS, MIX_CENTER_BITS};

fn stereo_config() -> ConvolutionNodeConfig {
    ConvolutionNodeConfig {
        channels: 2,
        max_impulse_channel_count: 2,
    }
}

fn ir_from(channels: &[Vec<f32>]) -> SharedIr {
    Arc::new(
        channels
            .iter()
            .map(|ch| ch.iter().map(|s| s.to_bits()).collect())
            .collect(),
    )
}

fn ir_floats(ir: &SharedIr, channel: usize) -> Vec<f32> {
    ir[channel].iter().map(|&b| f32::from_bits(b)).collect()
}

// Behave as expected up to stereo.
#[test]
fn mono_stereo_ok() {
    ConvolutionNode::default().info(&ConvolutionNodeConfig {
        channels: 1,
        ..Default::default()
    });
    ConvolutionNode::default().info(&ConvolutionNodeConfig::default());
}

#[test]
fn channel_counts_one_and_two_succeed_three_fails() {
    let node = ConvolutionNode::default();
    for channels in [1usize, 2] {
        let cfg = ConvolutionNodeConfig {
            channels,
            ..Default::default()
        };
        let info = node.try_info(&cfg).unwrap();
        assert_eq!(info.channel_config.num_inputs, channels);
        assert_eq!(info.channel_config.num_outputs, channels);
    }
    let bad = ConvolutionNodeConfig {
        channels: 3,
        ..Default::default()
    };
    assert_eq!(node.try_info(&bad), Err(ConfigError::UnsupportedChannelCount));
}

#[test]
fn defaults_match_the_node_convention() {
    let node = ConvolutionNode::default();
    assert!(!node.paused);
    assert_eq!(f32::from_bits(node.mix.0), 0.5);
    assert_eq!(node.mix, Mix(MIX_CENTER_BITS));
    assert_eq!(node.fade_curve, FadeCurve::EqualPower3dB);
    assert!(node.impulse_response.is_none());
    assert_eq!(node.wet_gain, Volume::Decibels(DB_MINUS_20_BITS));
    match node.wet_gain {
        Volume::Decibels(bits) => assert_eq!(f32::from_bits(bits), -20.0),
        Volume::Linear(_) => panic!("default wet gain is in decibels"),
    }
}

#[test]
fn diff_of_identical_records_is_empty() {
    let a = ConvolutionNode::default();
    let b = a.clone();
    assert!(a.diff(&b).is_empty());
    let mut c = a.clone();
    c.impulse_response = Some(ir_from(&[vec![0.5, 0.25]]));
    let d = c.clone();
    assert!(c.diff(&d).is_empty());
    // Distinct references carrying the same audio also count as identical.
    let mut e = c.clone();
    e.impulse_response = Some(ir_from(&[vec![0.5, 0.25]]));
    assert!(e.diff(&c).is_empty());
}

#[test]
fn diff_of_one_changed_field_yields_exactly_that_patch() {
    let base = ConvolutionNode::default();

    let mut n = base.clone();
    n.paused = true;
    let p = n.diff(&base);
    assert_eq!(p.len(), 1);
    assert!(matches!(p[0], ConvolutionNodePatch::Paused(true)));

    let mut n = base.clone();
    n.mix = Mix(1.0f32.to_bits());
    let p = n.diff(&base);
    assert_eq!(p.len(), 1);
    assert!(matches!(p[0], ConvolutionNodePatch::Mix(m) if m == Mix(1.0f32.to_bits())));

    let mut n = base.clone();
    n.fade_curve = FadeCurve::Linear;
    let p = n.diff(&base);
    assert_eq!(p.len(), 1);
    assert!(matches!(p[0], ConvolutionNodePatch::FadeCurve(FadeCurve::Linear)));

    let mut n = base.clone();
    let ir = ir_from(&[vec![1.0, 0.5]]);
    n.impulse_response = Some(ir.clone());
    let p = n.diff(&base);
    assert_eq!(p.len(), 1);
    match &p[0] {
        ConvolutionNodePatch::ImpulseResponse(Some(got)) => assert_eq!(**got, *ir),
        _ => panic!("expected an impulse-response patch carrying the new reference"),
    }

    let mut n = base.clone();
    n.wet_gain = Volume::Linear(1.0f32.to_bits());
    let p = n.diff(&base);
    assert_eq!(p.len(), 1);
    assert!(matches!(
        p[0],
        ConvolutionNodePatch::WetGain(Volume::Linear(b)) if b == 1.0f32.to_bits()
    ));
}

#[test]
fn diff_emits_patches_in_field_declaration_order() {
    let base = ConvolutionNode::default();
    let mut n = base.clone();
    n.paused = true;
    n.fade_curve = FadeCurve::SquareRoot;
    n.wet_gain = Volume::Decibels(0.0f32.to_bits());
    let p = n.diff(&base);
    assert_eq!(p.len(), 3);
    assert!(matches!(p[0], ConvolutionNodePatch::Paused(true)));
    assert!(matches!(
        p[1],
        ConvolutionNodePatch::FadeCurve(FadeCurve::SquareRoot)
    ));
    assert!(matches!(
        p[2],
        ConvolutionNodePatch::WetGain(Volume::Decibels(b)) if b == 0.0f32.to_bits()
    ));
}

#[test]
fn paused_processor_clears_outputs_whatever_the_input() {
    let mut record = ConvolutionNode::default();
    record.paused = true;
    record.impulse_response = Some(ir_from(&[vec![1.0], vec![1.0]]));
    let mut proc_state = ConvolutionProcessor::new(record, &stereo_config());
    let d = proc_state.begin_block(vec![]);
    assert_eq!(d.outcome, BlockOutcome::ClearAllOutputs);
    // The engine clears the block: every sample becomes the silence pattern.
    let mut out_bits: Vec<Vec<u32>> =
        vec![vec![0.77f32.to_bits(); 64], vec![(-0.3f32).to_bits(); 64]];
    clear_output_buffers(&mut out_bits, 64);
    for ch in &out_bits {
        for &s in ch {
            assert_eq!(f32::from_bits(s), 0.0);
        }
    }
    proc_state.finish_block(&d);
    // Paused stays paused until a resume patch arrives.
    let d2 = proc_state.begin_block(vec![]);
    assert_eq!(d2.outcome, BlockOutcome::ClearAllOutputs);
    let d3 = proc_state.begin_block(vec![ConvolutionNodePatch::Paused(false)]);
    assert_eq!(d3.outcome, BlockOutcome::Process);
}

#[test]
fn without_impulse_response_the_block_bypasses_exactly() {
    let mut record = ConvolutionNode::default();
    record.mix = Mix(0.9f32.to_bits());
    record.wet_gain = Volume::Decibels(3.0f32.to_bits());
    let mut proc_state = ConvolutionProcessor::new(record, &stereo_config());
    let d = proc_state.begin_block(vec![]);
    assert_eq!(d.outcome, BlockOutcome::Bypass);
    // Bypass means output equals input bit for bit.
    let input_bits: Vec<Vec<u32>> = vec![
        (0..32).map(|k| (k as f32 * 0.01).to_bits()).collect(),
        (0..32).map(|k| (-(k as f32) * 0.02).to_bits()).collect(),
    ];
    let mut out_bits: Vec<Vec<u32>> = vec![vec![9u32; 32], vec![8u32; 32]];
    copy_block(&input_bits, &mut out_bits, 32);
    assert_eq!(out_bits, input_bits);
}

#[test]
fn mono_impulse_response_feeds_both_stereo_engines() {
    let taps = vec![1.0f32, -0.5, 0.25, 0.125];
    let ir = ir_from(&[taps.clone()]);
    let sources = engine_source_channels(&ir, 2);
    assert_eq!(sources, vec![0, 0]);

    let record = ConvolutionNode::default();
    let mut proc_state = ConvolutionProcessor::new(record, &stereo_config());
    let d = proc_state.begin_block(vec![ConvolutionNodePatch::ImpulseResponse(Some(ir.clone()))]);
    assert_eq!(d.outcome, BlockOutcome::Process);
    let init = d.engine_init.as_ref().expect("loading a response initializes the engines");
    assert_eq!(init.sources, vec![0, 0]);

    // Both engines convolve with the same single channel: identical output,
    // no silent channel.
    let mut outs: Vec<Vec<f32>> = Vec::new();
    for &src in &init.sources {
        let mut conv = FFTConvolver::<f32>::default();
        conv.init(16, &ir_floats(&init.ir, src)).unwrap();
        let mut input = vec![0.0f32; 16];
        input[0] = 1.0;
        let mut out = vec![0.0f32; 16];
        conv.process(&input, &mut out).unwrap();
        outs.push(out);
    }
    assert_eq!(outs[0], outs[1]);
    assert!(outs[0].iter().any(|&s| s != 0.0));
}

#[test]
fn stereo_impulse_response_feeds_each_engine_its_own_channel() {
    let ir = ir_from(&[vec![1.0, 0.0], vec![0.0, 1.0]]);
    assert_eq!(engine_source_channels(&ir, 2), vec![0, 1]);
    // A response with more channels than the node leaves the extra unused.
    let wide = ir_from(&[vec![1.0], vec![0.5], vec![0.25]]);
    assert_eq!(engine_source_channels(&wide, 2), vec![0, 1]);
}

/// Renders one block through the same chain the engine runs: convolve each
/// channel, apply the (flat) wet gain, mix the previous block's dry signal
/// in, then save this block's input as the next block's dry signal.
fn render_block(
    convolvers: &mut [FFTConvolver<f32>],
    delay: &mut Vec<Vec<f32>>,
    inputs: &[Vec<f32>],
    wet_gain: f32,
    dry_gain: f32,
) -> Vec<Vec<f32>> {
    let frames = inputs[0].len();
    let mut outs: Vec<Vec<f32>> = vec![vec![0.0; frames]; inputs.len()];
    for c in 0..inputs.len() {
        convolvers[c].process(&inputs[c], &mut outs[c]).unwrap();
        for k in 0..frames {
            outs[c][k] *= wet_gain;
            outs[c][k] += dry_gain * delay[c][k];
        }
    }
    *delay = inputs.to_vec();
    outs
}

// A stereo node with a loaded two-channel response, unity wet gain and a
// fully wet mix reproduces the response itself when fed a unit impulse.
#[test]
fn unit_impulse_reproduces_the_impulse_response() {
    let block = 32usize;
    let ir_len = 96usize;
    let left: Vec<f32> = (0..ir_len).map(|k| ((k * 37 + 11) % 101) as f32 / 101.0 - 0.5).collect();
    let right: Vec<f32> = (0..ir_len).map(|k| ((k * 53 + 7) % 89) as f32 / 89.0 - 0.5).collect();
    let ir = ir_from(&[left.clone(), right.clone()]);

    let mut record = ConvolutionNode::default();
    record.wet_gain = Volume::Linear(1.0f32.to_bits());
    record.mix = Mix(1.0f32.to_bits());
    let baseline = record.clone();
    let mut proc_state = ConvolutionProcessor::new(record.clone(), &stereo_config());
    let mut convolvers = vec![FFTConvolver::<f32>::default(), FFTConvolver::<f32>::default()];
    let mut delay: Vec<Vec<f32>> = vec![vec![0.0; block]; 2];

    // The control side loads the response; the patch reaches the processor.
    record.impulse_response = Some(ir.clone());
    let patches = record.diff(&baseline);
    assert_eq!(patches.len(), 1);
    let d = proc_state.begin_block(patches);
    assert_eq!(d.outcome, BlockOutcome::Process);
    let init = d.engine_init.as_ref().unwrap();
    assert_eq!(init.sources, vec![0, 1]);
    for (e, &src) in init.sources.iter().enumerate() {
        convolvers[e].init(block, &ir_floats(&init.ir, src)).unwrap();
    }

    // Unit impulse in the first block, silence afterwards. The mix is fully
    // wet, so the dry path contributes nothing and the wet gain is flat 1.
    let mut produced: Vec<Vec<f32>> = vec![Vec::new(), Vec::new()];
    let n_blocks = ir_len / block + 2;
    for b in 0..n_blocks {
        let d = if b == 0 {
            d.outcome
        } else {
            let d = proc_state.begin_block(vec![]);
            assert!(d.engine_init.is_none());
            d.outcome
        };
        assert_eq!(d, BlockOutcome::Process);
        let mut inputs = vec![vec![0.0f32; block]; 2];
        if b == 0 {
            inputs[0][0] = 1.0;
            inputs[1][0] = 1.0;
        }
        let outs = render_block(&mut convolvers, &mut delay, &inputs, 1.0, 0.0);
        produced[0].extend_from_slice(&outs[0]);
        produced[1].extend_from_slice(&outs[1]);
    }

    for (channel, expected) in [(0usize, &left), (1usize, &right)] {
        for k in 0..produced[channel].len() {
            let want = if k < ir_len { expected[k] } else { 0.0 };
            assert!(
                (produced[channel][k] - want).abs() < 1e-4,
                "channel {} sample {}: got {}, want {}",
                channel,
                k,
                produced[channel][k],
                want
            );
        }
    }
}

// Toggling paused mid-stream renders one full final block (the pause is
// deferred to the end of that block), then silence.
#[test]
fn pausing_mid_stream_finishes_the_block_then_silences() {
    let block = 32usize;
    let ir = ir_from(&[vec![0.5f32, 0.25, 0.125], vec![0.5f32, 0.25, 0.125]]);

    let mut record = ConvolutionNode::default();
    record.wet_gain = Volume::Linear(1.0f32.to_bits());
    record.mix = Mix(1.0f32.to_bits());
    let mut proc_state = ConvolutionProcessor::new(record, &stereo_config());
    let mut convolvers = vec![FFTConvolver::<f32>::default(), FFTConvolver::<f32>::default()];
    let mut delay: Vec<Vec<f32>> = vec![vec![0.0; block]; 2];

    let d = proc_state.begin_block(vec![ConvolutionNodePatch::ImpulseResponse(Some(ir.clone()))]);
    assert_eq!(d.outcome, BlockOutcome::Process);
    for (e, &src) in d.engine_init.as_ref().unwrap().sources.iter().enumerate() {
        convolvers[e].init(block, &ir_floats(&ir, src)).unwrap();
    }
    proc_state.finish_block(&d);

    // A steady nonzero input stream.
    let inputs: Vec<Vec<f32>> = vec![vec![0.25; block], vec![0.25; block]];

    // Some blocks of normal processing first.
    for _ in 0..3 {
        let d = proc_state.begin_block(vec![]);
        assert_eq!(d.outcome, BlockOutcome::Process);
        render_block(&mut convolvers, &mut delay, &inputs, 1.0, 0.0);
        proc_state.finish_block(&d);
    }

    // The pause arrives: this block still runs the full chain, fading out.
    let d = proc_state.begin_block(vec![ConvolutionNodePatch::Paused(true)]);
    assert_eq!(d.outcome, BlockOutcome::Process);
    assert!(d.will_pause);
    assert_eq!(d.declick_fade_to_enabled, Some(false));
    let final_block = render_block(&mut convolvers, &mut delay, &inputs, 1.0, 0.0);
    assert!(final_block[0].iter().any(|&s| s != 0.0));
    proc_state.finish_block(&d);

    // Every later block is silence, with no patches needed.
    for _ in 0..3 {
        let d = proc_state.begin_block(vec![]);
        assert_eq!(d.outcome, BlockOutcome::ClearAllOutputs);
        let mut out_bits: Vec<Vec<u32>> = vec![vec![1u32; block], vec![2u32; block]];
        clear_output_buffers(&mut out_bits, block);
        for ch in &out_bits {
            assert!(ch.iter().all(|&b| f32::from_bits(b) == 0.0));
        }
        proc_state.finish_block(&d);
    }
}

#[test]
fn resume_takes_effect_immediately() {
    let mut record = ConvolutionNode::default();
    record.paused = true;
    record.impulse_response = Some(ir_from(&[vec![1.0], vec![1.0]]));
    let mut proc_state = ConvolutionProcessor::new(record, &stereo_config());
    let d = proc_state.begin_block(vec![ConvolutionNodePatch::Paused(false)]);
    assert_eq!(d.outcome, BlockOutcome::Process);
    assert!(!d.will_pause);
    assert_eq!(d.declick_fade_to_enabled, Some(true));
}

#[test]
fn retargets_carry_the_drained_record_values() {
    let record = ConvolutionNode::default();
    let mut proc_state = ConvolutionProcessor::new(record, &stereo_config());
    let d = proc_state.begin_block(vec![
        ConvolutionNodePatch::Mix(Mix(0.25f32.to_bits())),
        ConvolutionNodePatch::FadeCurve(FadeCurve::Linear),
        ConvolutionNodePatch::WetGain(Volume::Decibels(6.0f32.to_bits())),
        ConvolutionNodePatch::Mix(Mix(0.75f32.to_bits())),
    ]);
    // The last written value of each field wins.
    assert_eq!(
        d.retarget_mix,
        Some((Mix(0.75f32.to_bits()), FadeCurve::Linear))
    );
    assert_eq!(
        d.retarget_wet_gain,
        Some(Volume::Decibels(6.0f32.to_bits()))
    );
    assert!(d.declick_fade_to_enabled.is_none());
    assert!(!d.will_pause);
    assert!(!d.ir_changed);
}

#[test]
fn diff_then_drain_mirrors_the_control_record() {
    let base = ConvolutionNode::default();
    let mut new = base.clone();
    new.paused = true;
    new.mix = Mix(0.8f32.to_bits());
    new.impulse_response = Some(ir_from(&[vec![1.0, 0.5], vec![0.25, 0.125]]));
    new.wet_gain = Volume::Linear(0.5f32.to_bits());

    let mut proc_state = ConvolutionProcessor::new(base.clone(), &stereo_config());
    let d = proc_state.begin_block(new.diff(&base));

    // Every immediate field of the control record reached the mirror; the
    // pause is still deferred, so the block runs in full.
    assert_eq!(proc_state.params.mix, new.mix);
    assert_eq!(proc_state.params.wet_gain, new.wet_gain);
    match (&proc_state.params.impulse_response, &new.impulse_response) {
        (Some(got), Some(want)) => assert_eq!(**got, **want),
        _ => panic!("the loaded impulse response reaches the mirror"),
    }
    assert!(!proc_state.params.paused);
    assert_eq!(d.outcome, BlockOutcome::Process);
    assert!(d.will_pause);

    // Once the block's work is done the deferred pause lands.
    proc_state.finish_block(&d);
    assert!(proc_state.params.paused);
}

#[test]
fn queued_batches_drain_like_sequential_blocks() {
    let base = ConvolutionNode::default();
    let mut mid = base.clone();
    mid.mix = Mix(0.3f32.to_bits());
    mid.paused = true;
    let mut newest = mid.clone();
    newest.mix = Mix(0.9f32.to_bits());
    newest.wet_gain = Volume::Linear(2.0f32.to_bits());

    // The control side diffed twice before the audio side ran: both batches
    // arrive in one block.
    let mut both = mid.diff(&base);
    both.extend(newest.diff(&mid));
    let mut at_once = ConvolutionProcessor::new(base.clone(), &stereo_config());
    let d = at_once.begin_block(both);
    at_once.finish_block(&d);

    // Another processor drains them one block after the other.
    let mut in_turn = ConvolutionProcessor::new(base.clone(), &stereo_config());
    let d = in_turn.begin_block(mid.diff(&base));
    in_turn.finish_block(&d);
    let d = in_turn.begin_block(newest.diff(&mid));
    in_turn.finish_block(&d);

    // Same end state either way, and the last written value of each field
    // wins.
    assert_eq!(at_once.params.mix, in_turn.params.mix);
    assert_eq!(at_once.params.wet_gain, in_turn.params.wet_gain);
    assert_eq!(at_once.params.paused, in_turn.params.paused);
    assert_eq!(at_once.params.mix, Mix(0.9f32.to_bits()));
}

#[test]
fn loading_then_unloading_in_one_batch_still_reinitializes_engines() {
    let ir = ir_from(&[vec![1.0, 0.5]]);
    let record = ConvolutionNode::default();
    let mut proc_state = ConvolutionProcessor::new(record, &stereo_config());
    let d = proc_state.begin_block(vec![
        ConvolutionNodePatch::ImpulseResponse(Some(ir.clone())),
        ConvolutionNodePatch::ImpulseResponse(None),
    ]);
    // The reference ends up empty, so the block bypasses; the engines were
    // nevertheless re-initialized from the load that preceded the unload.
    assert_eq!(d.outcome, BlockOutcome::Bypass);
    assert!(d.ir_changed);
    let init = d.engine_init.as_ref().unwrap();
    assert_eq!(*init.ir, *ir);
    assert_eq!(init.sources, vec![0, 0]);
    assert!(proc_state.params.impulse_response.is_none());
}

#[test]
fn unloading_the_response_returns_to_bypass() {
    let mut record = ConvolutionNode::default();
    record.impulse_response = Some(ir_from(&[vec![1.0], vec![1.0]]));
    let mut proc_state = ConvolutionProcessor::new(record, &stereo_config());
    let d = proc_state.begin_block(vec![ConvolutionNodePatch::ImpulseResponse(None)]);
    assert_eq!(d.outcome, BlockOutcome::Bypass);
    assert!(d.ir_changed);
    assert!(d.engine_init.is_none());
}
