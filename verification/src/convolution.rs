//! The convolution effect node: a parameter record with a field-level
//! diff/patch protocol, and the control logic of its real-time processor.
//!
//! The control side mutates a [`ConvolutionNode`] record and diffs it against
//! the last value sent; the resulting [`ConvolutionNodePatch`] batch reaches
//! the processor, which drains it at the start of every render block, updates
//! its mirrored record, and decides what the block does: clear the outputs,
//! bypass, or convolve. The floating-point rendering itself (convolution,
//! gain ramps, fades) is the rendering side's work, steered by the
//! [`BlockDirective`] the drain produces.

use vstd::prelude::*;
use std::sync::Arc;
use crate::RawSample;
use crate::dsp::{Mix, FadeCurve, Volume, MIX_CENTER_BITS, DB_MINUS_20_BITS};
use crate::sample_resource::bufs_view;
use vstd::std_specs::cmp::PartialEqSpec;

verus! {

/// A shared, read-only impulse response: one raw float sample array per
/// channel. Swapping impulse responses replaces the reference, never the
/// shared data.
pub type SharedIr = Arc<Vec<Vec<RawSample>>>;

/// The per-channel samples of a shared impulse response.
pub open spec fn ir_channels(ir: SharedIr) -> Seq<Seq<RawSample>> {
    bufs_view(ir@)
}

/// A usable impulse response holds at least one channel.
pub open spec fn ir_wf(ir: SharedIr) -> bool {
    ir@.len() >= 1
}

/// Whether two optional impulse-response references hold the same audio.
pub open spec fn ir_opt_eq(a: Option<SharedIr>, b: Option<SharedIr>) -> bool {
    match (a, b) {
        (Option::None, Option::None) => true,
        (Option::Some(x), Option::Some(y)) => ir_channels(x) == ir_channels(y),
        _ => false,
    }
}

/// The parameter record of a convolution node: its full configurable
/// state, owned by the control side and mirrored inside the processor.
#[derive(Clone)]
pub struct ConvolutionNode {
    /// When true, the node holds its state and renders silence; pausing
    /// takes effect after the block that receives it, resuming at once.
    pub paused: bool,
    /// The wet/dry mix.
    pub mix: Mix,
    /// The curve the mix engine fades with.
    pub fade_curve: FadeCurve,
    /// The impulse response, or `None` to pass input through unchanged.
    pub impulse_response: Option<SharedIr>,
    /// The gain applied to the wet signal; the convolved signal is typically
    /// much louder than the dry input, so it defaults to an attenuation.
    pub wet_gain: Volume,
}

impl Default for ConvolutionNode {
    fn default() -> (r: Self)
        ensures
            r.paused == false,
            r.mix == Mix(MIX_CENTER_BITS),
            r.fade_curve == FadeCurve::EqualPower3dB,
            r.impulse_response is None,
            r.wet_gain == Volume::Decibels(DB_MINUS_20_BITS),
    {
        ConvolutionNode {
            paused: false,
            mix: Mix(MIX_CENTER_BITS),
            fade_curve: FadeCurve::EqualPower3dB,
            impulse_response: None,
            wet_gain: Volume::Decibels(DB_MINUS_20_BITS),
        }
    }
}

/// A field-scoped change to a [`ConvolutionNode`] record, carrying the
/// field's new value; one variant per mutable field, in field order.
pub enum ConvolutionNodePatch {
    /// A new value for the paused flag.
    Paused(bool),
    /// A new wet/dry mix.
    Mix(Mix),
    /// A new fade curve.
    FadeCurve(FadeCurve),
    /// A new impulse response, or none.
    ImpulseResponse(Option<SharedIr>),
    /// A new wet gain.
    WetGain(Volume),
}

/// Whether two records agree on every field, impulse responses compared by
/// their audio.
pub open spec fn params_equal(a: ConvolutionNode, b: ConvolutionNode) -> bool {
    &&& a.paused == b.paused
    &&& a.mix == b.mix
    &&& a.fade_curve == b.fade_curve
    &&& ir_opt_eq(a.impulse_response, b.impulse_response)
    &&& a.wet_gain == b.wet_gain
}

/// The patches that diffing `new` against `base` emits: one per changed
/// field, in field-declaration order, carrying the field's new value.
pub open spec fn spec_diff(new: ConvolutionNode, base: ConvolutionNode) -> Seq<ConvolutionNodePatch> {
    (if new.paused != base.paused {
        seq![ConvolutionNodePatch::Paused(new.paused)]
    } else {
        Seq::<ConvolutionNodePatch>::empty()
    }) + (if new.mix != base.mix {
        seq![ConvolutionNodePatch::Mix(new.mix)]
    } else {
        Seq::<ConvolutionNodePatch>::empty()
    }) + (if new.fade_curve != base.fade_curve {
        seq![ConvolutionNodePatch::FadeCurve(new.fade_curve)]
    } else {
        Seq::<ConvolutionNodePatch>::empty()
    }) + (if !ir_opt_eq(new.impulse_response, base.impulse_response) {
        seq![ConvolutionNodePatch::ImpulseResponse(new.impulse_response)]
    } else {
        Seq::<ConvolutionNodePatch>::empty()
    }) + (if new.wet_gain != base.wet_gain {
        seq![ConvolutionNodePatch::WetGain(new.wet_gain)]
    } else {
        Seq::<ConvolutionNodePatch>::empty()
    })
}

/// Vector equality on per-channel sample data coincides with equality of
/// the sample sequences themselves.
proof fn lemma_channels_eq_spec(a: &Vec<Vec<RawSample>>, b: &Vec<Vec<RawSample>>)
    ensures
        a.eq_spec(b) <==> bufs_view(a@) == bufs_view(b@),
{
    if a.eq_spec(b) {
        assert forall|c: int| 0 <= c < a@.len() implies
            #[trigger] bufs_view(a@)[c] == bufs_view(b@)[c] by {
            assert(a@[c].eq_spec(&b@[c]));
            assert(a@[c]@ =~= b@[c]@);
        }
        assert(bufs_view(a@) =~= bufs_view(b@));
    }
    if bufs_view(a@) == bufs_view(b@) {
        assert(bufs_view(a@).len() == bufs_view(b@).len());
        assert forall|c: int| 0 <= c < a@.len() implies #[trigger] a@[c].eq_spec(&b@[c]) by {
            assert(bufs_view(a@)[c] == bufs_view(b@)[c]);
            assert(a@[c]@ == b@[c]@);
            assert forall|i: int| 0 <= i < a@[c]@.len() implies
                #[trigger] a@[c]@[i].eq_spec(&b@[c]@[i]) by {
                assert(a@[c]@[i] == b@[c]@[i]);
            }
        }
    }
}

/// Whether two shared impulse responses hold the same audio.
fn ir_data_eq(a: &SharedIr, b: &SharedIr) -> (r: bool)
    ensures
        r == (ir_channels(*a) == ir_channels(*b)),
{
    let r = **a == **b;
    proof {
        lemma_channels_eq_spec(&**a, &**b);
    }
    r
}

impl ConvolutionNode {
    /// Compares this record against the value last sent and emits one patch
    /// per changed field, in field-declaration order, so that the last
    /// written value of every field reaches the processor.
    pub fn diff(&self, baseline: &Self) -> (patches: Vec<ConvolutionNodePatch>)
        ensures
            patches@ == spec_diff(*self, *baseline),
    {
        let mut patches: Vec<ConvolutionNodePatch> = Vec::new();
        if self.paused != baseline.paused {
            patches.push(ConvolutionNodePatch::Paused(self.paused));
        }
        if self.mix != baseline.mix {
            patches.push(ConvolutionNodePatch::Mix(self.mix));
        }
        if self.fade_curve != baseline.fade_curve {
            patches.push(ConvolutionNodePatch::FadeCurve(self.fade_curve));
        }
        let ir_same: bool = match (&self.impulse_response, &baseline.impulse_response) {
            (None, None) => true,
            (Some(a), Some(b)) => ir_data_eq(a, b),
            _ => false,
        };
        if !ir_same {
            let ir_value: Option<SharedIr> = match &self.impulse_response {
                Some(a) => Some(a.clone()),
                None => None,
            };
            patches.push(ConvolutionNodePatch::ImpulseResponse(ir_value));
        }
        if self.wet_gain != baseline.wet_gain {
            patches.push(ConvolutionNodePatch::WetGain(self.wet_gain));
        }
        proof {
            assert(patches@ =~= spec_diff(*self, *baseline));
        }
        patches
    }
}

/// Diffing two records that agree on every field yields no patches at all.
pub proof fn lemma_diff_identical(a: ConvolutionNode, b: ConvolutionNode)
    requires
        params_equal(a, b),
    ensures
        spec_diff(a, b) == Seq::<ConvolutionNodePatch>::empty(),
{
    assert(spec_diff(a, b) =~= Seq::<ConvolutionNodePatch>::empty());
}

/// Diffing two records that differ in exactly one field yields exactly one
/// patch, naming that field and carrying its new value.
pub proof fn lemma_diff_single_field(a: ConvolutionNode, b: ConvolutionNode)
    requires
        a.paused != b.paused
            ==> a.mix == b.mix && a.fade_curve == b.fade_curve
                && ir_opt_eq(a.impulse_response, b.impulse_response)
                && a.wet_gain == b.wet_gain,
        a.mix != b.mix
            ==> a.paused == b.paused && a.fade_curve == b.fade_curve
                && ir_opt_eq(a.impulse_response, b.impulse_response)
                && a.wet_gain == b.wet_gain,
        a.fade_curve != b.fade_curve
            ==> a.paused == b.paused && a.mix == b.mix
                && ir_opt_eq(a.impulse_response, b.impulse_response)
                && a.wet_gain == b.wet_gain,
        !ir_opt_eq(a.impulse_response, b.impulse_response)
            ==> a.paused == b.paused && a.mix == b.mix && a.fade_curve == b.fade_curve
                && a.wet_gain == b.wet_gain,
        a.wet_gain != b.wet_gain
            ==> a.paused == b.paused && a.mix == b.mix && a.fade_curve == b.fade_curve
                && ir_opt_eq(a.impulse_response, b.impulse_response),
        !params_equal(a, b),
    ensures
        spec_diff(a, b).len() == 1,
        a.paused != b.paused ==> spec_diff(a, b)[0] == ConvolutionNodePatch::Paused(a.paused),
        a.mix != b.mix ==> spec_diff(a, b)[0] == ConvolutionNodePatch::Mix(a.mix),
        a.fade_curve != b.fade_curve
            ==> spec_diff(a, b)[0] == ConvolutionNodePatch::FadeCurve(a.fade_curve),
        !ir_opt_eq(a.impulse_response, b.impulse_response)
            ==> spec_diff(a, b)[0] == ConvolutionNodePatch::ImpulseResponse(a.impulse_response),
        a.wet_gain != b.wet_gain
            ==> spec_diff(a, b)[0] == ConvolutionNodePatch::WetGain(a.wet_gain),
{
}

/// The channel layout a node declares to the graph engine.
#[derive(Clone, Copy, Debug, PartialEq, Eq, Structural)]
pub struct ChannelConfig {
    /// The number of input channels the node consumes per block.
    pub num_inputs: usize,
    /// The number of output channels the node fills per block.
    pub num_outputs: usize,
}

/// What a node reports about itself when it is instantiated into the graph.
#[derive(Clone, Copy, Debug, PartialEq, Eq, Structural)]
pub struct AudioNodeInfo {
    /// The node's channel layout.
    pub channel_config: ChannelConfig,
}

/// A fatal node misconfiguration, detected when the node is instantiated
/// and never retried.
#[derive(Clone, Copy, Debug, PartialEq, Eq, Structural)]
pub enum ConfigError {
    /// The node was declared with more channels than convolution supports.
    UnsupportedChannelCount,
}

/// Node configuration fixed when the node is instantiated into the graph
/// and validated once, so the hot path never branches on an invalid value.
#[derive(Clone, Copy, Debug, PartialEq, Eq, Structural)]
pub struct ConvolutionNodeConfig {
    /// The node's channel count, one (mono) or two (stereo); any higher
    /// value is a fatal configuration error.
    pub channels: usize,
    /// The maximum number of impulse-response channels the node allocates
    /// convolution engines for (one or two); loading an impulse response
    /// with more channels leaves the extra channels unused.
    pub max_impulse_channel_count: u32,
}

impl Default for ConvolutionNodeConfig {
    fn default() -> (r: Self)
        ensures
            r.channels == 2,
            r.max_impulse_channel_count == 2,
    {
        ConvolutionNodeConfig { channels: 2, max_impulse_channel_count: 2 }
    }
}

impl ConvolutionNode {
    /// The node's report to the graph engine: as many inputs as outputs,
    /// fixed by the configured channel count. Only mono and stereo nodes
    /// exist, which the caller establishes through
    /// [`ConvolutionNode::try_info`].
    pub fn info(&self, configuration: &ConvolutionNodeConfig) -> (r: AudioNodeInfo)
        requires
            configuration.channels <= 2,
        ensures
            r.channel_config.num_inputs == configuration.channels,
            r.channel_config.num_outputs == configuration.channels,
    {
        AudioNodeInfo {
            channel_config: ChannelConfig {
                num_inputs: configuration.channels,
                num_outputs: configuration.channels,
            },
        }
    }

    /// The node's report to the graph engine, rejecting a channel count
    /// above two: such a node is a fatal misconfiguration, never a runtime
    /// condition to recover from.
    pub fn try_info(&self, configuration: &ConvolutionNodeConfig) -> (r: Result<
        AudioNodeInfo,
        ConfigError,
    >)
        ensures
            (configuration.channels <= 2) == (r is Ok),
            r matches Ok(info) ==> info.channel_config.num_inputs == configuration.channels
                && info.channel_config.num_outputs == configuration.channels,
            r matches Err(e) ==> e == ConfigError::UnsupportedChannelCount,
    {
        if configuration.channels <= 2 {
            Ok(self.info(configuration))
        } else {
            Err(ConfigError::UnsupportedChannelCount)
        }
    }
}

/// What a render block does, decided once its patch batch is drained.
#[derive(Clone, Copy, Debug, PartialEq, Eq, Structural)]
pub enum BlockOutcome {
    /// The node is paused: clear every output buffer and do nothing else.
    ClearAllOutputs,
    /// No impulse response is loaded: the output is exactly the input.
    Bypass,
    /// Run the full convolution chain over the block.
    Process,
}

/// The outcome a processor reports for one render block.
#[derive(Clone, Copy, Debug, PartialEq, Eq, Structural)]
pub enum ProcessStatus {
    /// Every output buffer was cleared to silence.
    ClearAllOutputs,
    /// Outputs are exactly the inputs; the engine may skip the copy.
    Bypass,
    /// Outputs hold produced audio; a set bit in the mask flags an output
    /// channel whose samples are all effectively silent, so downstream
    /// consumers can skip silent tails.
    OutputsModified {
        /// One bit per output channel, lowest bit first.
        out_silence_mask: u64,
    },
}

/// Re-initialization of the per-channel convolution engines from a newly
/// loaded impulse response.
pub struct EngineInit {
    /// The impulse response to read taps from.
    pub ir: SharedIr,
    /// For each engine, the impulse-response channel it reads.
    pub sources: Vec<usize>,
}

/// Everything one render block must do, decided by
/// [`ConvolutionProcessor::begin_block`] after draining the block's patches.
pub struct BlockDirective {
    /// The mix engine retarget carrying the record's new mix and curve, if
    /// any mix or fade-curve patch arrived.
    pub retarget_mix: Option<(Mix, FadeCurve)>,
    /// The wet-gain smoother retarget, if a wet-gain patch arrived.
    pub retarget_wet_gain: Option<Volume>,
    /// The enable/disable declick fade to begin, driven by the last pause
    /// or resume patch: fading in on resume, out on pause.
    pub declick_fade_to_enabled: Option<bool>,
    /// Whether the impulse response changed this block, which restarts the
    /// dedicated slow swap crossfade.
    pub ir_changed: bool,
    /// The engine re-initialization to perform, if an impulse response was
    /// loaded this block.
    pub engine_init: Option<EngineInit>,
    /// Whether a pause arrived this block, to be applied by
    /// [`ConvolutionProcessor::finish_block`] once the block's work is done.
    pub will_pause: bool,
    /// What the block does.
    pub outcome: BlockOutcome,
}

/// A record after one patch: a resume applies at once, a pause leaves the
/// record alone (it is deferred to the end of the block), and every other
/// patch stores its field's new value.
pub open spec fn apply_patch(p: ConvolutionNode, patch: ConvolutionNodePatch) -> ConvolutionNode {
    match patch {
        ConvolutionNodePatch::Paused(b) => if !b {
            ConvolutionNode { paused: false, ..p }
        } else {
            p
        },
        ConvolutionNodePatch::Mix(m) => ConvolutionNode { mix: m, ..p },
        ConvolutionNodePatch::FadeCurve(c) => ConvolutionNode { fade_curve: c, ..p },
        ConvolutionNodePatch::ImpulseResponse(ir) => ConvolutionNode {
            impulse_response: ir,
            ..p
        },
        ConvolutionNodePatch::WetGain(g) => ConvolutionNode { wet_gain: g, ..p },
    }
}

/// A record after a whole patch batch, applied in arrival order.
pub open spec fn apply_patches(
    p: ConvolutionNode,
    patches: Seq<ConvolutionNodePatch>,
) -> ConvolutionNode
    decreases patches.len(),
{
    if patches.len() == 0 {
        p
    } else {
        apply_patch(apply_patches(p, patches.drop_last()), patches.last())
    }
}

/// Whether a batch requests a pause, which is applied after the block.
pub open spec fn spec_will_pause(patches: Seq<ConvolutionNodePatch>) -> bool
    decreases patches.len(),
{
    if patches.len() == 0 {
        false
    } else {
        spec_will_pause(patches.drop_last()) || match patches.last() {
            ConvolutionNodePatch::Paused(b) => b,
            _ => false,
        }
    }
}

/// Whether a batch replaces the impulse response (with audio or with none).
pub open spec fn spec_ir_changed(patches: Seq<ConvolutionNodePatch>) -> bool
    decreases patches.len(),
{
    if patches.len() == 0 {
        false
    } else {
        spec_ir_changed(patches.drop_last()) || patches.last() matches
            ConvolutionNodePatch::ImpulseResponse(_)
    }
}

/// Whether a batch touches the mix engine: a mix or fade-curve patch.
pub open spec fn spec_mix_retargeted(patches: Seq<ConvolutionNodePatch>) -> bool
    decreases patches.len(),
{
    if patches.len() == 0 {
        false
    } else {
        spec_mix_retargeted(patches.drop_last()) || match patches.last() {
            ConvolutionNodePatch::Mix(_) => true,
            ConvolutionNodePatch::FadeCurve(_) => true,
            _ => false,
        }
    }
}

/// Whether a batch retargets the wet-gain smoother.
pub open spec fn spec_gain_retargeted(patches: Seq<ConvolutionNodePatch>) -> bool
    decreases patches.len(),
{
    if patches.len() == 0 {
        false
    } else {
        spec_gain_retargeted(patches.drop_last()) || patches.last() matches
            ConvolutionNodePatch::WetGain(_)
    }
}

/// The declick fade a batch requests: toward signal on a resume, toward
/// silence on a pause, the last pause or resume patch winning.
pub open spec fn spec_declick_target(patches: Seq<ConvolutionNodePatch>) -> Option<bool>
    decreases patches.len(),
{
    if patches.len() == 0 {
        None
    } else {
        match patches.last() {
            ConvolutionNodePatch::Paused(b) => Some(!b),
            _ => spec_declick_target(patches.drop_last()),
        }
    }
}

/// The impulse response the engines end up initialized from: the last one a
/// batch loads. Unloading (a patch carrying no response) replaces the
/// reference but re-initializes no engine.
pub open spec fn spec_last_loaded_ir(patches: Seq<ConvolutionNodePatch>) -> Option<SharedIr>
    decreases patches.len(),
{
    if patches.len() == 0 {
        None
    } else {
        match patches.last() {
            ConvolutionNodePatch::ImpulseResponse(Some(ir)) => Some(ir),
            _ => spec_last_loaded_ir(patches.drop_last()),
        }
    }
}

/// Every impulse response a batch loads holds at least one channel.
pub open spec fn patches_wf(patches: Seq<ConvolutionNodePatch>) -> bool {
    forall|i: int| 0 <= i < patches.len() ==> match #[trigger] patches[i] {
        ConvolutionNodePatch::ImpulseResponse(Some(ir)) => ir_wf(ir),
        _ => true,
    }
}

/// The impulse-response channel engine `e` is initialized from: its own
/// channel where the response has one, else channel zero, so a mono
/// response feeds every engine.
pub open spec fn spec_engine_source(ir: SharedIr, e: int) -> int {
    if e < ir@.len() {
        e
    } else {
        0
    }
}

/// What a block does once its patches are drained: a paused node clears its
/// outputs, a node without an impulse response bypasses, any other node
/// convolves.
pub open spec fn spec_outcome(
    p: ConvolutionNode,
    patches: Seq<ConvolutionNodePatch>,
) -> BlockOutcome {
    let drained = apply_patches(p, patches);
    if drained.paused {
        BlockOutcome::ClearAllOutputs
    } else if drained.impulse_response is None {
        BlockOutcome::Bypass
    } else {
        BlockOutcome::Process
    }
}

/// The record a processor holds once a block's deferred pause is applied.
pub open spec fn spec_finish(
    p: ConvolutionNode,
    outcome: BlockOutcome,
    will_pause: bool,
) -> ConvolutionNode {
    if outcome is Process && will_pause {
        ConvolutionNode { paused: true, ..p }
    } else {
        p
    }
}

/// Queued batches compose: draining two batches in one block leaves the
/// record exactly as draining them one block after the other would, so a
/// control side that outpaces the audio side loses no update.
pub proof fn lemma_apply_patches_append(
    p: ConvolutionNode,
    first: Seq<ConvolutionNodePatch>,
    second: Seq<ConvolutionNodePatch>,
)
    ensures
        apply_patches(p, first + second) == apply_patches(apply_patches(p, first), second),
    decreases second.len(),
{
    if second.len() == 0 {
        assert(first + second =~= first);
    } else {
        assert((first + second).drop_last() =~= first + second.drop_last());
        lemma_apply_patches_append(p, first, second.drop_last());
    }
}

/// Applying a single patch.
proof fn lemma_apply_patches_singleton(p: ConvolutionNode, patch: ConvolutionNodePatch)
    ensures
        apply_patches(p, seq![patch]) == apply_patch(p, patch),
        spec_will_pause(seq![patch]) == (patch matches ConvolutionNodePatch::Paused(b) && b),
{
    let s = seq![patch];
    assert(s.drop_last() =~= Seq::<ConvolutionNodePatch>::empty());
    assert(s.last() == patch);
    assert(apply_patches(p, s.drop_last()) == p);
    assert(!spec_will_pause(s.drop_last()));
}

/// The diffing step preserves last-writer-wins per field: draining the
/// patches that diffing `new` against `base` emits turns a record mirroring
/// `base` into one agreeing with `new` on every immediate field, and the
/// pause flag reaches it through its two-phase path — a resume at once, a
/// pause when the block that drained it finishes.
pub proof fn lemma_diff_drain_round_trip(new: ConvolutionNode, base: ConvolutionNode)
    ensures
        apply_patches(base, spec_diff(new, base)).mix == new.mix,
        apply_patches(base, spec_diff(new, base)).fade_curve == new.fade_curve,
        ir_opt_eq(apply_patches(base, spec_diff(new, base)).impulse_response,
            new.impulse_response),
        apply_patches(base, spec_diff(new, base)).wet_gain == new.wet_gain,
        !new.paused ==> !apply_patches(base, spec_diff(new, base)).paused,
        new.paused && base.paused ==> apply_patches(base, spec_diff(new, base)).paused,
        spec_will_pause(spec_diff(new, base)) == (new.paused && !base.paused),
        new.paused ==> spec_finish(
            apply_patches(base, spec_diff(new, base)),
            BlockOutcome::Process,
            spec_will_pause(spec_diff(new, base)),
        ).paused,
{
    let s1 = if new.paused != base.paused {
        seq![ConvolutionNodePatch::Paused(new.paused)]
    } else {
        Seq::<ConvolutionNodePatch>::empty()
    };
    let s2 = if new.mix != base.mix {
        seq![ConvolutionNodePatch::Mix(new.mix)]
    } else {
        Seq::<ConvolutionNodePatch>::empty()
    };
    let s3 = if new.fade_curve != base.fade_curve {
        seq![ConvolutionNodePatch::FadeCurve(new.fade_curve)]
    } else {
        Seq::<ConvolutionNodePatch>::empty()
    };
    let s4 = if !ir_opt_eq(new.impulse_response, base.impulse_response) {
        seq![ConvolutionNodePatch::ImpulseResponse(new.impulse_response)]
    } else {
        Seq::<ConvolutionNodePatch>::empty()
    };
    let s5 = if new.wet_gain != base.wet_gain {
        seq![ConvolutionNodePatch::WetGain(new.wet_gain)]
    } else {
        Seq::<ConvolutionNodePatch>::empty()
    };
    assert(spec_diff(new, base) == s1 + s2 + s3 + s4 + s5);
    let p1 = apply_patches(base, s1);
    let p2 = apply_patches(p1, s2);
    let p3 = apply_patches(p2, s3);
    let p4 = apply_patches(p3, s4);
    let p5 = apply_patches(p4, s5);
    lemma_apply_patches_append(base, s1, s2);
    lemma_apply_patches_append(base, s1 + s2, s3);
    lemma_apply_patches_append(base, s1 + s2 + s3, s4);
    lemma_apply_patches_append(base, s1 + s2 + s3 + s4, s5);
    if new.paused != base.paused {
        lemma_apply_patches_singleton(base, ConvolutionNodePatch::Paused(new.paused));
    }
    if new.mix != base.mix {
        lemma_apply_patches_singleton(p1, ConvolutionNodePatch::Mix(new.mix));
    }
    if new.fade_curve != base.fade_curve {
        lemma_apply_patches_singleton(p2, ConvolutionNodePatch::FadeCurve(new.fade_curve));
    }
    if !ir_opt_eq(new.impulse_response, base.impulse_response) {
        lemma_apply_patches_singleton(
            p3,
            ConvolutionNodePatch::ImpulseResponse(new.impulse_response),
        );
    }
    if new.wet_gain != base.wet_gain {
        lemma_apply_patches_singleton(p4, ConvolutionNodePatch::WetGain(new.wet_gain));
    }
    assert(apply_patches(base, spec_diff(new, base)) == p5);
    lemma_will_pause_concat(s1, s2, s3, s4, s5);
    if new.paused != base.paused {
        lemma_apply_patches_singleton(base, ConvolutionNodePatch::Paused(new.paused));
        assert(spec_will_pause(s1) == new.paused);
    } else {
        assert(!spec_will_pause(s1));
    }
}

/// Only a pause patch makes a batch of the diff's shape request a pause.
proof fn lemma_will_pause_concat(
    s1: Seq<ConvolutionNodePatch>,
    s2: Seq<ConvolutionNodePatch>,
    s3: Seq<ConvolutionNodePatch>,
    s4: Seq<ConvolutionNodePatch>,
    s5: Seq<ConvolutionNodePatch>,
)
    requires
        forall|i: int| 0 <= i < s2.len() ==>
            !(#[trigger] s2[i] matches ConvolutionNodePatch::Paused(_)),
        forall|i: int| 0 <= i < s3.len() ==>
            !(#[trigger] s3[i] matches ConvolutionNodePatch::Paused(_)),
        forall|i: int| 0 <= i < s4.len() ==>
            !(#[trigger] s4[i] matches ConvolutionNodePatch::Paused(_)),
        forall|i: int| 0 <= i < s5.len() ==>
            !(#[trigger] s5[i] matches ConvolutionNodePatch::Paused(_)),
    ensures
        spec_will_pause(s1 + s2 + s3 + s4 + s5) == spec_will_pause(s1),
{
    lemma_will_pause_append_no_pause(s1 + s2 + s3 + s4, s5);
    lemma_will_pause_append_no_pause(s1 + s2 + s3, s4);
    lemma_will_pause_append_no_pause(s1 + s2, s3);
    lemma_will_pause_append_no_pause(s1, s2);
}

/// Appending patches that touch no pause flag leaves a batch's pause
/// request as it was.
proof fn lemma_will_pause_append_no_pause(
    first: Seq<ConvolutionNodePatch>,
    second: Seq<ConvolutionNodePatch>,
)
    requires
        forall|i: int| 0 <= i < second.len() ==>
            !(#[trigger] second[i] matches ConvolutionNodePatch::Paused(_)),
    ensures
        spec_will_pause(first + second) == spec_will_pause(first),
    decreases second.len(),
{
    if second.len() == 0 {
        assert(first + second =~= first);
    } else {
        assert((first + second).drop_last() =~= first + second.drop_last());
        assert(forall|i: int| 0 <= i < second.drop_last().len() ==>
            !(#[trigger] second.drop_last()[i] matches ConvolutionNodePatch::Paused(_)));
        lemma_will_pause_append_no_pause(first, second.drop_last());
    }
}

/// Splitting a batch one patch before its end.
proof fn lemma_subrange_push<T>(s: Seq<T>, i: int)
    requires
        0 <= i < s.len(),
    ensures
        s.subrange(0, i + 1).drop_last() == s.subrange(0, i),
        s.subrange(0, i + 1).last() == s[i],
{
    assert(s.subrange(0, i + 1).drop_last() =~= s.subrange(0, i));
}

/// For each of the node's engines, the impulse-response channel it is
/// initialized from.
pub fn engine_source_channels(ir: &SharedIr, channels: usize) -> (sources: Vec<usize>)
    requires
        ir_wf(*ir),
    ensures
        sources@.len() == channels,
        forall|e: int| 0 <= e < channels ==> #[trigger] sources@[e] == spec_engine_source(*ir, e),
{
    let ir_len = (**ir).len();
    let mut sources: Vec<usize> = Vec::new();
    let mut e: usize = 0;
    while e < channels
        invariant
            0 <= e <= channels,
            ir_len == ir@.len(),
            sources@.len() == e,
            forall|k: int| 0 <= k < e ==> #[trigger] sources@[k] == spec_engine_source(*ir, k),
        decreases channels - e,
    {
        if e < ir_len {
            sources.push(e);
        } else {
            sources.push(0);
        }
        e += 1;
    }
    sources
}

/// The audio-thread half of a convolution node: the mirrored parameter
/// record, updated only by draining patches, and the drain-and-decide step
/// run at the start of every render block.
pub struct ConvolutionProcessor {
    /// The node's channel count, validated at construction.
    pub channels: usize,
    /// The processor's own copy of the parameter record.
    pub params: ConvolutionNode,
}

impl ConvolutionProcessor {
    /// Constructs the processor state for a node instantiated into the
    /// graph, mirroring the record's current value. The caller has already
    /// validated the configuration through [`ConvolutionNode::try_info`].
    pub fn new(params: ConvolutionNode, configuration: &ConvolutionNodeConfig) -> (r: Self)
        requires
            configuration.channels <= 2,
        ensures
            r.channels == configuration.channels,
            r.params == params,
    {
        ConvolutionProcessor { channels: configuration.channels, params }
    }

    /// Drains a block's pending patches in arrival order into the mirrored
    /// record and decides what the block does.
    ///
    /// A resume takes effect at once; a pause lets the block finish and is
    /// applied by [`ConvolutionProcessor::finish_block`]. Loading an impulse
    /// response re-initializes one convolution engine per node channel,
    /// falling back to the response's first channel where it has fewer
    /// channels than the node.
    pub fn begin_block(&mut self, patches: Vec<ConvolutionNodePatch>) -> (d: BlockDirective)
        requires
            patches_wf(patches@),
        ensures
            final(self).channels == old(self).channels,
            final(self).params == apply_patches(old(self).params, patches@),
            d.outcome == spec_outcome(old(self).params, patches@),
            d.will_pause == spec_will_pause(patches@),
            d.ir_changed == spec_ir_changed(patches@),
            d.declick_fade_to_enabled == spec_declick_target(patches@),
            d.retarget_mix == (if spec_mix_retargeted(patches@) {
                Some((apply_patches(old(self).params, patches@).mix, apply_patches(
                    old(self).params,
                    patches@,
                ).fade_curve))
            } else {
                Option::<(Mix, FadeCurve)>::None
            }),
            d.retarget_wet_gain == (if spec_gain_retargeted(patches@) {
                Some(apply_patches(old(self).params, patches@).wet_gain)
            } else {
                Option::<Volume>::None
            }),
            (d.engine_init is Some) == (spec_last_loaded_ir(patches@) is Some),
            d.engine_init matches Some(ei) ==> spec_last_loaded_ir(patches@) == Some(ei.ir)
                && ei.sources@.len() == old(self).channels
                && forall|e: int| 0 <= e < old(self).channels ==> #[trigger] ei.sources@[e]
                    == spec_engine_source(ei.ir, e),
    {
        let ghost all = patches@;
        let mut will_pause = false;
        let mut ir_changed = false;
        let mut mix_retargeted = false;
        let mut gain_retargeted = false;
        let mut declick: Option<bool> = None;
        let mut last_ir: Option<SharedIr> = None;
        let mut i: usize = 0;
        while i < patches.len()
            invariant
                0 <= i <= all.len(),
                patches@ == all,
                patches_wf(all),
                self.channels == old(self).channels,
                self.params == apply_patches(old(self).params, all.subrange(0, i as int)),
                will_pause == spec_will_pause(all.subrange(0, i as int)),
                ir_changed == spec_ir_changed(all.subrange(0, i as int)),
                mix_retargeted == spec_mix_retargeted(all.subrange(0, i as int)),
                gain_retargeted == spec_gain_retargeted(all.subrange(0, i as int)),
                declick == spec_declick_target(all.subrange(0, i as int)),
                last_ir == spec_last_loaded_ir(all.subrange(0, i as int)),
                last_ir matches Some(ir) ==> ir_wf(ir),
            decreases all.len() - i,
        {
            proof {
                lemma_subrange_push(all, i as int);
            }
            let p = &patches[i];
            match p {
                ConvolutionNodePatch::Paused(b) => {
                    if !*b {
                        self.params.paused = false;
                    } else {
                        will_pause = true;
                    }
                    declick = Some(!*b);
                },
                ConvolutionNodePatch::Mix(m) => {
                    self.params.mix = *m;
                    mix_retargeted = true;
                },
                ConvolutionNodePatch::FadeCurve(c) => {
                    self.params.fade_curve = *c;
                    mix_retargeted = true;
                },
                ConvolutionNodePatch::ImpulseResponse(ir) => {
                    ir_changed = true;
                    let ir_value: Option<SharedIr> = match ir {
                        Some(a) => {
                            last_ir = Some(a.clone());
                            Some(a.clone())
                        },
                        None => None,
                    };
                    self.params.impulse_response = ir_value;
                },
                ConvolutionNodePatch::WetGain(g) => {
                    self.params.wet_gain = *g;
                    gain_retargeted = true;
                },
            }
            i += 1;
        }
        proof {
            assert(all.subrange(0, all.len() as int) =~= all);
        }
        let engine_init: Option<EngineInit> = match last_ir {
            Some(ir) => {
                let sources = engine_source_channels(&ir, self.channels);
                Some(EngineInit { ir, sources })
            },
            None => None,
        };
        let retarget_mix: Option<(Mix, FadeCurve)> = if mix_retargeted {
            Some((self.params.mix, self.params.fade_curve))
        } else {
            None
        };
        let retarget_wet_gain: Option<Volume> = if gain_retargeted {
            Some(self.params.wet_gain)
        } else {
            None
        };
        let outcome = if self.params.paused {
            BlockOutcome::ClearAllOutputs
        } else if self.params.impulse_response.is_none() {
            BlockOutcome::Bypass
        } else {
            BlockOutcome::Process
        };
        BlockDirective {
            retarget_mix,
            retarget_wet_gain,
            declick_fade_to_enabled: declick,
            ir_changed,
            engine_init,
            will_pause,
            outcome,
        }
    }

    /// Applies a block's deferred pause once its DSP work is done: a pause
    /// requested this block takes effect for the next one. Blocks that were
    /// cleared or bypassed advance no state.
    pub fn finish_block(&mut self, directive: &BlockDirective)
        ensures
            final(self).channels == old(self).channels,
            final(self).params == spec_finish(
                old(self).params,
                directive.outcome,
                directive.will_pause,
            ),
    {
        if let BlockOutcome::Process = directive.outcome {
            if directive.will_pause {
                self.params.paused = true;
            }
        }
    }
}

/// Clears the first `frames` samples of every output buffer to silence
/// (the zero bit pattern), leaving everything past `frames` untouched.
pub fn clear_output_buffers(outputs: &mut Vec<Vec<RawSample>>, frames: usize)
    requires
        forall|c: int| 0 <= c < old(outputs)@.len() ==>
            frames <= #[trigger] old(outputs)@[c]@.len(),
    ensures
        final(outputs)@.len() == old(outputs)@.len(),
        forall|c: int| 0 <= c < old(outputs)@.len() ==>
            #[trigger] final(outputs)@[c]@.len() == old(outputs)@[c]@.len(),
        forall|c: int, j: int| 0 <= c < old(outputs)@.len() && 0 <= j < frames ==>
            #[trigger] final(outputs)@[c]@[j] == 0u32,
        forall|c: int, j: int|
            0 <= c < old(outputs)@.len() && frames <= j < old(outputs)@[c]@.len() ==>
            #[trigger] final(outputs)@[c]@[j] == old(outputs)@[c]@[j],
{
    let n = outputs.len();
    let mut c: usize = 0;
    while c < n
        invariant
            0 <= c <= n,
            n == outputs@.len() == old(outputs)@.len(),
            forall|k: int| 0 <= k < old(outputs)@.len() ==>
                frames <= #[trigger] old(outputs)@[k]@.len(),
            forall|k: int| c <= k < n ==> outputs@[k] == old(outputs)@[k],
            forall|k: int| 0 <= k < c ==>
                #[trigger] outputs@[k]@.len() == old(outputs)@[k]@.len(),
            forall|k: int, j: int| 0 <= k < c && 0 <= j < frames ==>
                #[trigger] outputs@[k]@[j] == 0u32,
            forall|k: int, j: int| 0 <= k < c && frames <= j < old(outputs)@[k]@.len() ==>
                #[trigger] outputs@[k]@[j] == old(outputs)@[k]@[j],
        decreases n - c,
    {
        let b = &mut outputs[c];
        let ghost entry = b@;
        let mut j: usize = 0;
        while j < frames
            invariant
                0 <= j <= frames,
                frames <= b@.len(),
                b@.len() == entry.len(),
                forall|t: int| 0 <= t < j ==> #[trigger] b@[t] == 0u32,
                forall|t: int| j <= t < entry.len() ==> #[trigger] b@[t] == entry[t],
            decreases frames - j,
        {
            b[j] = 0u32;
            j += 1;
        }
        c += 1;
    }
}

/// Copies the first `frames` samples of each input buffer into the matching
/// output buffer: the bypass path, and the saving of a block's raw input as
/// the next block's time-aligned dry signal.
pub fn copy_block(inputs: &Vec<Vec<RawSample>>, outputs: &mut Vec<Vec<RawSample>>, frames: usize)
    requires
        inputs@.len() == old(outputs)@.len(),
        forall|c: int| 0 <= c < inputs@.len() ==> frames <= #[trigger] inputs@[c]@.len(),
        forall|c: int| 0 <= c < old(outputs)@.len() ==>
            frames <= #[trigger] old(outputs)@[c]@.len(),
    ensures
        final(outputs)@.len() == old(outputs)@.len(),
        forall|c: int| 0 <= c < old(outputs)@.len() ==>
            #[trigger] final(outputs)@[c]@.len() == old(outputs)@[c]@.len(),
        forall|c: int, j: int| 0 <= c < old(outputs)@.len() && 0 <= j < frames ==>
            #[trigger] final(outputs)@[c]@[j] == inputs@[c]@[j],
        forall|c: int, j: int|
            0 <= c < old(outputs)@.len() && frames <= j < old(outputs)@[c]@.len() ==>
            #[trigger] final(outputs)@[c]@[j] == old(outputs)@[c]@[j],
{
    let n = outputs.len();
    let mut c: usize = 0;
    while c < n
        invariant
            0 <= c <= n,
            n == outputs@.len() == old(outputs)@.len(),
            inputs@.len() == old(outputs)@.len(),
            forall|k: int| 0 <= k < inputs@.len() ==> frames <= #[trigger] inputs@[k]@.len(),
            forall|k: int| 0 <= k < old(outputs)@.len() ==>
                frames <= #[trigger] old(outputs)@[k]@.len(),
            forall|k: int| c <= k < n ==> outputs@[k] == old(outputs)@[k],
            forall|k: int| 0 <= k < c ==>
                #[trigger] outputs@[k]@.len() == old(outputs)@[k]@.len(),
            forall|k: int, j: int| 0 <= k < c && 0 <= j < frames ==>
                #[trigger] outputs@[k]@[j] == inputs@[k]@[j],
            forall|k: int, j: int| 0 <= k < c && frames <= j < old(outputs)@[k]@.len() ==>
                #[trigger] outputs@[k]@[j] == old(outputs)@[k]@[j],
        decreases n - c,
    {
        let src = &inputs[c];
        let b = &mut outputs[c];
        let ghost entry = b@;
        let mut j: usize = 0;
        while j < frames
            invariant
                0 <= j <= frames,
                frames <= b@.len(),
                frames <= src@.len(),
                b@.len() == entry.len(),
                forall|t: int| 0 <= t < j ==> #[trigger] b@[t] == src@[t],
                forall|t: int| j <= t < entry.len() ==> #[trigger] b@[t] == entry[t],
            decreases frames - j,
        {
            let v = src[j];
            b[j] = v;
            j += 1;
        }
        c += 1;
    }
}

/// A block whose drained record is paused clears every output, whatever the
/// input holds and whatever else the batch carried.
pub proof fn lemma_paused_block_is_silent(
    p: ConvolutionNode,
    patches: Seq<ConvolutionNodePatch>,
)
    requires
        apply_patches(p, patches).paused,
    ensures
        spec_outcome(p, patches) == BlockOutcome::ClearAllOutputs,
{
}

/// A block whose drained record is not paused and holds no impulse response
/// passes its input through unchanged, whatever the mix, gain and curve are.
pub proof fn lemma_no_impulse_response_bypasses(
    p: ConvolutionNode,
    patches: Seq<ConvolutionNodePatch>,
)
    requires
        !apply_patches(p, patches).paused,
        apply_patches(p, patches).impulse_response is None,
    ensures
        spec_outcome(p, patches) == BlockOutcome::Bypass,
{
}

/// A mono impulse response feeds every engine from its single channel: no
/// engine is left silent and none fails, whatever the node's channel count.
pub proof fn lemma_mono_ir_feeds_every_engine(ir: SharedIr, e: int)
    requires
        ir@.len() == 1,
        0 <= e,
    ensures
        spec_engine_source(ir, e) == 0,
{
}

/// Pausing is deferred by one block: the block whose patches request the
/// pause still runs its full chain, and the next block, with no further
/// patches, clears its outputs.
pub proof fn lemma_pause_deferred_one_block(
    p: ConvolutionNode,
    patches: Seq<ConvolutionNodePatch>,
)
    requires
        spec_outcome(p, patches) == BlockOutcome::Process,
        spec_will_pause(patches),
    ensures
        spec_outcome(
            spec_finish(apply_patches(p, patches), spec_outcome(p, patches), true),
            Seq::<ConvolutionNodePatch>::empty(),
        ) == BlockOutcome::ClearAllOutputs,
{
}

} // verus!
