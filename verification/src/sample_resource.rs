//! Reading multichannel recorded audio out of arbitrarily stored PCM data.
//!
//! A resource stores its samples either interleaved (one array, frame-major)
//! or de-interleaved (one array per channel). Filling a caller's per-channel
//! buffers from a sub-range of the resource is pure index arithmetic, stated
//! once as [`interleaved_fill`] and [`deinterleaved_fill`] and proved of every
//! filling strategy, so the optimized single-channel and two-channel paths
//! agree with the general path on every input.

use vstd::prelude::*;
use core::ops::Range;

verus! {

/// The per-channel sample sequences held by a set of per-channel buffers.
pub open spec fn bufs_view<S>(bufs: Seq<Vec<S>>) -> Seq<Seq<S>> {
    Seq::new(bufs.len(), |c: int| bufs[c]@)
}

/// What one destination channel holds after an interleaved fill: positions in
/// `[lo, hi)` hold the source sample of channel `ch` at the corresponding
/// frame, every other position keeps its old value.
pub open spec fn interleaved_filled_channel<S>(
    old_buf: Seq<S>,
    data: Seq<S>,
    ch: int,
    channels: int,
    lo: int,
    hi: int,
    start_frame: int,
) -> Seq<S> {
    Seq::new(old_buf.len(), |i: int|
        if lo <= i < hi {
            data[(start_frame + (i - lo)) * channels + ch]
        } else {
            old_buf[i]
        })
}

/// What all destination channels hold after an interleaved fill: the first
/// `channels` buffers are filled, any further buffers are left untouched.
pub open spec fn interleaved_fill<S>(
    bufs: Seq<Seq<S>>,
    data: Seq<S>,
    channels: int,
    lo: int,
    hi: int,
    start_frame: int,
) -> Seq<Seq<S>> {
    Seq::new(bufs.len(), |c: int|
        if c < channels {
            interleaved_filled_channel(bufs[c], data, c, channels, lo, hi, start_frame)
        } else {
            bufs[c]
        })
}

/// What one destination channel holds after a de-interleaved fill: positions
/// in `[lo, hi)` hold the channel's source sample at the corresponding frame,
/// every other position keeps its old value.
pub open spec fn deinterleaved_filled_channel<S>(
    old_buf: Seq<S>,
    ch_data: Seq<S>,
    lo: int,
    hi: int,
    start_frame: int,
) -> Seq<S> {
    Seq::new(old_buf.len(), |i: int|
        if lo <= i < hi {
            ch_data[start_frame + (i - lo)]
        } else {
            old_buf[i]
        })
}

/// What all destination channels hold after a de-interleaved fill: a buffer
/// with a matching source channel is filled, any further buffers are left
/// untouched.
pub open spec fn deinterleaved_fill<S>(
    bufs: Seq<Seq<S>>,
    data: Seq<Seq<S>>,
    lo: int,
    hi: int,
    start_frame: int,
) -> Seq<Seq<S>> {
    Seq::new(bufs.len(), |c: int|
        if c < data.len() {
            deinterleaved_filled_channel(bufs[c], data[c], lo, hi, start_frame)
        } else {
            bufs[c]
        })
}

/// An empty fill range leaves every buffer exactly as it was, whatever the
/// other arguments are.
pub proof fn lemma_empty_range_fills_nothing<S>(
    bufs: Seq<Seq<S>>,
    data: Seq<S>,
    ch_data: Seq<Seq<S>>,
    channels: int,
    lo: int,
    start_frame: int,
)
    ensures
        interleaved_fill(bufs, data, channels, lo, lo, start_frame) == bufs,
        deinterleaved_fill(bufs, ch_data, lo, lo, start_frame) == bufs,
{
    assert forall|c: int| 0 <= c < bufs.len() implies
        #[trigger] interleaved_fill(bufs, data, channels, lo, lo, start_frame)[c] == bufs[c] by {
        if c < channels {
            assert(interleaved_filled_channel(bufs[c], data, c, channels, lo, lo, start_frame)
                =~= bufs[c]);
        }
    }
    assert(interleaved_fill(bufs, data, channels, lo, lo, start_frame) =~= bufs);
    assert forall|c: int| 0 <= c < bufs.len() implies
        #[trigger] deinterleaved_fill(bufs, ch_data, lo, lo, start_frame)[c] == bufs[c] by {
        if c < ch_data.len() {
            assert(deinterleaved_filled_channel(bufs[c], ch_data[c], lo, lo, start_frame)
                =~= bufs[c]);
        }
    }
    assert(deinterleaved_fill(bufs, ch_data, lo, lo, start_frame) =~= bufs);
}

/// The filling strategies agree: every strategy's contract pins its output
/// to the same [`interleaved_fill`] result, so two runs from the same
/// buffers, source data and range leave identical buffers, whichever
/// strategy each of them took. The de-interleaved strategies agree in the
/// same way through [`deinterleaved_fill`].
pub proof fn lemma_fill_strategies_agree<S>(
    out_a: Seq<Seq<S>>,
    out_b: Seq<Seq<S>>,
    bufs: Seq<Seq<S>>,
    data: Seq<S>,
    channels: int,
    lo: int,
    hi: int,
    start_frame: int,
)
    requires
        out_a == interleaved_fill(bufs, data, channels, lo, hi, start_frame),
        out_b == interleaved_fill(bufs, data, channels, lo, hi, start_frame),
    ensures
        out_a == out_b,
{
}

/// Writes one sample into one channel of a set of per-channel buffers.
fn set_sample<S: Copy>(buffers: &mut Vec<Vec<S>>, c: usize, i: usize, v: S)
    requires
        c < old(buffers)@.len(),
        i < old(buffers)@[c as int].len(),
    ensures
        final(buffers)@.len() == old(buffers)@.len(),
        forall|k: int| 0 <= k < old(buffers)@.len() && k != c ==>
            final(buffers)@[k] == old(buffers)@[k],
        final(buffers)@[c as int]@ == old(buffers)@[c as int]@.update(i as int, v),
{
    let b = &mut buffers[c];
    b[i] = v;
}

/// Fills one destination channel from interleaved source data, stepping
/// through the source with a stride of `channels`.
fn fill_channel_interleaved<S: Copy>(
    buf: &mut Vec<S>,
    lo: usize,
    hi: usize,
    start_frame: usize,
    channels: usize,
    ch: usize,
    data: &Vec<S>,
)
    requires
        lo <= hi <= old(buf)@.len(),
        1 <= channels,
        ch < channels,
        (start_frame + (hi - lo)) * channels <= data@.len(),
    ensures
        final(buf)@ == interleaved_filled_channel(
            old(buf)@, data@, ch as int, channels as int,
            lo as int, hi as int, start_frame as int,
        ),
{
    let frames = hi - lo;
    let mut i: usize = 0;
    while i < frames
        invariant
            0 <= i <= frames,
            frames == hi - lo,
            lo <= hi <= buf@.len(),
            buf@.len() == old(buf)@.len(),
            1 <= channels,
            ch < channels,
            (start_frame + frames) * channels <= data@.len(),
            forall|j: int| 0 <= j < buf@.len() && !(lo <= j < lo + i) ==> buf@[j] == old(buf)@[j],
            forall|j: int| lo <= j < lo + i ==>
                buf@[j] == data@[(start_frame + (j - lo)) * channels + ch as int],
        decreases frames - i,
    {
        proof {
            assert((start_frame + i) * channels + ch < (start_frame + frames) * channels
                && start_frame + i <= (start_frame + frames) * channels) by (nonlinear_arith)
                requires
                    0 <= i < frames,
                    1 <= channels,
                    0 <= ch < channels,
                    0 <= start_frame,
            ;
            assert(data.len() == data@.len());
        }
        let idx = (start_frame + i) * channels + ch;
        let v = data[idx];
        buf[lo + i] = v;
        i += 1;
    }
    proof {
        assert(buf@ =~= interleaved_filled_channel(
            old(buf)@, data@, ch as int, channels as int,
            lo as int, hi as int, start_frame as int,
        ));
    }
}

/// The single-channel interleaved strategy: a direct copy with no
/// de-interleaving, writing only the first destination buffer.
pub fn fill_buffers_interleaved_mono<S: Copy>(
    buffers: &mut Vec<Vec<S>>,
    buffer_range: Range<usize>,
    start_frame: usize,
    channels: usize,
    data: &Vec<S>,
)
    requires
        channels == 1,
        old(buffers)@.len() >= 1,
        buffer_range.start <= buffer_range.end <= old(buffers)@[0]@.len(),
        start_frame + (buffer_range.end - buffer_range.start) <= data@.len(),
    ensures
        bufs_view(final(buffers)@) == interleaved_fill(
            bufs_view(old(buffers)@), data@, 1,
            buffer_range.start as int, buffer_range.end as int, start_frame as int,
        ),
{
    let lo = buffer_range.start;
    let hi = buffer_range.end;
    let b = &mut buffers[0];
    fill_channel_interleaved(b, lo, hi, start_frame, 1, 0, data);
    proof {
        assert(bufs_view(buffers@) =~= interleaved_fill(
            bufs_view(old(buffers)@), data@, 1, lo as int, hi as int, start_frame as int,
        ));
    }
}

/// The two-channel interleaved strategy: both destination channels are
/// written in a single pass over the source frames.
pub fn fill_buffers_interleaved_stereo<S: Copy>(
    buffers: &mut Vec<Vec<S>>,
    buffer_range: Range<usize>,
    start_frame: usize,
    channels: usize,
    data: &Vec<S>,
)
    requires
        channels == 2,
        old(buffers)@.len() >= 2,
        buffer_range.start <= buffer_range.end,
        buffer_range.end <= old(buffers)@[0]@.len(),
        buffer_range.end <= old(buffers)@[1]@.len(),
        (start_frame + (buffer_range.end - buffer_range.start)) * 2 <= data@.len(),
    ensures
        bufs_view(final(buffers)@) == interleaved_fill(
            bufs_view(old(buffers)@), data@, 2,
            buffer_range.start as int, buffer_range.end as int, start_frame as int,
        ),
{
    let lo = buffer_range.start;
    let hi = buffer_range.end;
    let frames = hi - lo;
    let mut i: usize = 0;
    while i < frames
        invariant
            0 <= i <= frames,
            frames == hi - lo,
            lo <= hi,
            buffers@.len() == old(buffers)@.len() >= 2,
            buffers@[0]@.len() == old(buffers)@[0]@.len(),
            buffers@[1]@.len() == old(buffers)@[1]@.len(),
            hi <= buffers@[0]@.len(),
            hi <= buffers@[1]@.len(),
            (start_frame + frames) * 2 <= data@.len(),
            forall|k: int| 2 <= k < buffers@.len() ==> buffers@[k] == old(buffers)@[k],
            forall|j: int| 0 <= j < buffers@[0]@.len() && !(lo <= j < lo + i) ==>
                buffers@[0]@[j] == old(buffers)@[0]@[j],
            forall|j: int| 0 <= j < buffers@[1]@.len() && !(lo <= j < lo + i) ==>
                buffers@[1]@[j] == old(buffers)@[1]@[j],
            forall|j: int| lo <= j < lo + i ==>
                buffers@[0]@[j] == data@[(start_frame + (j - lo)) * 2],
            forall|j: int| lo <= j < lo + i ==>
                buffers@[1]@[j] == data@[(start_frame + (j - lo)) * 2 + 1],
        decreases frames - i,
    {
        proof {
            assert((start_frame + i) * 2 + 1 < (start_frame + frames) * 2) by (nonlinear_arith)
                requires
                    0 <= i < frames,
                    0 <= start_frame,
            ;
            assert(data.len() == data@.len());
        }
        let base = (start_frame + i) * 2;
        let v0 = data[base];
        let v1 = data[base + 1];
        set_sample(buffers, 0, lo + i, v0);
        set_sample(buffers, 1, lo + i, v1);
        i += 1;
    }
    proof {
        assert(buffers@[0]@ =~= interleaved_filled_channel(
            old(buffers)@[0]@, data@, 0, 2, lo as int, hi as int, start_frame as int,
        ));
        assert(buffers@[1]@ =~= interleaved_filled_channel(
            old(buffers)@[1]@, data@, 1, 2, lo as int, hi as int, start_frame as int,
        ));
        assert(bufs_view(buffers@) =~= interleaved_fill(
            bufs_view(old(buffers)@), data@, 2, lo as int, hi as int, start_frame as int,
        ));
    }
}

/// The general interleaved strategy: one stride-`channels` pass over the
/// source for each destination channel that the source provides.
pub fn fill_buffers_interleaved_general<S: Copy>(
    buffers: &mut Vec<Vec<S>>,
    buffer_range: Range<usize>,
    start_frame: usize,
    channels: usize,
    data: &Vec<S>,
)
    requires
        1 <= channels,
        buffer_range.start <= buffer_range.end,
        forall|c: int| 0 <= c < old(buffers)@.len() && c < channels ==>
            buffer_range.end <= #[trigger] old(buffers)@[c]@.len(),
        (start_frame + (buffer_range.end - buffer_range.start)) * channels <= data@.len(),
    ensures
        bufs_view(final(buffers)@) == interleaved_fill(
            bufs_view(old(buffers)@), data@, channels as int,
            buffer_range.start as int, buffer_range.end as int, start_frame as int,
        ),
{
    let lo = buffer_range.start;
    let hi = buffer_range.end;
    let nch = if channels < buffers.len() {
        channels
    } else {
        buffers.len()
    };
    let mut c: usize = 0;
    while c < nch
        invariant
            0 <= c <= nch,
            nch <= channels,
            nch <= buffers@.len(),
            channels < buffers@.len() ==> nch == channels,
            buffers@.len() <= channels ==> nch == buffers@.len(),
            1 <= channels,
            lo <= hi,
            buffers@.len() == old(buffers)@.len(),
            (start_frame + (hi - lo)) * channels <= data@.len(),
            forall|k: int| 0 <= k < old(buffers)@.len() && k < channels ==>
                hi <= #[trigger] old(buffers)@[k]@.len(),
            forall|k: int| c <= k < buffers@.len() ==> buffers@[k] == old(buffers)@[k],
            forall|k: int| 0 <= k < c ==> buffers@[k]@ == interleaved_filled_channel(
                old(buffers)@[k]@, data@, k, channels as int,
                lo as int, hi as int, start_frame as int,
            ),
        decreases nch - c,
    {
        let b = &mut buffers[c];
        fill_channel_interleaved(b, lo, hi, start_frame, channels, c, data);
        c += 1;
    }
    proof {
        assert(bufs_view(buffers@) =~= interleaved_fill(
            bufs_view(old(buffers)@), data@, channels as int,
            lo as int, hi as int, start_frame as int,
        ));
    }
}

/// Fills per-channel buffers from a resource of interleaved samples,
/// dispatching to the strategy that fits the channel count. Destination
/// buffers beyond the source's channel count are left untouched.
pub fn fill_buffers_interleaved<S: Copy>(
    buffers: &mut Vec<Vec<S>>,
    buffer_range: Range<usize>,
    start_frame: usize,
    channels: usize,
    data: &Vec<S>,
)
    requires
        1 <= channels,
        channels == 1 ==> old(buffers)@.len() >= 1,
        buffer_range.start <= buffer_range.end,
        forall|c: int| 0 <= c < old(buffers)@.len() && c < channels ==>
            buffer_range.end <= #[trigger] old(buffers)@[c]@.len(),
        (start_frame + (buffer_range.end - buffer_range.start)) * channels <= data@.len(),
    ensures
        bufs_view(final(buffers)@) == interleaved_fill(
            bufs_view(old(buffers)@), data@, channels as int,
            buffer_range.start as int, buffer_range.end as int, start_frame as int,
        ),
{
    if channels == 1 {
        fill_buffers_interleaved_mono(buffers, buffer_range, start_frame, channels, data);
    } else if channels == 2 && buffers.len() >= 2 {
        fill_buffers_interleaved_stereo(buffers, buffer_range, start_frame, channels, data);
    } else {
        fill_buffers_interleaved_general(buffers, buffer_range, start_frame, channels, data);
    }
}

/// Fills one destination channel from its own de-interleaved source channel.
fn fill_channel_deinterleaved<S: Copy>(
    buf: &mut Vec<S>,
    lo: usize,
    hi: usize,
    start_frame: usize,
    ch_data: &Vec<S>,
)
    requires
        lo <= hi <= old(buf)@.len(),
        start_frame + (hi - lo) <= ch_data@.len(),
    ensures
        final(buf)@ == deinterleaved_filled_channel(
            old(buf)@, ch_data@, lo as int, hi as int, start_frame as int,
        ),
{
    let frames = hi - lo;
    let mut i: usize = 0;
    while i < frames
        invariant
            0 <= i <= frames,
            frames == hi - lo,
            lo <= hi <= buf@.len(),
            buf@.len() == old(buf)@.len(),
            start_frame + frames <= ch_data@.len(),
            forall|j: int| 0 <= j < buf@.len() && !(lo <= j < lo + i) ==> buf@[j] == old(buf)@[j],
            forall|j: int| lo <= j < lo + i ==> buf@[j] == ch_data@[start_frame + (j - lo)],
        decreases frames - i,
    {
        proof {
            assert(ch_data.len() == ch_data@.len());
        }
        let v = ch_data[start_frame + i];
        buf[lo + i] = v;
        i += 1;
    }
    proof {
        assert(buf@ =~= deinterleaved_filled_channel(
            old(buf)@, ch_data@, lo as int, hi as int, start_frame as int,
        ));
    }
}

/// The two-channel de-interleaved strategy: both destination channels are
/// written in a single pass over the frame range.
pub fn fill_buffers_deinterleaved_stereo<S: Copy>(
    buffers: &mut Vec<Vec<S>>,
    buffer_range: Range<usize>,
    start_frame: usize,
    data: &Vec<Vec<S>>,
)
    requires
        data@.len() == 2,
        old(buffers)@.len() >= 2,
        buffer_range.start <= buffer_range.end,
        buffer_range.end <= old(buffers)@[0]@.len(),
        buffer_range.end <= old(buffers)@[1]@.len(),
        start_frame + (buffer_range.end - buffer_range.start) <= data@[0]@.len(),
        start_frame + (buffer_range.end - buffer_range.start) <= data@[1]@.len(),
    ensures
        bufs_view(final(buffers)@) == deinterleaved_fill(
            bufs_view(old(buffers)@), bufs_view(data@),
            buffer_range.start as int, buffer_range.end as int, start_frame as int,
        ),
{
    let lo = buffer_range.start;
    let hi = buffer_range.end;
    let frames = hi - lo;
    let d0 = &data[0];
    let d1 = &data[1];
    let mut i: usize = 0;
    while i < frames
        invariant
            0 <= i <= frames,
            frames == hi - lo,
            lo <= hi,
            buffers@.len() == old(buffers)@.len() >= 2,
            buffers@[0]@.len() == old(buffers)@[0]@.len(),
            buffers@[1]@.len() == old(buffers)@[1]@.len(),
            hi <= buffers@[0]@.len(),
            hi <= buffers@[1]@.len(),
            d0@ == data@[0]@,
            d1@ == data@[1]@,
            start_frame + frames <= d0@.len(),
            start_frame + frames <= d1@.len(),
            forall|k: int| 2 <= k < buffers@.len() ==> buffers@[k] == old(buffers)@[k],
            forall|j: int| 0 <= j < buffers@[0]@.len() && !(lo <= j < lo + i) ==>
                buffers@[0]@[j] == old(buffers)@[0]@[j],
            forall|j: int| 0 <= j < buffers@[1]@.len() && !(lo <= j < lo + i) ==>
                buffers@[1]@[j] == old(buffers)@[1]@[j],
            forall|j: int| lo <= j < lo + i ==>
                buffers@[0]@[j] == data@[0]@[start_frame + (j - lo)],
            forall|j: int| lo <= j < lo + i ==>
                buffers@[1]@[j] == data@[1]@[start_frame + (j - lo)],
        decreases frames - i,
    {
        proof {
            assert(d0.len() == d0@.len());
        }
        let v0 = d0[start_frame + i];
        let v1 = d1[start_frame + i];
        set_sample(buffers, 0, lo + i, v0);
        set_sample(buffers, 1, lo + i, v1);
        i += 1;
    }
    proof {
        assert(buffers@[0]@ =~= deinterleaved_filled_channel(
            old(buffers)@[0]@, data@[0]@, lo as int, hi as int, start_frame as int,
        ));
        assert(buffers@[1]@ =~= deinterleaved_filled_channel(
            old(buffers)@[1]@, data@[1]@, lo as int, hi as int, start_frame as int,
        ));
        assert(bufs_view(buffers@) =~= deinterleaved_fill(
            bufs_view(old(buffers)@), bufs_view(data@),
            lo as int, hi as int, start_frame as int,
        ));
    }
}

/// The general de-interleaved strategy: one pass per destination channel that
/// has a matching source channel.
pub fn fill_buffers_deinterleaved_general<S: Copy>(
    buffers: &mut Vec<Vec<S>>,
    buffer_range: Range<usize>,
    start_frame: usize,
    data: &Vec<Vec<S>>,
)
    requires
        buffer_range.start <= buffer_range.end,
        forall|c: int| 0 <= c < old(buffers)@.len() && c < data@.len() ==>
            buffer_range.end <= #[trigger] old(buffers)@[c]@.len(),
        forall|c: int| 0 <= c < old(buffers)@.len() && c < data@.len() ==>
            start_frame + (buffer_range.end - buffer_range.start)
                <= #[trigger] data@[c]@.len(),
    ensures
        bufs_view(final(buffers)@) == deinterleaved_fill(
            bufs_view(old(buffers)@), bufs_view(data@),
            buffer_range.start as int, buffer_range.end as int, start_frame as int,
        ),
{
    let lo = buffer_range.start;
    let hi = buffer_range.end;
    let nch = if data.len() < buffers.len() {
        data.len()
    } else {
        buffers.len()
    };
    let mut c: usize = 0;
    while c < nch
        invariant
            0 <= c <= nch,
            nch <= data@.len(),
            nch <= buffers@.len(),
            data@.len() < buffers@.len() ==> nch == data@.len(),
            buffers@.len() <= data@.len() ==> nch == buffers@.len(),
            lo <= hi,
            buffers@.len() == old(buffers)@.len(),
            forall|k: int| 0 <= k < old(buffers)@.len() && k < data@.len() ==>
                hi <= #[trigger] old(buffers)@[k]@.len(),
            forall|k: int| 0 <= k < old(buffers)@.len() && k < data@.len() ==>
                start_frame + (hi - lo) <= #[trigger] data@[k]@.len(),
            forall|k: int| c <= k < buffers@.len() ==> buffers@[k] == old(buffers)@[k],
            forall|k: int| 0 <= k < c ==> buffers@[k]@ == deinterleaved_filled_channel(
                old(buffers)@[k]@, data@[k]@, lo as int, hi as int, start_frame as int,
            ),
        decreases nch - c,
    {
        let ch_data = &data[c];
        let b = &mut buffers[c];
        fill_channel_deinterleaved(b, lo, hi, start_frame, ch_data);
        c += 1;
    }
    proof {
        assert(bufs_view(buffers@) =~= deinterleaved_fill(
            bufs_view(old(buffers)@), bufs_view(data@),
            lo as int, hi as int, start_frame as int,
        ));
    }
}

/// Fills per-channel buffers from a resource of de-interleaved samples,
/// dispatching to the strategy that fits the channel count. Destination
/// buffers beyond the source's channel count are left untouched.
pub fn fill_buffers_deinterleaved<S: Copy>(
    buffers: &mut Vec<Vec<S>>,
    buffer_range: Range<usize>,
    start_frame: usize,
    data: &Vec<Vec<S>>,
)
    requires
        buffer_range.start <= buffer_range.end,
        forall|c: int| 0 <= c < old(buffers)@.len() && c < data@.len() ==>
            buffer_range.end <= #[trigger] old(buffers)@[c]@.len(),
        forall|c: int| 0 <= c < old(buffers)@.len() && c < data@.len() ==>
            start_frame + (buffer_range.end - buffer_range.start)
                <= #[trigger] data@[c]@.len(),
    ensures
        bufs_view(final(buffers)@) == deinterleaved_fill(
            bufs_view(old(buffers)@), bufs_view(data@),
            buffer_range.start as int, buffer_range.end as int, start_frame as int,
        ),
{
    if data.len() == 2 && buffers.len() >= 2 {
        fill_buffers_deinterleaved_stereo(buffers, buffer_range, start_frame, data);
    } else {
        fill_buffers_deinterleaved_general(buffers, buffer_range, start_frame, data);
    }
}

/// Fills per-channel buffers from a resource of de-interleaved samples that
/// are already in the engine's normalized representation, so each sample is
/// copied through unchanged.
pub fn fill_buffers_deinterleaved_f32(
    buffers: &mut Vec<Vec<crate::RawSample>>,
    buffer_range: Range<usize>,
    start_frame: usize,
    data: &Vec<Vec<crate::RawSample>>,
)
    requires
        buffer_range.start <= buffer_range.end,
        forall|c: int| 0 <= c < old(buffers)@.len() && c < data@.len() ==>
            buffer_range.end <= #[trigger] old(buffers)@[c]@.len(),
        forall|c: int| 0 <= c < old(buffers)@.len() && c < data@.len() ==>
            start_frame + (buffer_range.end - buffer_range.start)
                <= #[trigger] data@[c]@.len(),
    ensures
        bufs_view(final(buffers)@) == deinterleaved_fill(
            bufs_view(old(buffers)@), bufs_view(data@),
            buffer_range.start as int, buffer_range.end as int, start_frame as int,
        ),
{
    fill_buffers_deinterleaved(buffers, buffer_range, start_frame, data);
}

/// Information about a resource of audio samples.
pub trait SampleResourceInfo {
    /// The resource's internal invariant; every filling contract assumes it.
    spec fn wf(&self) -> bool;

    /// The number of channels in this resource.
    spec fn spec_num_channels(&self) -> int;

    /// The length of this resource in single-channel frames.
    spec fn spec_len_frames(&self) -> int;

    /// The number of channels in this resource.
    fn num_channels(&self) -> (n: usize)
        requires
            self.wf(),
        ensures
            n == self.spec_num_channels(),
            n >= 1,
    ;

    /// The length of this resource in samples of a single channel of audio.
    fn len_frames(&self) -> (n: u64)
        requires
            self.wf(),
        ensures
            n == self.spec_len_frames(),
    ;
}

/// A resource of audio samples that can fill caller-owned per-channel
/// buffers with its raw samples, encoded as values of type `S`.
pub trait SampleResource<S: Copy>: SampleResourceInfo {
    /// The raw sample stored for channel `ch` at frame `frame`.
    spec fn raw_sample(&self, ch: int, frame: int) -> S;

    /// Fills `buffer_range` of each buffer with this resource's samples,
    /// reading from the resource starting at `start_frame`. Buffers beyond
    /// the resource's channel count are left untouched, as is everything
    /// outside `buffer_range`.
    fn fill_buffers(
        &self,
        buffers: &mut Vec<Vec<S>>,
        buffer_range: Range<usize>,
        start_frame: u64,
    )
        requires
            self.wf(),
            old(buffers)@.len() >= 1,
            buffer_range.start <= buffer_range.end,
            forall|c: int| 0 <= c < old(buffers)@.len() && c < self.spec_num_channels() ==>
                buffer_range.end <= #[trigger] old(buffers)@[c]@.len(),
            start_frame + (buffer_range.end - buffer_range.start) <= self.spec_len_frames(),
        ensures
            final(buffers)@.len() == old(buffers)@.len(),
            forall|c: int| 0 <= c < old(buffers)@.len() ==>
                #[trigger] final(buffers)@[c]@.len() == old(buffers)@[c]@.len(),
            forall|c: int, i: int|
                0 <= c < old(buffers)@.len() && 0 <= i < old(buffers)@[c]@.len()
                    && !(c < self.spec_num_channels()
                        && buffer_range.start <= i < buffer_range.end) ==>
                    #[trigger] final(buffers)@[c]@[i] == old(buffers)@[c]@[i],
            forall|c: int, i: int|
                0 <= c < old(buffers)@.len() && c < self.spec_num_channels()
                    && buffer_range.start <= i < buffer_range.end ==>
                    #[trigger] final(buffers)@[c]@[i] == self.raw_sample(
                        c,
                        start_frame + (i - buffer_range.start),
                    ),
    ;
}

/// A resource of audio samples stored as de-interleaved normalized samples,
/// granting direct read access to one channel's full sample array.
pub trait SampleResourceF32: SampleResourceInfo {
    /// The samples of channel `i`.
    spec fn channel_samples(&self, i: int) -> Seq<crate::RawSample>;

    /// The buffer for a given channel, or `None` when the resource has no
    /// such channel.
    fn channel(&self, i: usize) -> (r: Option<&Vec<crate::RawSample>>)
        requires
            self.wf(),
        ensures
            (i < self.spec_num_channels()) == (r is Some),
            r matches Some(c) ==> c@ == self.channel_samples(i as int),
    ;
}

/// A frame count that fits under an interleaved resource's frame length
/// keeps the whole requested sample range inside its data array.
proof fn lemma_frames_fit_interleaved(frames: int, channels: int, total: int)
    requires
        1 <= channels,
        0 <= frames,
        frames <= total / channels,
        0 <= total,
    ensures
        frames * channels <= total,
        frames <= total,
{
    assert(frames * channels <= total && frames <= total) by (nonlinear_arith)
        requires
            1 <= channels,
            0 <= frames,
            frames <= total / channels,
            0 <= total,
    ;
}

/// The whole interleaved filling routine of a resource of `channels`
/// interleaved samples: dispatch on the channel count, under the contract
/// that every [`SampleResource`] of interleaved data offers.
fn fill_interleaved_resource<S: Copy>(
    data: &Vec<S>,
    channels: usize,
    buffers: &mut Vec<Vec<S>>,
    buffer_range: Range<usize>,
    start_frame: u64,
)
    requires
        1 <= channels,
        old(buffers)@.len() >= 1,
        buffer_range.start <= buffer_range.end,
        forall|c: int| 0 <= c < old(buffers)@.len() && c < channels ==>
            buffer_range.end <= #[trigger] old(buffers)@[c]@.len(),
        start_frame + (buffer_range.end - buffer_range.start)
            <= data@.len() as int / channels as int,
    ensures
        final(buffers)@.len() == old(buffers)@.len(),
        forall|c: int| 0 <= c < old(buffers)@.len() ==>
            #[trigger] final(buffers)@[c]@.len() == old(buffers)@[c]@.len(),
        forall|c: int, i: int|
            0 <= c < old(buffers)@.len() && 0 <= i < old(buffers)@[c]@.len()
                && !(c < channels && buffer_range.start <= i < buffer_range.end) ==>
                #[trigger] final(buffers)@[c]@[i] == old(buffers)@[c]@[i],
        forall|c: int, i: int|
            0 <= c < old(buffers)@.len() && c < channels
                && buffer_range.start <= i < buffer_range.end ==>
                #[trigger] final(buffers)@[c]@[i] == data@[
                    (start_frame + (i - buffer_range.start)) * channels + c
                ],
{
    let ghost lo = buffer_range.start as int;
    let ghost hi = buffer_range.end as int;
    proof {
        lemma_frames_fit_interleaved(
            start_frame + (hi - lo),
            channels as int,
            data@.len() as int,
        );
        assert(data.len() == data@.len());
    }
    let sf = start_frame as usize;
    fill_buffers_interleaved(buffers, buffer_range, sf, channels, data);
    proof {
        let olds = bufs_view(old(buffers)@);
        let news = bufs_view(buffers@);
        assert(news == interleaved_fill(olds, data@, channels as int, lo, hi, sf as int));
        assert forall|c: int| 0 <= c < old(buffers)@.len() implies
            #[trigger] buffers@[c]@.len() == old(buffers)@[c]@.len() by {
            assert(news[c] == buffers@[c]@);
            if c < channels {
                assert(news[c] == interleaved_filled_channel(
                    olds[c], data@, c, channels as int, lo, hi, sf as int,
                ));
            }
        }
        assert forall|c: int, i: int|
            0 <= c < old(buffers)@.len() && 0 <= i < old(buffers)@[c]@.len()
                && !(c < channels && lo <= i < hi) implies
            #[trigger] buffers@[c]@[i] == old(buffers)@[c]@[i] by {
            assert(news[c] == buffers@[c]@);
            if c < channels {
                assert(news[c] == interleaved_filled_channel(
                    olds[c], data@, c, channels as int, lo, hi, sf as int,
                ));
            }
        }
        assert forall|c: int, i: int|
            0 <= c < old(buffers)@.len() && c < channels && lo <= i < hi implies
            #[trigger] buffers@[c]@[i] == data@[(start_frame + (i - lo)) * channels + c] by {
            assert(news[c] == buffers@[c]@);
            assert(news[c] == interleaved_filled_channel(
                olds[c], data@, c, channels as int, lo, hi, sf as int,
            ));
        }
    }
}

/// The whole de-interleaved filling routine of a resource holding one sample
/// array per channel, all of one length: dispatch on the channel count,
/// under the contract that every such [`SampleResource`] offers.
fn fill_deinterleaved_resource<S: Copy>(
    data: &Vec<Vec<S>>,
    buffers: &mut Vec<Vec<S>>,
    buffer_range: Range<usize>,
    start_frame: u64,
)
    requires
        data@.len() >= 1,
        forall|c: int| 0 <= c < data@.len() ==> #[trigger] data@[c]@.len() == data@[0]@.len(),
        old(buffers)@.len() >= 1,
        buffer_range.start <= buffer_range.end,
        forall|c: int| 0 <= c < old(buffers)@.len() && c < data@.len() ==>
            buffer_range.end <= #[trigger] old(buffers)@[c]@.len(),
        start_frame + (buffer_range.end - buffer_range.start) <= data@[0]@.len(),
    ensures
        final(buffers)@.len() == old(buffers)@.len(),
        forall|c: int| 0 <= c < old(buffers)@.len() ==>
            #[trigger] final(buffers)@[c]@.len() == old(buffers)@[c]@.len(),
        forall|c: int, i: int|
            0 <= c < old(buffers)@.len() && 0 <= i < old(buffers)@[c]@.len()
                && !(c < data@.len() && buffer_range.start <= i < buffer_range.end) ==>
                #[trigger] final(buffers)@[c]@[i] == old(buffers)@[c]@[i],
        forall|c: int, i: int|
            0 <= c < old(buffers)@.len() && c < data@.len()
                && buffer_range.start <= i < buffer_range.end ==>
                #[trigger] final(buffers)@[c]@[i] == data@[c]@[
                    start_frame + (i - buffer_range.start)
                ],
{
    let ghost lo = buffer_range.start as int;
    let ghost hi = buffer_range.end as int;
    proof {
        assert(data@[0]@.len() <= usize::MAX) by {
            assert(data@[0].len() == data@[0]@.len());
        }
    }
    let sf = start_frame as usize;
    fill_buffers_deinterleaved(buffers, buffer_range, sf, data);
    proof {
        let olds = bufs_view(old(buffers)@);
        let news = bufs_view(buffers@);
        assert(news == deinterleaved_fill(olds, bufs_view(data@), lo, hi, sf as int));
        assert forall|c: int| 0 <= c < old(buffers)@.len() implies
            #[trigger] buffers@[c]@.len() == old(buffers)@[c]@.len() by {
            assert(news[c] == buffers@[c]@);
            if c < data@.len() {
                assert(news[c] == deinterleaved_filled_channel(
                    olds[c], bufs_view(data@)[c], lo, hi, sf as int,
                ));
            }
        }
        assert forall|c: int, i: int|
            0 <= c < old(buffers)@.len() && 0 <= i < old(buffers)@[c]@.len()
                && !(c < data@.len() && lo <= i < hi) implies
            #[trigger] buffers@[c]@[i] == old(buffers)@[c]@[i] by {
            assert(news[c] == buffers@[c]@);
            if c < data@.len() {
                assert(news[c] == deinterleaved_filled_channel(
                    olds[c], bufs_view(data@)[c], lo, hi, sf as int,
                ));
            }
        }
        assert forall|c: int, i: int|
            0 <= c < old(buffers)@.len() && c < data@.len() && lo <= i < hi implies
            #[trigger] buffers@[c]@[i] == data@[c]@[start_frame + (i - lo)] by {
            assert(news[c] == buffers@[c]@);
            assert(news[c] == deinterleaved_filled_channel(
                olds[c], bufs_view(data@)[c], lo, hi, sf as int,
            ));
            assert(bufs_view(data@)[c] == data@[c]@);
        }
    }
}

/// Interleaved signed 16-bit PCM samples.
pub struct InterleavedResourceI16 {
    pub data: Vec<i16>,
    pub channels: usize,
}

impl SampleResourceInfo for InterleavedResourceI16 {
    open spec fn wf(&self) -> bool {
        1 <= self.channels
    }

    open spec fn spec_num_channels(&self) -> int {
        self.channels as int
    }

    open spec fn spec_len_frames(&self) -> int {
        self.data@.len() as int / self.channels as int
    }

    fn num_channels(&self) -> usize {
        self.channels
    }

    fn len_frames(&self) -> u64 {
        (self.data.len() / self.channels) as u64
    }
}

impl SampleResource<i16> for InterleavedResourceI16 {
    open spec fn raw_sample(&self, ch: int, frame: int) -> i16 {
        self.data@[frame * (self.channels as int) + ch]
    }

    fn fill_buffers(
        &self,
        buffers: &mut Vec<Vec<i16>>,
        buffer_range: Range<usize>,
        start_frame: u64,
    ) {
        fill_interleaved_resource(&self.data, self.channels, buffers, buffer_range, start_frame);
    }
}

/// Interleaved unsigned 16-bit PCM samples.
pub struct InterleavedResourceU16 {
    pub data: Vec<u16>,
    pub channels: usize,
}

impl SampleResourceInfo for InterleavedResourceU16 {
    open spec fn wf(&self) -> bool {
        1 <= self.channels
    }

    open spec fn spec_num_channels(&self) -> int {
        self.channels as int
    }

    open spec fn spec_len_frames(&self) -> int {
        self.data@.len() as int / self.channels as int
    }

    fn num_channels(&self) -> usize {
        self.channels
    }

    fn len_frames(&self) -> u64 {
        (self.data.len() / self.channels) as u64
    }
}

impl SampleResource<u16> for InterleavedResourceU16 {
    open spec fn raw_sample(&self, ch: int, frame: int) -> u16 {
        self.data@[frame * (self.channels as int) + ch]
    }

    fn fill_buffers(
        &self,
        buffers: &mut Vec<Vec<u16>>,
        buffer_range: Range<usize>,
        start_frame: u64,
    ) {
        fill_interleaved_resource(&self.data, self.channels, buffers, buffer_range, start_frame);
    }
}

/// Interleaved samples already in the engine's normalized representation,
/// held as raw bit patterns; filling copies each one through unchanged.
pub struct InterleavedResourceF32 {
    pub data: Vec<crate::RawSample>,
    pub channels: usize,
}

impl SampleResourceInfo for InterleavedResourceF32 {
    open spec fn wf(&self) -> bool {
        1 <= self.channels
    }

    open spec fn spec_num_channels(&self) -> int {
        self.channels as int
    }

    open spec fn spec_len_frames(&self) -> int {
        self.data@.len() as int / self.channels as int
    }

    fn num_channels(&self) -> usize {
        self.channels
    }

    fn len_frames(&self) -> u64 {
        (self.data.len() / self.channels) as u64
    }
}

impl SampleResource<crate::RawSample> for InterleavedResourceF32 {
    open spec fn raw_sample(&self, ch: int, frame: int) -> crate::RawSample {
        self.data@[frame * (self.channels as int) + ch]
    }

    fn fill_buffers(
        &self,
        buffers: &mut Vec<Vec<crate::RawSample>>,
        buffer_range: Range<usize>,
        start_frame: u64,
    ) {
        fill_interleaved_resource(&self.data, self.channels, buffers, buffer_range, start_frame);
    }
}

impl SampleResourceInfo for Vec<Vec<i16>> {
    open spec fn wf(&self) -> bool {
        self@.len() >= 1 && forall|c: int|
            0 <= c < self@.len() ==> #[trigger] self@[c]@.len() == self@[0]@.len()
    }

    open spec fn spec_num_channels(&self) -> int {
        self@.len() as int
    }

    open spec fn spec_len_frames(&self) -> int {
        self@[0]@.len() as int
    }

    fn num_channels(&self) -> usize {
        self.len()
    }

    fn len_frames(&self) -> u64 {
        self[0].len() as u64
    }
}

impl SampleResource<i16> for Vec<Vec<i16>> {
    open spec fn raw_sample(&self, ch: int, frame: int) -> i16 {
        self@[ch]@[frame]
    }

    fn fill_buffers(
        &self,
        buffers: &mut Vec<Vec<i16>>,
        buffer_range: Range<usize>,
        start_frame: u64,
    ) {
        fill_deinterleaved_resource(self, buffers, buffer_range, start_frame);
    }
}

impl SampleResourceInfo for Vec<Vec<u16>> {
    open spec fn wf(&self) -> bool {
        self@.len() >= 1 && forall|c: int|
            0 <= c < self@.len() ==> #[trigger] self@[c]@.len() == self@[0]@.len()
    }

    open spec fn spec_num_channels(&self) -> int {
        self@.len() as int
    }

    open spec fn spec_len_frames(&self) -> int {
        self@[0]@.len() as int
    }

    fn num_channels(&self) -> usize {
        self.len()
    }

    fn len_frames(&self) -> u64 {
        self[0].len() as u64
    }
}

impl SampleResource<u16> for Vec<Vec<u16>> {
    open spec fn raw_sample(&self, ch: int, frame: int) -> u16 {
        self@[ch]@[frame]
    }

    fn fill_buffers(
        &self,
        buffers: &mut Vec<Vec<u16>>,
        buffer_range: Range<usize>,
        start_frame: u64,
    ) {
        fill_deinterleaved_resource(self, buffers, buffer_range, start_frame);
    }
}

impl SampleResourceInfo for Vec<Vec<crate::RawSample>> {
    open spec fn wf(&self) -> bool {
        self@.len() >= 1 && forall|c: int|
            0 <= c < self@.len() ==> #[trigger] self@[c]@.len() == self@[0]@.len()
    }

    open spec fn spec_num_channels(&self) -> int {
        self@.len() as int
    }

    open spec fn spec_len_frames(&self) -> int {
        self@[0]@.len() as int
    }

    fn num_channels(&self) -> usize {
        self.len()
    }

    fn len_frames(&self) -> u64 {
        self[0].len() as u64
    }
}

impl SampleResource<crate::RawSample> for Vec<Vec<crate::RawSample>> {
    open spec fn raw_sample(&self, ch: int, frame: int) -> crate::RawSample {
        self@[ch]@[frame]
    }

    fn fill_buffers(
        &self,
        buffers: &mut Vec<Vec<crate::RawSample>>,
        buffer_range: Range<usize>,
        start_frame: u64,
    ) {
        fill_deinterleaved_resource(self, buffers, buffer_range, start_frame);
    }
}

impl SampleResourceF32 for Vec<Vec<crate::RawSample>> {
    open spec fn channel_samples(&self, i: int) -> Seq<crate::RawSample> {
        self@[i]@
    }

    fn channel(&self, i: usize) -> Option<&Vec<crate::RawSample>> {
        if i < self.len() {
            Some(&self[i])
        } else {
            None
        }
    }
}

} // verus!
