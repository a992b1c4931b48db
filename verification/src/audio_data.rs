//! Audio sample buffers: interleaving decoded planes, copying samples in and
//! out of codec frames, and the checks and sizes of sample-rate conversion.
use vstd::prelude::*;

use crate::error::Error;
use crate::format::{ChannelLayout, SampleFormat};
use crate::stream::AudioFrame;

verus! {

/// Sample `s` of channels `0..c`, each `bps` bytes taken from its own plane.
pub open spec fn spec_sample_frame(planes: Seq<Seq<u8>>, bps: nat, s: nat, c: nat) -> Seq<u8>
    decreases c,
{
    if c == 0 {
        Seq::empty()
    } else {
        spec_sample_frame(planes, bps, s, (c - 1) as nat) + planes[c - 1].subrange(
            (s * bps) as int,
            (s * bps + bps) as int,
        )
    }
}

/// Samples `0..n` of `channels` planar channels, interleaved.
pub open spec fn spec_interleave(planes: Seq<Seq<u8>>, bps: nat, channels: nat, n: nat) -> Seq<u8>
    decreases n,
{
    if n == 0 {
        Seq::empty()
    } else {
        spec_interleave(planes, bps, channels, (n - 1) as nat) + spec_sample_frame(
            planes,
            bps,
            (n - 1) as nat,
            channels,
        )
    }
}

/// The byte planes of a decoded audio frame, seen as sequences.
pub open spec fn spec_plane_views(planes: Seq<Vec<u8>>) -> Seq<Seq<u8>> {
    planes.map_values(|p: Vec<u8>| p@)
}

/// Every one of the first `channels` planes holds at least `samples`
/// samples of `bps` bytes.
pub open spec fn spec_planes_hold(planes: Seq<Seq<u8>>, bps: nat, channels: nat, samples: nat) -> bool {
    channels <= planes.len() && forall|ch: int|
        0 <= ch < channels ==> samples * bps <= (#[trigger] planes[ch]).len()
}

proof fn lemma_sample_frame_index(planes: Seq<Seq<u8>>, bps: nat, s: nat, c: nat)
    requires
        c <= planes.len(),
        forall|ch: int| 0 <= ch < c ==> s * bps + bps <= (#[trigger] planes[ch]).len(),
    ensures
        spec_sample_frame(planes, bps, s, c).len() == c * bps,
        forall|ch: int, j: int|
            0 <= ch < c && 0 <= j < bps ==> #[trigger] spec_sample_frame(planes, bps, s, c)[ch
                * bps + j] == planes[ch][s * bps + j],
    decreases c,
{
    if c == 0 {
        assert(c * bps == 0) by (nonlinear_arith)
            requires
                c == 0,
        ;
    } else {
        let prev = (c - 1) as nat;
        lemma_sample_frame_index(planes, bps, s, prev);
        assert(s * bps + bps <= planes[prev as int].len());
        assert((c - 1) * bps + bps == c * bps) by (nonlinear_arith);
        assert forall|ch: int, j: int| 0 <= ch < c && 0 <= j < bps implies #[trigger] spec_sample_frame(
            planes,
            bps,
            s,
            c,
        )[ch * bps + j] == planes[ch][s * bps + j] by {
            if ch < c - 1 {
                assert(ch * bps + j < (c - 1) * bps) by (nonlinear_arith)
                    requires
                        ch < c - 1,
                        j < bps,
                ;
            } else {
                assert(ch * bps + j == prev * bps + j) by (nonlinear_arith)
                    requires
                        ch == c - 1,
                        prev == c - 1,
                ;
            }
        }
    }
}

proof fn lemma_interleave_frames(planes: Seq<Seq<u8>>, bps: nat, channels: nat, n: nat)
    requires
        spec_planes_hold(planes, bps, channels, n),
    ensures
        spec_interleave(planes, bps, channels, n).len() == n * (channels * bps),
        forall|s: int, t: int|
            0 <= s < n && 0 <= t < channels * bps ==> #[trigger] spec_interleave(
                planes,
                bps,
                channels,
                n,
            )[s * (channels * bps) + t] == spec_sample_frame(planes, bps, s as nat, channels)[t],
    decreases n,
{
    if n > 0 {
        let prev = (n - 1) as nat;
        assert forall|ch: int| 0 <= ch < channels implies prev * bps + bps <= (#[trigger] planes[ch]).len() by {
            assert(prev * bps + bps == n * bps) by (nonlinear_arith)
                requires
                    prev == n - 1,
            ;
        }
        assert forall|ch: int| 0 <= ch < channels implies prev * bps <= (#[trigger] planes[ch]).len() by {
            assert(prev * bps <= n * bps) by (nonlinear_arith)
                requires
                    prev == n - 1,
            ;
        }
        lemma_interleave_frames(planes, bps, channels, prev);
        lemma_sample_frame_index(planes, bps, prev, channels);
        assert(prev * (channels * bps) + channels * bps == n * (channels * bps)) by (nonlinear_arith)
            requires
                prev == n - 1,
        ;
        assert forall|s: int, t: int| 0 <= s < n && 0 <= t < channels * bps implies #[trigger] spec_interleave(
            planes,
            bps,
            channels,
            n,
        )[s * (channels * bps) + t] == spec_sample_frame(planes, bps, s as nat, channels)[t] by {
            if s < prev {
                assert(s * (channels * bps) + t < prev * (channels * bps)) by (nonlinear_arith)
                    requires
                        s < prev,
                        t < channels * bps,
                ;
            } else {
                assert(s * (channels * bps) + t == prev * (channels * bps) + t);
            }
        }
    }
}

/// Interleaving puts byte `j` of sample `s` of channel `ch` at position
/// `(s * channels + ch) * bps + j`: samples in order, and within a sample
/// the channels in order.
pub proof fn lemma_interleave_index(
    planes: Seq<Seq<u8>>,
    bps: nat,
    channels: nat,
    n: nat,
    s: nat,
    ch: nat,
    j: nat,
)
    requires
        spec_planes_hold(planes, bps, channels, n),
        s < n,
        ch < channels,
        j < bps,
    ensures
        spec_interleave(planes, bps, channels, n).len() == n * channels * bps,
        spec_interleave(planes, bps, channels, n)[((s * channels + ch) * bps + j) as int]
            == planes[ch as int][(s * bps + j) as int],
{
    lemma_interleave_frames(planes, bps, channels, n);
    assert forall|c: int| 0 <= c < channels implies s * bps + bps <= (#[trigger] planes[c]).len() by {
        assert(s * bps + bps <= n * bps) by (nonlinear_arith)
            requires
                s < n,
        ;
    }
    lemma_sample_frame_index(planes, bps, s, channels);
    assert(n * (channels * bps) == n * channels * bps) by (nonlinear_arith);
    assert((s * channels + ch) * bps + j == s * (channels * bps) + (ch * bps + j)) by (nonlinear_arith);
    assert(ch * bps + j < channels * bps) by (nonlinear_arith)
        requires
            ch < channels,
            j < bps,
    ;
    let t = (ch * bps + j) as int;
    assert(spec_interleave(planes, bps, channels, n)[s * (channels * bps) + t] == spec_sample_frame(
        planes,
        bps,
        s,
        channels,
    )[t]);
}

/// Whether a frame's samples are copied by interleaving its planes.
pub open spec fn spec_uses_planes(is_planar: bool, plane_count: nat, channels: nat) -> bool {
    is_planar && plane_count >= channels
}

proof fn lemma_sample_in_plane(s: nat, samples: nat, bps: nat, len: nat)
    requires
        s < samples,
        samples * bps <= len,
    ensures
        s * bps + bps <= len,
{
    assert(s * bps + bps <= samples * bps) by (nonlinear_arith)
        requires
            s < samples,
    ;
}

/// Copies the samples of a decoded audio frame into one interleaved buffer.
///
/// When the frame is planar and has a plane for every channel, sample `s` of
/// channel `ch` comes from plane `ch` and the channels are interleaved; every
/// plane must then be as long as the first. Otherwise the samples are already
/// interleaved in the first plane and are copied as they are.
pub fn copy_audio_data(
    planes: &Vec<Vec<u8>>,
    is_planar: bool,
    format: SampleFormat,
    samples: usize,
    channels: u16,
) -> (r: Result<Vec<u8>, Error>)
    requires
        planes@.len() >= 1,
        samples * channels * format.spec_bytes_per_sample() <= usize::MAX,
        samples * format.spec_bytes_per_sample() <= usize::MAX,
        spec_uses_planes(is_planar, planes@.len(), channels as nat) ==> forall|ch: int|
            0 <= ch < channels ==> (#[trigger] planes@[ch])@.len() == planes@[0]@.len(),
    ensures
        ({
            let bps = format.spec_bytes_per_sample() as nat;
            let views = spec_plane_views(planes@);
            if spec_uses_planes(is_planar, planes@.len(), channels as nat) {
                &&& (r is Ok <==> samples * bps <= planes@[0]@.len())
                &&& r matches Ok(v) ==> v@ == spec_interleave(
                    views,
                    bps,
                    channels as nat,
                    samples as nat,
                )
            } else {
                &&& (r is Ok <==> samples * channels * bps <= planes@[0]@.len())
                &&& r matches Ok(v) ==> v@ == planes@[0]@.subrange(
                    0,
                    (samples * channels * bps) as int,
                )
            }
        }),
        r matches Err(e) ==> e is InvalidData,
{
    let bps = format.bytes_per_sample();
    let ch_count = channels as usize;
    let total_bytes = samples * ch_count * bps;
    let expected_plane_bytes = samples * bps;
    let ghost views = spec_plane_views(planes@);
    if is_planar && planes.len() >= ch_count {
        let plane_size = planes[0].len();
        if plane_size < expected_plane_bytes {
            return Err(Error::InvalidData);
        }
        let mut out: Vec<u8> = Vec::new();
        let mut s: usize = 0;
        while s < samples
            invariant
                s <= samples,
                expected_plane_bytes == samples * bps,
                expected_plane_bytes <= plane_size,
                plane_size == planes@[0]@.len(),
                ch_count == channels,
                ch_count <= planes@.len(),
                bps == format.spec_bytes_per_sample(),
                views == spec_plane_views(planes@),
                forall|ch: int| 0 <= ch < channels ==> (#[trigger] planes@[ch])@.len() == plane_size,
                out@ == spec_interleave(views, bps as nat, ch_count as nat, s as nat),
            decreases samples - s,
        {
            proof {
                lemma_sample_in_plane(s as nat, samples as nat, bps as nat, plane_size as nat);
            }
            let start = s * bps;
            let ghost frame_start = out@;
            let mut ch: usize = 0;
            while ch < ch_count
                invariant
                    ch <= ch_count,
                    start == s * bps,
                    start + bps <= plane_size,
                    ch_count == channels,
                    ch_count <= planes@.len(),
                    bps == format.spec_bytes_per_sample(),
                    views == spec_plane_views(planes@),
                    forall|c: int| 0 <= c < channels ==> (#[trigger] planes@[c])@.len() == plane_size,
                    out@ == frame_start + spec_sample_frame(views, bps as nat, s as nat, ch as nat),
                decreases ch_count - ch,
            {
                let plane = &planes[ch];
                let plen = plane.len();
                let ghost chan_start = out@;
                let mut k: usize = 0;
                while k < bps
                    invariant
                        k <= bps,
                        plen == plane@.len(),
                        start + bps <= plane@.len(),
                        out@ == chan_start + plane@.subrange(start as int, start + k),
                    decreases bps - k,
                {
                    out.push(plane[start + k]);
                    k = k + 1;
                    proof {
                        assert(out@ =~= chan_start + plane@.subrange(start as int, start + k));
                    }
                }
                ch = ch + 1;
                proof {
                    assert(views[ch - 1] == planes@[ch - 1]@);
                    assert(out@ =~= frame_start + spec_sample_frame(
                        views,
                        bps as nat,
                        s as nat,
                        ch as nat,
                    ));
                }
            }
            s = s + 1;
            proof {
                assert(out@ =~= spec_interleave(views, bps as nat, ch_count as nat, s as nat));
            }
        }
        Ok(out)
    } else {
        let plane0 = &planes[0];
        if plane0.len() < total_bytes {
            return Err(Error::InvalidData);
        }
        Ok(copy_prefix(plane0, total_bytes))
    }
}

/// The first `n` bytes of `data`.
fn copy_prefix(data: &Vec<u8>, n: usize) -> (r: Vec<u8>)
    requires
        n <= data@.len(),
    ensures
        r@ == data@.subrange(0, n as int),
{
    let mut out: Vec<u8> = Vec::new();
    let mut i: usize = 0;
    while i < n
        invariant
            i <= n,
            n <= data@.len(),
            out@ == data@.subrange(0, i as int),
        decreases n - i,
    {
        out.push(data[i]);
        i = i + 1;
        proof {
            assert(out@ =~= data@.subrange(0, i as int));
        }
    }
    out
}

/// Number of bytes of interleaved samples an audio frame describes.
pub open spec fn spec_frame_bytes(samples: nat, channels: ChannelLayout, format: SampleFormat) -> nat {
    samples * (channels.spec_channels() as nat) * (format.spec_bytes_per_sample() as nat)
}

/// Copies the interleaved samples of `src` into the first plane of a codec
/// frame; refuses when the plane is too small and then leaves it untouched.
pub fn copy_audio_data_to_frame(dst: &mut Vec<u8>, src: &AudioFrame) -> (r: Result<(), Error>)
    requires
        spec_frame_bytes(src.samples as nat, src.channels, src.format) <= usize::MAX,
        spec_frame_bytes(src.samples as nat, src.channels, src.format) <= src.data@.len()
            || old(dst)@.len() < spec_frame_bytes(src.samples as nat, src.channels, src.format),
    ensures
        ({
            let total = spec_frame_bytes(src.samples as nat, src.channels, src.format) as int;
            &&& (r is Ok <==> total <= old(dst)@.len())
            &&& r is Ok ==> final(dst)@ == src.data@.subrange(0, total) + old(dst)@.subrange(
                total,
                old(dst)@.len() as int,
            )
            &&& r is Err ==> final(dst)@ == old(dst)@
        }),
        r matches Err(e) ==> e is InvalidData,
{
    let bps = src.format.bytes_per_sample();
    let ch = src.channels.channels() as usize;
    let total_bytes = src.samples * ch * bps;
    if dst.len() < total_bytes {
        return Err(Error::InvalidData);
    }
    let ghost init = dst@;
    let mut i: usize = 0;
    while i < total_bytes
        invariant
            i <= total_bytes,
            total_bytes <= init.len(),
            total_bytes <= src.data@.len(),
            dst@.len() == init.len(),
            dst@ == src.data@.subrange(0, i as int) + init.subrange(i as int, init.len() as int),
        decreases total_bytes - i,
    {
        dst.set(i, src.data[i]);
        i = i + 1;
        proof {
            assert(dst@ =~= src.data@.subrange(0, i as int) + init.subrange(
                i as int,
                init.len() as int,
            ));
        }
    }
    Ok(())
}

/// Copies the interleaved samples of a converted codec frame out of its
/// first plane.
pub fn copy_audio_data_from_frame(
    plane0: &Vec<u8>,
    samples: usize,
    format: SampleFormat,
    channels: ChannelLayout,
) -> (r: Vec<u8>)
    requires
        spec_frame_bytes(samples as nat, channels, format) <= plane0@.len(),
    ensures
        r@ == plane0@.subrange(0, spec_frame_bytes(samples as nat, channels, format) as int),
{
    let bps = format.bytes_per_sample();
    let ch = channels.channels() as usize;
    let plen = plane0.len();
    assert(samples * ch <= samples * ch * bps) by (nonlinear_arith)
        requires
            bps >= 1,
    ;
    let total_bytes = samples * ch * bps;
    copy_prefix(plane0, total_bytes)
}

/// Room, in samples, reserved for the output of converting `samples` samples
/// from `src_rate` to `dst_rate`: the same count when the rates agree, else
/// the proportional count rounded down plus 64.
pub open spec fn spec_output_samples(samples: nat, src_rate: nat, dst_rate: nat) -> nat {
    if src_rate == dst_rate {
        samples
    } else {
        samples * dst_rate / src_rate + 64
    }
}

/// Number of output samples to reserve when resampling a frame.
pub fn estimate_output_samples(samples: usize, src_rate: u32, dst_rate: u32) -> (r: usize)
    requires
        src_rate != dst_rate ==> src_rate > 0,
        src_rate != dst_rate ==> samples * dst_rate <= u64::MAX,
        spec_output_samples(samples as nat, src_rate as nat, dst_rate as nat) <= usize::MAX,
    ensures
        r == spec_output_samples(samples as nat, src_rate as nat, dst_rate as nat),
{
    if src_rate == dst_rate {
        samples
    } else {
        let n = (samples as u64) * (dst_rate as u64) / (src_rate as u64) + 64;
        n as usize
    }
}

/// The input format a resampler was built for.
#[derive(Clone, Copy, Debug, PartialEq, Eq, Structural)]
pub struct ResamplerInput {
    pub sample_rate: u32,
    pub channels: ChannelLayout,
    pub format: SampleFormat,
}

/// Checks an audio frame before conversion: it must hold samples and data.
pub fn check_audio_transform_input(frame: &AudioFrame) -> (r: Result<(), Error>)
    ensures
        r is Ok <==> (frame.samples != 0 && frame.data@.len() != 0),
        r matches Err(e) ==> e is InvalidData,
{
    if frame.samples == 0 {
        return Err(Error::InvalidData);
    }
    if frame.data.len() == 0 {
        return Err(Error::InvalidData);
    }
    Ok(())
}

/// Whether the resampler must be (re)built for `frame`: there is none yet, or
/// the frame's rate, layout or format differs from the one it was built for.
pub fn resampler_needs_init(current: Option<ResamplerInput>, frame: &AudioFrame) -> (r: bool)
    ensures
        r == match current {
            None => true,
            Some(c) => c.sample_rate != frame.sample_rate || c.channels != frame.channels
                || c.format != frame.format,
        },
{
    match current {
        None => true,
        Some(c) => c.sample_rate != frame.sample_rate || c.channels != frame.channels || c.format
            != frame.format,
    }
}

/// Room reserved for resampling: the same count when the rates agree,
/// otherwise the proportional count rounded down, plus a margin of 64.
pub proof fn lemma_output_samples_law(samples: nat, src_rate: nat, dst_rate: nat)
    requires
        src_rate > 0,
    ensures
        src_rate == dst_rate ==> spec_output_samples(samples, src_rate, dst_rate) == samples,
        src_rate != dst_rate ==> {
            let k = spec_output_samples(samples, src_rate, dst_rate) - 64;
            &&& k >= 0
            &&& k * src_rate <= samples * dst_rate < (k + 1) * src_rate
        },
{
    if src_rate != dst_rate {
        let n = samples * dst_rate;
        vstd::arithmetic::div_mod::lemma_fundamental_div_mod(n as int, src_rate as int);
        vstd::arithmetic::div_mod::lemma_mod_pos_bound(n as int, src_rate as int);
        let k = n / src_rate;
        assert(k * src_rate == src_rate * k) by (nonlinear_arith);
        assert((k + 1) * src_rate == k * src_rate + src_rate) by (nonlinear_arith);
    }
}

} // verus!
