//! Routing encoded packets into the streams of an output container and
//! rescaling their timestamps between time bases.
use vstd::prelude::*;

use crate::codec_names::{spec_lib_pixel_name, spec_pixel_format_name};
use crate::codec_names::{
    LibCodecId, LibPixelFormat, LibSampleFormat, codec_id_to_ffmpeg_audio,
    codec_id_to_ffmpeg_video, sample_format_to_ffmpeg, spec_codec_to_lib, spec_sample_to_lib,
};
use crate::error::Error;
use crate::format::PixelFormat;
use crate::stream::{AudioStreamInfo, CodecId, Packet, Rational, StreamType, VideoStreamInfo};

verus! {

/// Integer division rounding toward zero, as Rust's `/` on integers does.
pub open spec fn spec_div_toward_zero(a: int, b: int) -> int {
    if b == 0 {
        0
    } else if (a >= 0) == (b > 0) {
        if a >= 0 {
            a / b
        } else {
            (-a) / (-b)
        }
    } else if a >= 0 {
        -(a / (-b))
    } else {
        -((-a) / b)
    }
}

/// `ts` in units of `from` expressed in units of `to`, rounded toward zero
/// and wrapped into 64 bits; unchanged when the time bases are the same.
pub open spec fn spec_rescale_ts(ts: i64, from: Rational, to: Rational) -> i64 {
    if from.num == to.num && from.den == to.den {
        ts
    } else {
        spec_div_toward_zero(ts * from.num * to.den, from.den * to.num) as i64
    }
}

fn unsigned_magnitude(x: i128) -> (r: u128)
    requires
        x > i128::MIN,
    ensures
        r == if x >= 0 {
            x as int
        } else {
            -x
        },
{
    if x >= 0 {
        x as u128
    } else {
        (-x) as u128
    }
}

/// Rescale a timestamp from one time base to another.
pub fn rescale_ts(ts: i64, from: Rational, to: Rational) -> (r: i64)
    requires
        (from.num != to.num || from.den != to.den) ==> from.den * to.num != 0,
    ensures
        r == spec_rescale_ts(ts, from, to),
{
    if from.num == to.num && from.den == to.den {
        return ts;
    }
    assert(-0x8000_0000_0000_0000 <= ts <= 0x7fff_ffff_ffff_ffff);
    assert(-0x8000_0000 * 0x8000_0000 <= from.num * to.den <= 0x8000_0000 * 0x8000_0000)
        by (nonlinear_arith)
        requires
            -0x8000_0000 <= from.num <= 0x7fff_ffff,
            -0x8000_0000 <= to.den <= 0x7fff_ffff,
    ;
    let p: i128 = (from.num as i128) * (to.den as i128);
    assert(-0x4000_0000_0000_0000_0000_0000_0000_0000 < (ts as int) * p
        < 0x4000_0000_0000_0000_0000_0000_0000_0000) by (nonlinear_arith)
        requires
            -0x8000_0000_0000_0000 <= ts <= 0x7fff_ffff_ffff_ffff,
            -0x4000_0000_0000_0000 <= p <= 0x4000_0000_0000_0000,
    ;
    let num: i128 = (ts as i128) * p;
    assert(-0x8000_0000 * 0x8000_0000 <= from.den * to.num <= 0x8000_0000 * 0x8000_0000)
        by (nonlinear_arith)
        requires
            -0x8000_0000 <= from.den <= 0x7fff_ffff,
            -0x8000_0000 <= to.num <= 0x7fff_ffff,
    ;
    let den: i128 = (from.den as i128) * (to.num as i128);
    assert(ts * from.num * to.den == num) by (nonlinear_arith)
        requires
            p == from.num * to.den,
            num == ts * p,
    ;
    let n = unsigned_magnitude(num);
    let d = unsigned_magnitude(den);
    let q: u128 = n / d;
    let signed_q: i128 = if (num >= 0) == (den > 0) {
        q as i128
    } else {
        -(q as i128)
    };
    #[verifier::truncate]
    (signed_q as i64)
}

/// Where a packet is written: the index of its stream in the container and
/// that stream's time base.
pub open spec fn spec_sink_route(
    header_written: bool,
    stream_type: StreamType,
    video_index: Option<usize>,
    audio_index: Option<usize>,
    video_time_base: Option<Rational>,
    audio_time_base: Option<Rational>,
) -> Result<(usize, Rational), Error> {
    if !header_written {
        Err(Error::InvalidData)
    } else {
        match stream_type {
            StreamType::Video => match video_index {
                Some(i) => Ok((i, video_time_base.unwrap())),
                None => Err(Error::InvalidData),
            },
            StreamType::Audio => match audio_index {
                Some(i) => Ok((i, audio_time_base.unwrap())),
                None => Err(Error::InvalidData),
            },
        }
    }
}

/// Picks the output stream for a packet of `stream_type`; refuses before the
/// header is written and for a kind of stream the container does not have.
pub fn sink_route(
    header_written: bool,
    stream_type: StreamType,
    video_index: Option<usize>,
    audio_index: Option<usize>,
    video_time_base: Option<Rational>,
    audio_time_base: Option<Rational>,
) -> (r: Result<(usize, Rational), Error>)
    requires
        video_index is Some ==> video_time_base is Some,
        audio_index is Some ==> audio_time_base is Some,
    ensures
        r == spec_sink_route(
            header_written,
            stream_type,
            video_index,
            audio_index,
            video_time_base,
            audio_time_base,
        ),
{
    if !header_written {
        return Err(Error::InvalidData);
    }
    match stream_type {
        StreamType::Video => match (video_index, video_time_base) {
            (Some(i), Some(tb)) => Ok((i, tb)),
            _ => Err(Error::InvalidData),
        },
        StreamType::Audio => match (audio_index, audio_time_base) {
            (Some(i), Some(tb)) => Ok((i, tb)),
            _ => Err(Error::InvalidData),
        },
    }
}

/// A packet's presentation and decoding timestamps and duration, rescaled
/// from its own time base to `to`.
pub open spec fn spec_packet_timing(packet: Packet, to: Rational) -> (Option<i64>, Option<i64>, i64) {
    (
        match packet.pts {
            Some(p) => Some(spec_rescale_ts(p.0, packet.time_base, to)),
            None => None,
        },
        match packet.dts {
            Some(d) => Some(spec_rescale_ts(d.0, packet.time_base, to)),
            None => None,
        },
        spec_rescale_ts(packet.duration.0, packet.time_base, to),
    )
}

/// Rescales a packet's timing into the time base of its output stream.
pub fn packet_timing(packet: &Packet, to: Rational) -> (r: (Option<i64>, Option<i64>, i64))
    requires
        (packet.time_base.num != to.num || packet.time_base.den != to.den)
            ==> packet.time_base.den * to.num != 0,
    ensures
        r == spec_packet_timing(*packet, to),
{
    let pts = match packet.pts {
        Some(p) => Some(rescale_ts(p.0, packet.time_base, to)),
        None => None,
    };
    let dts = match packet.dts {
        Some(d) => Some(rescale_ts(d.0, packet.time_base, to)),
        None => None,
    };
    (pts, dts, rescale_ts(packet.duration.0, packet.time_base, to))
}

/// The pixel format a muxed video stream is declared with: the four formats
/// the muxer names, and planar 4:2:0 for any other.
pub open spec fn spec_muxer_pixel(format: PixelFormat) -> LibPixelFormat {
    match format {
        PixelFormat::Nv12 => LibPixelFormat::Nv12,
        PixelFormat::Bgra => LibPixelFormat::Bgra,
        PixelFormat::Rgba => LibPixelFormat::Rgba,
        _ => LibPixelFormat::Yuv420p,
    }
}

/// The codec-specific setup bytes an output stream is given: the stream's
/// own when it has some, none otherwise.
pub open spec fn spec_mux_extradata(extradata: Option<Vec<u8>>) -> Option<Seq<u8>> {
    match extradata {
        Some(e) => if e@.len() > 0 {
            Some(e@)
        } else {
            None
        },
        None => None,
    }
}

/// The optional bytes as a sequence.
pub open spec fn spec_opt_bytes(b: Option<Vec<u8>>) -> Option<Seq<u8>> {
    match b {
        Some(v) => Some(v@),
        None => None,
    }
}

/// The parameters a muxed video stream is declared with.
#[derive(Clone, Debug)]
pub struct VideoMuxParams {
    pub codec: LibCodecId,
    pub width: u32,
    pub height: u32,
    pub format: LibPixelFormat,
    pub extradata: Option<Vec<u8>>,
    pub bitrate: Option<u64>,
    pub profile: Option<i32>,
    pub level: Option<i32>,
}

/// The parameters a muxed audio stream is declared with.
#[derive(Clone, Debug)]
pub struct AudioMuxParams {
    pub codec: LibCodecId,
    pub sample_rate: u32,
    pub channels: u16,
    pub format: LibSampleFormat,
    pub extradata: Option<Vec<u8>>,
    pub bitrate: Option<u64>,
    pub profile: Option<i32>,
}

fn copy_extradata(extradata: &Option<Vec<u8>>) -> (r: Option<Vec<u8>>)
    ensures
        spec_opt_bytes(r) == spec_mux_extradata(*extradata),
{
    match extradata {
        Some(e) => if e.len() > 0 {
            let c = e.clone();
            proof {
                assert(c@ =~= e@);
            }
            Some(c)
        } else {
            None
        },
        None => None,
    }
}

/// The declaration of a video stream in an output container; only the
/// codecs the muxer takes are accepted.
pub fn video_mux_params(info: &VideoStreamInfo) -> (r: Result<VideoMuxParams, Error>)
    ensures
        !(info.codec_id == CodecId::H264 || info.codec_id == CodecId::H265 || info.codec_id
            == CodecId::Vp9 || info.codec_id == CodecId::Av1) ==> (r matches Err(e)
            && e == Error::UnsupportedFormat),
        (info.codec_id == CodecId::H264 || info.codec_id == CodecId::H265 || info.codec_id
            == CodecId::Vp9 || info.codec_id == CodecId::Av1) ==> (r matches Ok(p) && {
            &&& p.codec == spec_codec_to_lib(info.codec_id)
            &&& p.width == info.width
            &&& p.height == info.height
            &&& p.format == spec_muxer_pixel(info.pixel_format)
            &&& spec_opt_bytes(p.extradata) == spec_mux_extradata(info.extradata)
            &&& p.bitrate == info.bitrate
            &&& p.profile == info.profile
            &&& p.level == info.level
        }),
{
    let codec = match codec_id_to_ffmpeg_video(info.codec_id) {
        Ok(c) => c,
        Err(e) => return Err(e),
    };
    let format = match info.pixel_format {
        PixelFormat::Nv12 => LibPixelFormat::Nv12,
        PixelFormat::Bgra => LibPixelFormat::Bgra,
        PixelFormat::Rgba => LibPixelFormat::Rgba,
        _ => LibPixelFormat::Yuv420p,
    };
    Ok(VideoMuxParams {
        codec,
        width: info.width,
        height: info.height,
        format,
        extradata: copy_extradata(&info.extradata),
        bitrate: info.bitrate,
        profile: info.profile,
        level: info.level,
    })
}

/// The declaration of an audio stream in an output container; only the
/// codecs the muxer takes are accepted. Samples are declared interleaved.
pub fn audio_mux_params(info: &AudioStreamInfo) -> (r: Result<AudioMuxParams, Error>)
    ensures
        !(info.codec_id == CodecId::Aac || info.codec_id == CodecId::Opus || info.codec_id
            == CodecId::Mp3) ==> (r matches Err(e) && e == Error::UnsupportedFormat),
        (info.codec_id == CodecId::Aac || info.codec_id == CodecId::Opus || info.codec_id
            == CodecId::Mp3) ==> (r matches Ok(p) && {
            &&& p.codec == spec_codec_to_lib(info.codec_id)
            &&& p.sample_rate == info.sample_rate
            &&& p.channels == info.channels.spec_channels()
            &&& p.format == spec_sample_to_lib(info.sample_format)
            &&& spec_opt_bytes(p.extradata) == spec_mux_extradata(info.extradata)
            &&& p.bitrate == info.bitrate
            &&& p.profile == info.profile
        }),
{
    let codec = match codec_id_to_ffmpeg_audio(info.codec_id) {
        Ok(c) => c,
        Err(e) => return Err(e),
    };
    Ok(AudioMuxParams {
        codec,
        sample_rate: info.sample_rate,
        channels: info.channels.channels(),
        format: sample_format_to_ffmpeg(info.sample_format),
        extradata: copy_extradata(&info.extradata),
        bitrate: info.bitrate,
        profile: info.profile,
    })
}

/// Rescaling within one time base changes nothing.
pub proof fn lemma_rescale_same_base(ts: i64, base: Rational)
    ensures
        spec_rescale_ts(ts, base, base) == ts,
{
}

/// Dividing an exact multiple rounds nothing away.
proof fn lemma_div_exact(x: int, d: int)
    requires
        d > 0,
    ensures
        spec_div_toward_zero(x * d, d) == x,
{
    if x >= 0 {
        assert(x * d >= 0) by (nonlinear_arith)
            requires
                x >= 0,
                d > 0,
        ;
        vstd::arithmetic::div_mod::lemma_div_by_multiple(x, d);
    } else {
        assert(x * d < 0) by (nonlinear_arith)
            requires
                x < 0,
                d > 0,
        ;
        assert(-(x * d) == (-x) * d) by (nonlinear_arith);
        vstd::arithmetic::div_mod::lemma_div_by_multiple(-x, d);
    }
}

/// Rescaling a timestamp into a time base `factor` times finer and back
/// gives the timestamp again, when the finer count fits in 64 bits: no
/// precision is lost on the way.
pub proof fn lemma_rescale_round_trip(ts: i64, coarse: Rational, factor: i32)
    requires
        coarse.num > 0,
        coarse.den > 0,
        factor > 1,
        coarse.den * factor <= i32::MAX,
        i64::MIN <= ts * factor <= i64::MAX,
    ensures
        ({
            let fine = Rational { num: coarse.num, den: (coarse.den * factor) as i32 };
            &&& spec_rescale_ts(ts, coarse, fine) == ts * factor
            &&& spec_rescale_ts(spec_rescale_ts(ts, coarse, fine), fine, coarse) == ts
        }),
{
    let n = coarse.num as int;
    let d = coarse.den as int;
    let k = factor as int;
    let fine = Rational { num: coarse.num, den: (coarse.den * factor) as i32 };
    assert(fine.den == d * k);
    assert(d * k != d) by (nonlinear_arith)
        requires
            d > 0,
            k > 1,
    ;
    assert(d * n > 0) by (nonlinear_arith)
        requires
            d > 0,
            n > 0,
    ;
    assert(ts * n * (d * k) == (ts * k) * (d * n)) by (nonlinear_arith);
    lemma_div_exact(ts * k, d * n);
    let up = (ts * factor) as i64;
    assert(spec_rescale_ts(ts, coarse, fine) == up);
    assert(up * n * d == ts * ((d * k) * n)) by (nonlinear_arith)
        requires
            up == ts * k,
    ;
    assert((d * k) * n > 0) by (nonlinear_arith)
        requires
            d > 0,
            n > 0,
            k > 1,
    ;
    lemma_div_exact(ts as int, (d * k) * n);
}

/// Once the header is written, a packet goes to the stream of its own kind,
/// with that stream's time base; a kind the container lacks is refused, and
/// nothing is written before the header.
pub proof fn lemma_sink_route_by_kind(
    header_written: bool,
    stream_type: StreamType,
    video_index: Option<usize>,
    audio_index: Option<usize>,
    video_time_base: Option<Rational>,
    audio_time_base: Option<Rational>,
)
    ensures
        ({
            let r = spec_sink_route(
                header_written,
                stream_type,
                video_index,
                audio_index,
                video_time_base,
                audio_time_base,
            );
            &&& !header_written ==> r is Err
            &&& header_written && stream_type == StreamType::Audio && audio_index is Some ==> r
                == Ok::<(usize, Rational), Error>((audio_index.unwrap(), audio_time_base.unwrap()))
            &&& header_written && stream_type == StreamType::Video && video_index is Some ==> r
                == Ok::<(usize, Rational), Error>((video_index.unwrap(), video_time_base.unwrap()))
            &&& stream_type == StreamType::Audio && audio_index is None ==> r is Err
            &&& stream_type == StreamType::Video && video_index is None ==> r is Err
        }),
{
}

/// Where an audio packet goes does not depend on the video stream, nor
/// where a video packet goes on the audio stream.
pub proof fn lemma_sink_route_ignores_other_kind(
    header_written: bool,
    video_index: Option<usize>,
    audio_index: Option<usize>,
    video_time_base: Option<Rational>,
    audio_time_base: Option<Rational>,
    other_index: Option<usize>,
    other_time_base: Option<Rational>,
)
    ensures
        spec_sink_route(
            header_written,
            StreamType::Audio,
            video_index,
            audio_index,
            video_time_base,
            audio_time_base,
        ) == spec_sink_route(
            header_written,
            StreamType::Audio,
            other_index,
            audio_index,
            other_time_base,
            audio_time_base,
        ),
        spec_sink_route(
            header_written,
            StreamType::Video,
            video_index,
            audio_index,
            video_time_base,
            audio_time_base,
        ) == spec_sink_route(
            header_written,
            StreamType::Video,
            video_index,
            other_index,
            video_time_base,
            other_time_base,
        ),
{
}

/// A packet's rescaled timing keeps which timestamps are known: a packet
/// without a presentation or decoding time is written without one.
pub proof fn lemma_packet_timing_keeps_presence(packet: Packet, to: Rational)
    ensures
        spec_packet_timing(packet, to).0 is Some <==> packet.pts is Some,
        spec_packet_timing(packet, to).1 is Some <==> packet.dts is Some,
        packet.time_base == to ==> spec_packet_timing(packet, to) == (
            match packet.pts {
                Some(p) => Some(p.0),
                None => None::<i64>,
            },
            match packet.dts {
                Some(d) => Some(d.0),
                None => None::<i64>,
            },
            packet.duration.0,
        ),
{
}

/// A muxed video stream is declared with the pixel format of its own name
/// when the muxer names it (planar 4:2:0, NV12, BGRA, RGBA), and as planar
/// 4:2:0 otherwise.
pub proof fn lemma_muxer_pixel_law(format: PixelFormat)
    ensures
        spec_lib_pixel_name(spec_muxer_pixel(format)) == spec_pixel_format_name(format)
            || spec_muxer_pixel(format) == LibPixelFormat::Yuv420p,
        (format == PixelFormat::Yuv420p || format == PixelFormat::Nv12 || format == PixelFormat::Bgra
            || format == PixelFormat::Rgba) ==> spec_lib_pixel_name(spec_muxer_pixel(format))
            == spec_pixel_format_name(format),
        spec_muxer_pixel(format) == LibPixelFormat::Yuv420p || spec_muxer_pixel(format)
            == LibPixelFormat::Nv12 || spec_muxer_pixel(format) == LibPixelFormat::Bgra
            || spec_muxer_pixel(format) == LibPixelFormat::Rgba,
{
}

/// The setup bytes given to an output stream are the stream's own, and
/// none are given when it has none or they are empty.
pub proof fn lemma_mux_extradata_law(extradata: Option<Vec<u8>>)
    ensures
        spec_mux_extradata(extradata) is Some ==> extradata is Some && spec_mux_extradata(
            extradata,
        ) == Some(extradata.unwrap()@) && extradata.unwrap()@.len() > 0,
        extradata is Some && extradata.unwrap()@.len() > 0 ==> spec_mux_extradata(extradata)
            == Some(extradata.unwrap()@),
{
}

/// Division rounding toward zero: the quotient's magnitude is the largest
/// whole number of divisor magnitudes that fits in the dividend's, and its
/// sign is that of the exact quotient.
pub proof fn lemma_div_toward_zero_law(a: int, b: int)
    requires
        b != 0,
    ensures
        ({
            let q = spec_div_toward_zero(a, b);
            let qa = if q >= 0 { q } else { -q };
            let aa = if a >= 0 { a } else { -a };
            let ba = if b >= 0 { b } else { -b };
            &&& qa * ba <= aa < qa * ba + ba
            &&& q > 0 ==> (a > 0) == (b > 0)
            &&& q < 0 ==> (a > 0) != (b > 0)
        }),
{
    let aa = if a >= 0 { a } else { -a };
    let ba = if b >= 0 { b } else { -b };
    let m = aa / ba;
    vstd::arithmetic::div_mod::lemma_fundamental_div_mod(aa, ba);
    assert(0 <= aa % ba < ba) by {
        vstd::arithmetic::div_mod::lemma_mod_pos_bound(aa, ba);
    }
    assert(m >= 0) by {
        vstd::arithmetic::div_mod::lemma_div_pos_is_pos(aa, ba);
    }
    assert(m * ba == ba * m) by (nonlinear_arith);
    if (a >= 0) == (b > 0) {
        if a >= 0 {
            assert(spec_div_toward_zero(a, b) == m);
        } else {
            assert(spec_div_toward_zero(a, b) == m);
        }
    } else if a >= 0 {
        assert(spec_div_toward_zero(a, b) == -m);
    } else {
        assert(spec_div_toward_zero(a, b) == -m);
    }
}

} // verus!
