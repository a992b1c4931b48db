//! The codec library's names for pixel formats, sample formats and codecs,
//! as far as the pipeline meets them, and how they map to the pipeline's own.
//!
//! Each stage accepts its own set: the demuxer knows no 10-bit semi-planar
//! format, the decoder does, the encoder cannot take it as input, and the
//! encoder's report of its own format falls back to 4:2:0 where it has no
//! name for what the library chose.
use vstd::prelude::*;

use crate::error::Error;
use crate::format::{ChannelLayout, PixelFormat, SampleFormat};
use crate::stream::CodecId;

verus! {

/// Pixel formats by the codec library's names; `Other` stands for every
/// format the pipeline has no name for.
#[derive(Clone, Copy, Debug, PartialEq, Eq, Hash, Structural)]
pub enum LibPixelFormat {
    Yuv420p,
    Nv12,
    Bgra,
    Rgba,
    Rgb24,
    Bgr24,
    Yuv422p,
    Yuv444p,
    Yuv420p10le,
    Yuv420p10be,
    P010le,
    P010be,
    Other,
}

/// How the channels of an audio buffer are laid out by the codec library.
#[derive(Clone, Copy, Debug, PartialEq, Eq, Hash, Structural)]
pub enum LibSampleLayout {
    /// All channels interleaved in one plane.
    Packed,
    /// One plane per channel.
    Planar,
}

/// Sample formats by the codec library's names; `Other` stands for every
/// format the pipeline has no name for.
#[derive(Clone, Copy, Debug, PartialEq, Eq, Hash, Structural)]
pub enum LibSampleFormat {
    U8(LibSampleLayout),
    I16(LibSampleLayout),
    I32(LibSampleLayout),
    F32(LibSampleLayout),
    F64(LibSampleLayout),
    Other,
}

/// Codec identifiers by the codec library's names; `Other` stands for every
/// codec the pipeline has no name for.
#[derive(Clone, Copy, Debug, PartialEq, Eq, Hash, Structural)]
pub enum LibCodecId {
    H264,
    Hevc,
    Vp8,
    Vp9,
    Av1,
    Mpeg4,
    Mpeg2Video,
    Aac,
    Opus,
    Mp3,
    Vorbis,
    Flac,
    PcmS16le,
    PcmS16be,
    PcmF32le,
    Ac3,
    Other,
}

/// The library format a pipeline format is converted to (10-bit formats in
/// their little-endian form).
pub open spec fn spec_pixel_to_lib(format: PixelFormat) -> LibPixelFormat {
    match format {
        PixelFormat::Yuv420p => LibPixelFormat::Yuv420p,
        PixelFormat::Nv12 => LibPixelFormat::Nv12,
        PixelFormat::Bgra => LibPixelFormat::Bgra,
        PixelFormat::Rgba => LibPixelFormat::Rgba,
        PixelFormat::Rgb24 => LibPixelFormat::Rgb24,
        PixelFormat::Bgr24 => LibPixelFormat::Bgr24,
        PixelFormat::Yuv422p => LibPixelFormat::Yuv422p,
        PixelFormat::Yuv444p => LibPixelFormat::Yuv444p,
        PixelFormat::Yuv420p10 => LibPixelFormat::Yuv420p10le,
        PixelFormat::P010le => LibPixelFormat::P010le,
    }
}

/// The pipeline format a decoded frame's library format stands for: both
/// byte orders of a 10-bit format map to it.
pub open spec fn spec_pixel_from_lib(format: LibPixelFormat) -> Option<PixelFormat> {
    match format {
        LibPixelFormat::Yuv420p => Some(PixelFormat::Yuv420p),
        LibPixelFormat::Nv12 => Some(PixelFormat::Nv12),
        LibPixelFormat::Bgra => Some(PixelFormat::Bgra),
        LibPixelFormat::Rgba => Some(PixelFormat::Rgba),
        LibPixelFormat::Rgb24 => Some(PixelFormat::Rgb24),
        LibPixelFormat::Bgr24 => Some(PixelFormat::Bgr24),
        LibPixelFormat::Yuv422p => Some(PixelFormat::Yuv422p),
        LibPixelFormat::Yuv444p => Some(PixelFormat::Yuv444p),
        LibPixelFormat::Yuv420p10le | LibPixelFormat::Yuv420p10be => Some(PixelFormat::Yuv420p10),
        LibPixelFormat::P010le | LibPixelFormat::P010be => Some(PixelFormat::P010le),
        LibPixelFormat::Other => None,
    }
}

/// The format a probed stream or an encoder reports: the decoded-frame
/// mapping without the 10-bit semi-planar format.
pub open spec fn spec_probed_pixel(format: LibPixelFormat) -> Option<PixelFormat> {
    match format {
        LibPixelFormat::P010le | LibPixelFormat::P010be => None,
        _ => spec_pixel_from_lib(format),
    }
}

/// The pixel format a probed stream reports: as for decoded frames, except
/// that the 10-bit semi-planar format is not recognised.
pub fn pixel_format_from_ffmpeg(format: LibPixelFormat) -> (r: Option<PixelFormat>)
    ensures
        r == spec_probed_pixel(format),
{
    match format {
        LibPixelFormat::Yuv420p => Some(PixelFormat::Yuv420p),
        LibPixelFormat::Nv12 => Some(PixelFormat::Nv12),
        LibPixelFormat::Bgra => Some(PixelFormat::Bgra),
        LibPixelFormat::Rgba => Some(PixelFormat::Rgba),
        LibPixelFormat::Rgb24 => Some(PixelFormat::Rgb24),
        LibPixelFormat::Bgr24 => Some(PixelFormat::Bgr24),
        LibPixelFormat::Yuv422p => Some(PixelFormat::Yuv422p),
        LibPixelFormat::Yuv444p => Some(PixelFormat::Yuv444p),
        LibPixelFormat::Yuv420p10le | LibPixelFormat::Yuv420p10be => Some(PixelFormat::Yuv420p10),
        _ => None,
    }
}

/// The pixel format of a frame out of the video decoder.
pub fn decoded_pixel_format(format: LibPixelFormat) -> (r: Option<PixelFormat>)
    ensures
        r == spec_pixel_from_lib(format),
{
    match format {
        LibPixelFormat::P010le | LibPixelFormat::P010be => Some(PixelFormat::P010le),
        _ => pixel_format_from_ffmpeg(format),
    }
}

/// The library format a converter produces for a target pixel format.
pub fn pixel_format_to_ffmpeg(format: PixelFormat) -> (r: LibPixelFormat)
    ensures
        r == spec_pixel_to_lib(format),
{
    match format {
        PixelFormat::Yuv420p => LibPixelFormat::Yuv420p,
        PixelFormat::Nv12 => LibPixelFormat::Nv12,
        PixelFormat::Bgra => LibPixelFormat::Bgra,
        PixelFormat::Rgba => LibPixelFormat::Rgba,
        PixelFormat::Rgb24 => LibPixelFormat::Rgb24,
        PixelFormat::Bgr24 => LibPixelFormat::Bgr24,
        PixelFormat::Yuv422p => LibPixelFormat::Yuv422p,
        PixelFormat::Yuv444p => LibPixelFormat::Yuv444p,
        PixelFormat::Yuv420p10 => LibPixelFormat::Yuv420p10le,
        PixelFormat::P010le => LibPixelFormat::P010le,
    }
}

/// The library format an encoder is opened with for its input pixel format;
/// the 10-bit semi-planar format is refused.
pub fn encoder_pixel_format(format: PixelFormat) -> (r: Result<LibPixelFormat, Error>)
    ensures
        format == PixelFormat::P010le ==> r == Err::<LibPixelFormat, Error>(
            Error::UnsupportedFormat,
        ),
        format != PixelFormat::P010le ==> r == Ok::<LibPixelFormat, Error>(
            spec_pixel_to_lib(format),
        ),
{
    match format {
        PixelFormat::P010le => Err(Error::UnsupportedFormat),
        _ => Ok(pixel_format_to_ffmpeg(format)),
    }
}

/// The pixel format an opened encoder reports, falling back to planar 4:2:0
/// for a library format the pipeline has no name for.
pub fn ffmpeg_pixel_format_to_ours(format: LibPixelFormat) -> (r: PixelFormat)
    ensures
        r == match spec_probed_pixel(format) {
            Some(f) => f,
            None => PixelFormat::Yuv420p,
        },
{
    match pixel_format_from_ffmpeg(format) {
        Some(f) => f,
        None => PixelFormat::Yuv420p,
    }
}

/// The pipeline sample format of a library sample format, packed or planar.
pub open spec fn spec_sample_from_lib(format: LibSampleFormat) -> Option<SampleFormat> {
    match format {
        LibSampleFormat::U8(_) => Some(SampleFormat::U8),
        LibSampleFormat::I16(_) => Some(SampleFormat::S16),
        LibSampleFormat::I32(_) => Some(SampleFormat::S32),
        LibSampleFormat::F32(_) => Some(SampleFormat::F32),
        LibSampleFormat::F64(_) => Some(SampleFormat::F64),
        LibSampleFormat::Other => None,
    }
}

/// The sample format of a probed stream or a decoded frame, whether its
/// channels are packed or planar.
pub fn sample_format_from_ffmpeg(format: LibSampleFormat) -> (r: Option<SampleFormat>)
    ensures
        r == spec_sample_from_lib(format),
{
    match format {
        LibSampleFormat::U8(_) => Some(SampleFormat::U8),
        LibSampleFormat::I16(_) => Some(SampleFormat::S16),
        LibSampleFormat::I32(_) => Some(SampleFormat::S32),
        LibSampleFormat::F32(_) => Some(SampleFormat::F32),
        LibSampleFormat::F64(_) => Some(SampleFormat::F64),
        LibSampleFormat::Other => None,
    }
}

/// The packed library format of a pipeline sample format.
pub open spec fn spec_sample_to_lib(format: SampleFormat) -> LibSampleFormat {
    match format {
        SampleFormat::U8 => LibSampleFormat::U8(LibSampleLayout::Packed),
        SampleFormat::S16 => LibSampleFormat::I16(LibSampleLayout::Packed),
        SampleFormat::S32 => LibSampleFormat::I32(LibSampleLayout::Packed),
        SampleFormat::F32 => LibSampleFormat::F32(LibSampleLayout::Packed),
        SampleFormat::F64 => LibSampleFormat::F64(LibSampleLayout::Packed),
    }
}

/// The packed library format for a pipeline sample format: converters and
/// encoders always work on interleaved samples.
pub fn sample_format_to_ffmpeg(format: SampleFormat) -> (r: LibSampleFormat)
    ensures
        r == spec_sample_to_lib(format),
{
    match format {
        SampleFormat::U8 => LibSampleFormat::U8(LibSampleLayout::Packed),
        SampleFormat::S16 => LibSampleFormat::I16(LibSampleLayout::Packed),
        SampleFormat::S32 => LibSampleFormat::I32(LibSampleLayout::Packed),
        SampleFormat::F32 => LibSampleFormat::F32(LibSampleLayout::Packed),
        SampleFormat::F64 => LibSampleFormat::F64(LibSampleLayout::Packed),
    }
}

/// The sample format an opened audio encoder reports, falling back to F32
/// for a library format the pipeline has no name for.
pub fn ffmpeg_sample_format_to_ours(format: LibSampleFormat) -> (r: SampleFormat)
    ensures
        r == match spec_sample_from_lib(format) {
            Some(f) => f,
            None => SampleFormat::F32,
        },
{
    match sample_format_from_ffmpeg(format) {
        Some(f) => f,
        None => SampleFormat::F32,
    }
}

/// Channel layouts by the codec library's names; `Other` stands for every
/// layout the pipeline has no name for.
#[derive(Clone, Copy, Debug, PartialEq, Eq, Hash, Structural)]
pub enum LibChannelLayout {
    Mono,
    Stereo,
    Surround5_1,
    Surround7_1,
    Other,
}

/// The library layout a converter produces for a target layout.
pub fn channel_layout_to_ffmpeg(layout: ChannelLayout) -> (r: LibChannelLayout)
    ensures
        r == match layout {
            ChannelLayout::Mono => LibChannelLayout::Mono,
            ChannelLayout::Stereo => LibChannelLayout::Stereo,
            ChannelLayout::Surround5_1 => LibChannelLayout::Surround5_1,
            ChannelLayout::Surround7_1 => LibChannelLayout::Surround7_1,
        },
{
    match layout {
        ChannelLayout::Mono => LibChannelLayout::Mono,
        ChannelLayout::Stereo => LibChannelLayout::Stereo,
        ChannelLayout::Surround5_1 => LibChannelLayout::Surround5_1,
        ChannelLayout::Surround7_1 => LibChannelLayout::Surround7_1,
    }
}

/// The library layout an encoder is opened with: mono stays mono, every
/// other layout is encoded as stereo.
pub fn encoder_channel_layout(layout: ChannelLayout) -> (r: LibChannelLayout)
    ensures
        layout == ChannelLayout::Mono ==> r == LibChannelLayout::Mono,
        layout != ChannelLayout::Mono ==> r == LibChannelLayout::Stereo,
{
    match layout {
        ChannelLayout::Mono => LibChannelLayout::Mono,
        _ => LibChannelLayout::Stereo,
    }
}

/// The layout an opened encoder reports: mono, or stereo for anything else.
pub fn ffmpeg_channel_layout_to_ours(layout: LibChannelLayout) -> (r: ChannelLayout)
    ensures
        layout == LibChannelLayout::Mono ==> r == ChannelLayout::Mono,
        layout != LibChannelLayout::Mono ==> r == ChannelLayout::Stereo,
{
    match layout {
        LibChannelLayout::Mono => ChannelLayout::Mono,
        _ => ChannelLayout::Stereo,
    }
}

/// The layout of a source stream when it is exactly mono or stereo.
pub fn channel_layout_from_ffmpeg(layout: LibChannelLayout) -> (r: Option<ChannelLayout>)
    ensures
        layout == LibChannelLayout::Mono ==> r == Some(ChannelLayout::Mono),
        layout == LibChannelLayout::Stereo ==> r == Some(ChannelLayout::Stereo),
        layout != LibChannelLayout::Mono && layout != LibChannelLayout::Stereo ==> r is None,
{
    match layout {
        LibChannelLayout::Mono => Some(ChannelLayout::Mono),
        LibChannelLayout::Stereo => Some(ChannelLayout::Stereo),
        _ => None,
    }
}

/// The pipeline codec a library codec identifier stands for.
pub open spec fn spec_codec_from_lib(id: LibCodecId) -> Option<CodecId> {
    match id {
        LibCodecId::H264 => Some(CodecId::H264),
        LibCodecId::Hevc => Some(CodecId::H265),
        LibCodecId::Vp8 => Some(CodecId::Vp8),
        LibCodecId::Vp9 => Some(CodecId::Vp9),
        LibCodecId::Av1 => Some(CodecId::Av1),
        LibCodecId::Mpeg4 => Some(CodecId::Mpeg4),
        LibCodecId::Mpeg2Video => Some(CodecId::Mpeg2Video),
        LibCodecId::Aac => Some(CodecId::Aac),
        LibCodecId::Opus => Some(CodecId::Opus),
        LibCodecId::Mp3 => Some(CodecId::Mp3),
        LibCodecId::Vorbis => Some(CodecId::Vorbis),
        LibCodecId::Flac => Some(CodecId::Flac),
        LibCodecId::PcmS16le => Some(CodecId::PcmS16Le),
        LibCodecId::PcmS16be => Some(CodecId::PcmS16Be),
        LibCodecId::PcmF32le => Some(CodecId::PcmF32Le),
        LibCodecId::Ac3 => Some(CodecId::Ac3),
        LibCodecId::Other => None,
    }
}

/// The library identifier of a pipeline codec.
pub open spec fn spec_codec_to_lib(id: CodecId) -> LibCodecId {
    match id {
        CodecId::H264 => LibCodecId::H264,
        CodecId::H265 => LibCodecId::Hevc,
        CodecId::Vp8 => LibCodecId::Vp8,
        CodecId::Vp9 => LibCodecId::Vp9,
        CodecId::Av1 => LibCodecId::Av1,
        CodecId::Mpeg4 => LibCodecId::Mpeg4,
        CodecId::Mpeg2Video => LibCodecId::Mpeg2Video,
        CodecId::Aac => LibCodecId::Aac,
        CodecId::Opus => LibCodecId::Opus,
        CodecId::Mp3 => LibCodecId::Mp3,
        CodecId::Vorbis => LibCodecId::Vorbis,
        CodecId::Flac => LibCodecId::Flac,
        CodecId::PcmS16Le => LibCodecId::PcmS16le,
        CodecId::PcmS16Be => LibCodecId::PcmS16be,
        CodecId::PcmF32Le => LibCodecId::PcmF32le,
        CodecId::Ac3 => LibCodecId::Ac3,
    }
}

/// The codec of a probed stream, when the pipeline has a name for it.
pub fn codec_id_from_ffmpeg(id: LibCodecId) -> (r: Option<CodecId>)
    ensures
        r == spec_codec_from_lib(id),
{
    match id {
        LibCodecId::H264 => Some(CodecId::H264),
        LibCodecId::Hevc => Some(CodecId::H265),
        LibCodecId::Vp8 => Some(CodecId::Vp8),
        LibCodecId::Vp9 => Some(CodecId::Vp9),
        LibCodecId::Av1 => Some(CodecId::Av1),
        LibCodecId::Mpeg4 => Some(CodecId::Mpeg4),
        LibCodecId::Mpeg2Video => Some(CodecId::Mpeg2Video),
        LibCodecId::Aac => Some(CodecId::Aac),
        LibCodecId::Opus => Some(CodecId::Opus),
        LibCodecId::Mp3 => Some(CodecId::Mp3),
        LibCodecId::Vorbis => Some(CodecId::Vorbis),
        LibCodecId::Flac => Some(CodecId::Flac),
        LibCodecId::PcmS16le => Some(CodecId::PcmS16Le),
        LibCodecId::PcmS16be => Some(CodecId::PcmS16Be),
        LibCodecId::PcmF32le => Some(CodecId::PcmF32Le),
        LibCodecId::Ac3 => Some(CodecId::Ac3),
        LibCodecId::Other => None,
    }
}

/// The codec recorded for a probed video stream: H.264 when the pipeline has
/// no name for the stream's codec.
pub fn probed_video_codec(id: LibCodecId) -> (r: CodecId)
    ensures
        r == match spec_codec_from_lib(id) {
            Some(c) => c,
            None => CodecId::H264,
        },
{
    match codec_id_from_ffmpeg(id) {
        Some(c) => c,
        None => CodecId::H264,
    }
}

/// The codec recorded for a probed audio stream: AAC when the pipeline has
/// no name for the stream's codec.
pub fn probed_audio_codec(id: LibCodecId) -> (r: CodecId)
    ensures
        r == match spec_codec_from_lib(id) {
            Some(c) => c,
            None => CodecId::Aac,
        },
{
    match codec_id_from_ffmpeg(id) {
        Some(c) => c,
        None => CodecId::Aac,
    }
}

/// The library identifier of a video codec the encoder and the muxer take;
/// other codecs are refused.
pub fn codec_id_to_ffmpeg_video(codec: CodecId) -> (r: Result<LibCodecId, Error>)
    ensures
        (codec == CodecId::H264 || codec == CodecId::H265 || codec == CodecId::Vp9 || codec
            == CodecId::Av1) ==> r == Ok::<LibCodecId, Error>(spec_codec_to_lib(codec)),
        !(codec == CodecId::H264 || codec == CodecId::H265 || codec == CodecId::Vp9 || codec
            == CodecId::Av1) ==> r == Err::<LibCodecId, Error>(Error::UnsupportedFormat),
{
    match codec {
        CodecId::H264 => Ok(LibCodecId::H264),
        CodecId::H265 => Ok(LibCodecId::Hevc),
        CodecId::Vp9 => Ok(LibCodecId::Vp9),
        CodecId::Av1 => Ok(LibCodecId::Av1),
        _ => Err(Error::UnsupportedFormat),
    }
}

/// The library identifier of an audio codec the encoder and the muxer take;
/// other codecs are refused.
pub fn codec_id_to_ffmpeg_audio(codec: CodecId) -> (r: Result<LibCodecId, Error>)
    ensures
        (codec == CodecId::Aac || codec == CodecId::Opus || codec == CodecId::Mp3) ==> r == Ok::<
            LibCodecId,
            Error,
        >(spec_codec_to_lib(codec)),
        !(codec == CodecId::Aac || codec == CodecId::Opus || codec == CodecId::Mp3) ==> r == Err::<
            LibCodecId,
            Error,
        >(Error::UnsupportedFormat),
{
    match codec {
        CodecId::Aac => Ok(LibCodecId::Aac),
        CodecId::Opus => Ok(LibCodecId::Opus),
        CodecId::Mp3 => Ok(LibCodecId::Mp3),
        _ => Err(Error::UnsupportedFormat),
    }
}

/// Every pixel format survives the trip to the library's name and back
/// through the decoder's mapping.
pub proof fn lemma_pixel_round_trip(format: PixelFormat)
    ensures
        spec_pixel_from_lib(spec_pixel_to_lib(format)) == Some(format),
{
}

/// Every codec the pipeline names survives the trip to the library's
/// identifier and back.
pub proof fn lemma_codec_round_trip(id: CodecId)
    ensures
        spec_codec_from_lib(spec_codec_to_lib(id)) == Some(id),
{
}

/// Every sample format survives the trip to the library's packed name and
/// back.
pub proof fn lemma_sample_round_trip(format: SampleFormat)
    ensures
        spec_sample_from_lib(spec_sample_to_lib(format)) == Some(format),
{
}

/// The name FFmpeg gives (`av_get_pix_fmt_name`) to the layout a pipeline
/// pixel format stands for, without the byte order of 10-bit formats.
pub open spec fn spec_pixel_format_name(format: PixelFormat) -> Seq<char> {
    match format {
        PixelFormat::Yuv420p => "yuv420p"@,
        PixelFormat::Nv12 => "nv12"@,
        PixelFormat::Bgra => "bgra"@,
        PixelFormat::Rgba => "rgba"@,
        PixelFormat::Rgb24 => "rgb24"@,
        PixelFormat::Bgr24 => "bgr24"@,
        PixelFormat::Yuv422p => "yuv422p"@,
        PixelFormat::Yuv444p => "yuv444p"@,
        PixelFormat::Yuv420p10 => "yuv420p10"@,
        PixelFormat::P010le => "p010"@,
    }
}

/// The name FFmpeg gives to a library pixel format, without the byte order
/// of 10-bit formats; empty for formats the pipeline has no name for.
pub open spec fn spec_lib_pixel_name(format: LibPixelFormat) -> Seq<char> {
    match format {
        LibPixelFormat::Yuv420p => "yuv420p"@,
        LibPixelFormat::Nv12 => "nv12"@,
        LibPixelFormat::Bgra => "bgra"@,
        LibPixelFormat::Rgba => "rgba"@,
        LibPixelFormat::Rgb24 => "rgb24"@,
        LibPixelFormat::Bgr24 => "bgr24"@,
        LibPixelFormat::Yuv422p => "yuv422p"@,
        LibPixelFormat::Yuv444p => "yuv444p"@,
        LibPixelFormat::Yuv420p10le | LibPixelFormat::Yuv420p10be => "yuv420p10"@,
        LibPixelFormat::P010le | LibPixelFormat::P010be => "p010"@,
        LibPixelFormat::Other => Seq::empty(),
    }
}

/// The library format stores its samples big-endian.
pub open spec fn spec_lib_pixel_big_endian(format: LibPixelFormat) -> bool {
    format == LibPixelFormat::Yuv420p10be || format == LibPixelFormat::P010be
}

/// A pipeline pixel format is converted to the library format of the same
/// name, in little-endian byte order; a library format maps back to the
/// pipeline format of its name, and only formats without a pipeline name
/// map to nothing.
pub proof fn lemma_pixel_names_kept(format: PixelFormat, lib: LibPixelFormat)
    ensures
        spec_lib_pixel_name(spec_pixel_to_lib(format)) == spec_pixel_format_name(format),
        !spec_lib_pixel_big_endian(spec_pixel_to_lib(format)),
        spec_pixel_from_lib(lib) == Some(format) ==> spec_lib_pixel_name(lib)
            == spec_pixel_format_name(format),
        spec_pixel_from_lib(lib) is None <==> lib == LibPixelFormat::Other,
        spec_probed_pixel(lib) is Some ==> spec_probed_pixel(lib) == spec_pixel_from_lib(lib),
        spec_probed_pixel(lib) is None ==> spec_lib_pixel_name(lib) == "p010"@ || lib
            == LibPixelFormat::Other,
{
}

/// The name FFmpeg gives (`av_get_sample_fmt_name`) to a pipeline sample
/// format, without the planar suffix.
pub open spec fn spec_sample_format_name(format: SampleFormat) -> Seq<char> {
    match format {
        SampleFormat::U8 => "u8"@,
        SampleFormat::S16 => "s16"@,
        SampleFormat::S32 => "s32"@,
        SampleFormat::F32 => "flt"@,
        SampleFormat::F64 => "dbl"@,
    }
}

/// The name FFmpeg gives to a library sample format, without the planar
/// suffix; empty for formats the pipeline has no name for.
pub open spec fn spec_lib_sample_name(format: LibSampleFormat) -> Seq<char> {
    match format {
        LibSampleFormat::U8(_) => "u8"@,
        LibSampleFormat::I16(_) => "s16"@,
        LibSampleFormat::I32(_) => "s32"@,
        LibSampleFormat::F32(_) => "flt"@,
        LibSampleFormat::F64(_) => "dbl"@,
        LibSampleFormat::Other => Seq::empty(),
    }
}

/// A pipeline sample format is converted to the packed library format of
/// the same name; a library format, packed or planar, maps back to the
/// pipeline format of its name, and only unnamed formats map to nothing.
pub proof fn lemma_sample_names_kept(format: SampleFormat, lib: LibSampleFormat)
    ensures
        spec_lib_sample_name(spec_sample_to_lib(format)) == spec_sample_format_name(format),
        match spec_sample_to_lib(format) {
            LibSampleFormat::U8(l) | LibSampleFormat::I16(l) | LibSampleFormat::I32(l)
            | LibSampleFormat::F32(l) | LibSampleFormat::F64(l) => l == LibSampleLayout::Packed,
            LibSampleFormat::Other => false,
        },
        spec_sample_from_lib(lib) == Some(format) ==> spec_lib_sample_name(lib)
            == spec_sample_format_name(format),
        spec_sample_from_lib(lib) is None <==> lib == LibSampleFormat::Other,
{
}

/// The name FFmpeg gives (`avcodec_get_name`) to the codec a pipeline codec
/// identifier stands for.
pub open spec fn spec_codec_name(id: CodecId) -> Seq<char> {
    match id {
        CodecId::H264 => "h264"@,
        CodecId::H265 => "hevc"@,
        CodecId::Vp8 => "vp8"@,
        CodecId::Vp9 => "vp9"@,
        CodecId::Av1 => "av1"@,
        CodecId::Mpeg4 => "mpeg4"@,
        CodecId::Mpeg2Video => "mpeg2video"@,
        CodecId::Aac => "aac"@,
        CodecId::Opus => "opus"@,
        CodecId::Mp3 => "mp3"@,
        CodecId::Vorbis => "vorbis"@,
        CodecId::Flac => "flac"@,
        CodecId::PcmS16Le => "pcm_s16le"@,
        CodecId::PcmS16Be => "pcm_s16be"@,
        CodecId::PcmF32Le => "pcm_f32le"@,
        CodecId::Ac3 => "ac3"@,
    }
}

/// The name FFmpeg gives to a library codec identifier; empty for codecs
/// the pipeline has no name for.
pub open spec fn spec_lib_codec_name(id: LibCodecId) -> Seq<char> {
    match id {
        LibCodecId::H264 => "h264"@,
        LibCodecId::Hevc => "hevc"@,
        LibCodecId::Vp8 => "vp8"@,
        LibCodecId::Vp9 => "vp9"@,
        LibCodecId::Av1 => "av1"@,
        LibCodecId::Mpeg4 => "mpeg4"@,
        LibCodecId::Mpeg2Video => "mpeg2video"@,
        LibCodecId::Aac => "aac"@,
        LibCodecId::Opus => "opus"@,
        LibCodecId::Mp3 => "mp3"@,
        LibCodecId::Vorbis => "vorbis"@,
        LibCodecId::Flac => "flac"@,
        LibCodecId::PcmS16le => "pcm_s16le"@,
        LibCodecId::PcmS16be => "pcm_s16be"@,
        LibCodecId::PcmF32le => "pcm_f32le"@,
        LibCodecId::Ac3 => "ac3"@,
        LibCodecId::Other => Seq::empty(),
    }
}

/// A pipeline codec is converted to the library codec of the same name; a
/// library codec maps back to the pipeline codec of its name, and only
/// unnamed codecs map to nothing. The muxer and the encoder take the
/// library codec of the codec's own name.
pub proof fn lemma_codec_names_kept(id: CodecId, lib: LibCodecId)
    ensures
        spec_lib_codec_name(spec_codec_to_lib(id)) == spec_codec_name(id),
        spec_codec_from_lib(lib) == Some(id) ==> spec_lib_codec_name(lib) == spec_codec_name(id),
        spec_codec_from_lib(lib) is None <==> lib == LibCodecId::Other,
{
}

} // verus!
