//! Encoder configuration and the settings an encoder is opened with.
use vstd::prelude::*;

use crate::error::Error;
use crate::format::{ChannelLayout, PixelFormat, SampleFormat};
use crate::stream::{CodecId, Pts, Rational};

verus! {

/// Encoder speed preset.
///
/// Slower presets produce better compression but take longer to encode.
#[derive(Clone, Copy, Debug, PartialEq, Eq, Structural)]
pub enum EncoderPreset {
    /// Fastest encoding, largest files.
    Ultrafast,
    /// Very fast encoding.
    Superfast,
    /// Fast encoding.
    Veryfast,
    /// Faster than default.
    Faster,
    /// Fast encoding, good for real-time.
    Fast,
    /// Default balance of speed and compression.
    Medium,
    /// Better compression, slower.
    Slow,
    /// Even better compression.
    Slower,
    /// Best compression, slowest.
    Veryslow,
}

impl EncoderPreset {
    /// The name the codec library knows the preset by.
    pub open spec fn spec_name(self) -> Seq<char> {
        match self {
            EncoderPreset::Ultrafast => "ultrafast"@,
            EncoderPreset::Superfast => "superfast"@,
            EncoderPreset::Veryfast => "veryfast"@,
            EncoderPreset::Faster => "faster"@,
            EncoderPreset::Fast => "fast"@,
            EncoderPreset::Medium => "medium"@,
            EncoderPreset::Slow => "slow"@,
            EncoderPreset::Slower => "slower"@,
            EncoderPreset::Veryslow => "veryslow"@,
        }
    }

    /// Get the preset string the codec library expects.
    pub fn as_str(&self) -> (r: &'static str)
        ensures
            r@ == self.spec_name(),
    {
        match self {
            EncoderPreset::Ultrafast => "ultrafast",
            EncoderPreset::Superfast => "superfast",
            EncoderPreset::Veryfast => "veryfast",
            EncoderPreset::Faster => "faster",
            EncoderPreset::Fast => "fast",
            EncoderPreset::Medium => "medium",
            EncoderPreset::Slow => "slow",
            EncoderPreset::Slower => "slower",
            EncoderPreset::Veryslow => "veryslow",
        }
    }
}

impl Default for EncoderPreset {
    fn default() -> (r: EncoderPreset)
        ensures
            r == EncoderPreset::Medium,
    {
        EncoderPreset::Medium
    }
}

/// Rate control mode for video encoding.
#[derive(Clone, Copy, Debug, PartialEq, Eq, Structural)]
pub enum RateControl {
    /// Constant Rate Factor: target constant quality; lower is better, 0-51.
    Crf(u8),
    /// Constant bitrate in bits per second.
    Cbr(u64),
    /// Variable bitrate: target average bitrate in bits per second.
    Vbr(u64),
}

impl Default for RateControl {
    fn default() -> (r: RateControl)
        ensures
            r == RateControl::Crf(23),
    {
        RateControl::Crf(23)
    }
}

/// Hardware encoder device.
#[derive(Clone, Copy, Debug, PartialEq, Eq, Structural)]
pub enum HwEncoder {
    /// VideoToolbox (macOS).
    VideoToolbox,
    /// NVIDIA NVENC.
    Nvenc,
    /// Intel Quick Sync Video.
    Qsv,
    /// VA-API (Linux).
    Vaapi,
}

/// Configuration for video encoding.
#[derive(Clone, Copy, Debug, PartialEq, Eq, Structural)]
pub struct VideoEncoderConfig {
    /// Codec to use.
    pub codec: CodecId,
    /// Frame width in pixels.
    pub width: u32,
    /// Frame height in pixels.
    pub height: u32,
    /// Frame rate.
    pub frame_rate: Rational,
    /// Expected input pixel format.
    pub pixel_format: PixelFormat,
    /// Rate control mode.
    pub rate_control: RateControl,
    /// Encoder speed preset.
    pub preset: EncoderPreset,
    /// Keyframe interval in frames (None = encoder default).
    pub keyframe_interval: Option<u32>,
    /// Prefer hardware encoding if available.
    pub prefer_hw: bool,
    /// Specific hardware encoder to use.
    pub hw_encoder: Option<HwEncoder>,
}

impl VideoEncoderConfig {
    /// Create a new video encoder configuration: 4:2:0 input, CRF 23, the
    /// medium preset, the encoder's keyframe interval, software encoding.
    pub fn new(codec: CodecId, width: u32, height: u32, frame_rate: Rational) -> (r: Self)
        ensures
            r == (VideoEncoderConfig {
                codec,
                width,
                height,
                frame_rate,
                pixel_format: PixelFormat::Yuv420p,
                rate_control: RateControl::Crf(23),
                preset: EncoderPreset::Medium,
                keyframe_interval: None,
                prefer_hw: false,
                hw_encoder: None,
            }),
    {
        VideoEncoderConfig {
            codec,
            width,
            height,
            frame_rate,
            pixel_format: PixelFormat::Yuv420p,
            rate_control: RateControl::default(),
            preset: EncoderPreset::default(),
            keyframe_interval: None,
            prefer_hw: false,
            hw_encoder: None,
        }
    }

    /// Create configuration for H.264 encoding.
    pub fn h264(width: u32, height: u32, frame_rate: Rational) -> (r: Self)
        ensures
            r == Self::spec_new(CodecId::H264, width, height, frame_rate),
    {
        Self::new(CodecId::H264, width, height, frame_rate)
    }

    /// Create configuration for H.265/HEVC encoding.
    pub fn h265(width: u32, height: u32, frame_rate: Rational) -> (r: Self)
        ensures
            r == Self::spec_new(CodecId::H265, width, height, frame_rate),
    {
        Self::new(CodecId::H265, width, height, frame_rate)
    }

    /// The configuration `new` builds.
    pub open spec fn spec_new(codec: CodecId, width: u32, height: u32, frame_rate: Rational) -> Self {
        VideoEncoderConfig {
            codec,
            width,
            height,
            frame_rate,
            pixel_format: PixelFormat::Yuv420p,
            rate_control: RateControl::Crf(23),
            preset: EncoderPreset::Medium,
            keyframe_interval: None,
            prefer_hw: false,
            hw_encoder: None,
        }
    }

    /// Set the rate control mode.
    pub fn with_rate_control(self, rate_control: RateControl) -> (r: Self)
        ensures
            r == (VideoEncoderConfig { rate_control, ..self }),
    {
        VideoEncoderConfig { rate_control, ..self }
    }

    /// Set constant bitrate in bits per second.
    pub fn with_bitrate(self, bitrate: u64) -> (r: Self)
        ensures
            r == (VideoEncoderConfig { rate_control: RateControl::Cbr(bitrate), ..self }),
    {
        VideoEncoderConfig { rate_control: RateControl::Cbr(bitrate), ..self }
    }

    /// Set CRF quality; values above 51 are lowered to 51.
    pub fn with_crf(self, crf: u8) -> (r: Self)
        ensures
            r == (VideoEncoderConfig {
                rate_control: RateControl::Crf(if crf > 51 { 51 } else { crf }),
                ..self
            }),
    {
        let q: u8 = if crf > 51 {
            51
        } else {
            crf
        };
        VideoEncoderConfig { rate_control: RateControl::Crf(q), ..self }
    }

    /// Set the encoder preset.
    pub fn with_preset(self, preset: EncoderPreset) -> (r: Self)
        ensures
            r == (VideoEncoderConfig { preset, ..self }),
    {
        VideoEncoderConfig { preset, ..self }
    }

    /// Set the keyframe interval in frames.
    pub fn with_keyframe_interval(self, frames: u32) -> (r: Self)
        ensures
            r == (VideoEncoderConfig { keyframe_interval: Some(frames), ..self }),
    {
        VideoEncoderConfig { keyframe_interval: Some(frames), ..self }
    }

    /// Set the input pixel format.
    pub fn with_pixel_format(self, format: PixelFormat) -> (r: Self)
        ensures
            r == (VideoEncoderConfig { pixel_format: format, ..self }),
    {
        VideoEncoderConfig { pixel_format: format, ..self }
    }

    /// Enable hardware encoding with auto-detection.
    pub fn with_hw_accel(self) -> (r: Self)
        ensures
            r == (VideoEncoderConfig { prefer_hw: true, ..self }),
    {
        VideoEncoderConfig { prefer_hw: true, ..self }
    }

    /// Enable a specific hardware encoder.
    pub fn with_hw_encoder(self, encoder: HwEncoder) -> (r: Self)
        ensures
            r == (VideoEncoderConfig { prefer_hw: true, hw_encoder: Some(encoder), ..self }),
    {
        VideoEncoderConfig { prefer_hw: true, hw_encoder: Some(encoder), ..self }
    }
}

/// Configuration for audio encoding.
#[derive(Clone, Copy, Debug, PartialEq, Eq, Structural)]
pub struct AudioEncoderConfig {
    /// Codec to use.
    pub codec: CodecId,
    /// Sample rate in Hz.
    pub sample_rate: u32,
    /// Channel layout.
    pub channels: ChannelLayout,
    /// Expected input sample format.
    pub sample_format: SampleFormat,
    /// Target bitrate in bits per second (None = codec default).
    pub bitrate: Option<u64>,
}

impl AudioEncoderConfig {
    /// The configuration `new` builds.
    pub open spec fn spec_new(codec: CodecId, sample_rate: u32, channels: ChannelLayout) -> Self {
        AudioEncoderConfig {
            codec,
            sample_rate,
            channels,
            sample_format: SampleFormat::F32,
            bitrate: None,
        }
    }

    /// Create a new audio encoder configuration: F32 input, codec bitrate.
    pub fn new(codec: CodecId, sample_rate: u32, channels: ChannelLayout) -> (r: Self)
        ensures
            r == Self::spec_new(codec, sample_rate, channels),
    {
        AudioEncoderConfig {
            codec,
            sample_rate,
            channels,
            sample_format: SampleFormat::F32,
            bitrate: None,
        }
    }

    /// Create configuration for AAC encoding.
    pub fn aac(sample_rate: u32, channels: ChannelLayout) -> (r: Self)
        ensures
            r == Self::spec_new(CodecId::Aac, sample_rate, channels),
    {
        Self::new(CodecId::Aac, sample_rate, channels)
    }

    /// Create configuration for Opus encoding.
    pub fn opus(sample_rate: u32, channels: ChannelLayout) -> (r: Self)
        ensures
            r == Self::spec_new(CodecId::Opus, sample_rate, channels),
    {
        Self::new(CodecId::Opus, sample_rate, channels)
    }

    /// Set the target bitrate in bits per second.
    pub fn with_bitrate(self, bitrate: u64) -> (r: Self)
        ensures
            r == (AudioEncoderConfig { bitrate: Some(bitrate), ..self }),
    {
        AudioEncoderConfig { bitrate: Some(bitrate), ..self }
    }

    /// Set the input sample format.
    pub fn with_sample_format(self, format: SampleFormat) -> (r: Self)
        ensures
            r == (AudioEncoderConfig { sample_format: format, ..self }),
    {
        AudioEncoderConfig { sample_format: format, ..self }
    }
}

/// The rate-control settings an encoder is opened with.
#[derive(Clone, Copy, Debug, PartialEq, Eq, Structural)]
pub struct RateSettings {
    /// Quality option, for constant-quality encoding.
    pub crf: Option<u8>,
    /// Target bitrate.
    pub bit_rate: Option<u64>,
    /// Maximum bitrate.
    pub max_bit_rate: Option<u64>,
    /// Whether the encoder is asked for constant-bitrate mode.
    pub constant_bitrate: bool,
}

/// Settings for a rate-control mode: CRF sets the quality option; CBR sets
/// target and maximum bitrate and asks for constant-bitrate mode; VBR sets
/// the target bitrate only.
pub fn rate_control_settings(rate_control: RateControl) -> (r: RateSettings)
    ensures
        r == match rate_control {
            RateControl::Crf(q) => RateSettings {
                crf: Some(q),
                bit_rate: None,
                max_bit_rate: None,
                constant_bitrate: false,
            },
            RateControl::Cbr(b) => RateSettings {
                crf: None,
                bit_rate: Some(b),
                max_bit_rate: Some(b),
                constant_bitrate: true,
            },
            RateControl::Vbr(b) => RateSettings {
                crf: None,
                bit_rate: Some(b),
                max_bit_rate: None,
                constant_bitrate: false,
            },
        },
{
    match rate_control {
        RateControl::Crf(q) => RateSettings {
            crf: Some(q),
            bit_rate: None,
            max_bit_rate: None,
            constant_bitrate: false,
        },
        RateControl::Cbr(b) => RateSettings {
            crf: None,
            bit_rate: Some(b),
            max_bit_rate: Some(b),
            constant_bitrate: true,
        },
        RateControl::Vbr(b) => RateSettings {
            crf: None,
            bit_rate: Some(b),
            max_bit_rate: None,
            constant_bitrate: false,
        },
    }
}

/// Time base of an audio encoder: one tick per sample.
pub fn audio_encoder_time_base(sample_rate: u32) -> (r: Rational)
    requires
        sample_rate <= i32::MAX,
    ensures
        r.num == 1,
        r.den == sample_rate,
{
    Rational { num: 1, den: sample_rate as i32 }
}

/// A frame can be encoded only at the size the encoder was opened with.
pub fn check_frame_dimensions(frame_width: u32, frame_height: u32, width: u32, height: u32) -> (r:
    Result<(), Error>)
    ensures
        r is Ok <==> (frame_width == width && frame_height == height),
        r matches Err(e) ==> e is InvalidData,
{
    if frame_width != width || frame_height != height {
        Err(Error::InvalidData)
    } else {
        Ok(())
    }
}

/// The timestamp given to the next encoded frame, and the frame counter after
/// it: a frame keeps its own timestamp; one without gets the counter.
pub fn next_frame_pts(frame_pts: Option<Pts>, frame_count: i64) -> (r: (i64, i64))
    requires
        frame_count < i64::MAX,
    ensures
        r.0 == match frame_pts {
            Some(p) => p.0,
            None => frame_count,
        },
        r.1 == frame_count + 1,
{
    let pts = match frame_pts {
        Some(p) => p.0,
        None => frame_count,
    };
    (pts, frame_count + 1)
}

/// The fixed number of samples per frame an audio codec asks for, where it
/// asks for one (a reported size of zero means any size).
pub fn audio_frame_size(reported: usize) -> (r: Option<usize>)
    ensures
        reported == 0 ==> r is None,
        reported != 0 ==> r == Some(reported),
{
    if reported == 0 {
        None
    } else {
        Some(reported)
    }
}

} // verus!
