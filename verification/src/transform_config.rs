//! Targets of video and audio conversion, and what a resampler's flush at
//! the end of a stream yields.
use vstd::prelude::*;

use crate::error::Error;
use crate::format::{ChannelLayout, PixelFormat, SampleFormat};

verus! {

/// Scaling algorithm for video resizing.
#[derive(Clone, Copy, Debug, PartialEq, Eq, Hash, Structural)]
pub enum ScalingAlgorithm {
    /// Nearest neighbor - fastest, lowest quality.
    Nearest,
    /// Bilinear interpolation - fast, acceptable quality.
    Bilinear,
    /// Bicubic interpolation - moderate speed, good quality.
    Bicubic,
    /// Lanczos resampling - slowest, highest quality.
    Lanczos,
}

impl Default for ScalingAlgorithm {
    fn default() -> (r: ScalingAlgorithm)
        ensures
            r == ScalingAlgorithm::Bilinear,
    {
        ScalingAlgorithm::Bilinear
    }
}

/// Configuration for video transformation.
#[derive(Clone, Copy, Debug, PartialEq, Eq, Structural)]
pub struct VideoTransformConfig {
    /// Target width in pixels.
    pub width: u32,
    /// Target height in pixels.
    pub height: u32,
    /// Target pixel format.
    pub format: PixelFormat,
    /// Scaling algorithm to use.
    pub algorithm: ScalingAlgorithm,
}

impl VideoTransformConfig {
    /// Create a new video transform configuration with bilinear scaling.
    pub fn new(width: u32, height: u32, format: PixelFormat) -> (r: Self)
        ensures
            r == (VideoTransformConfig {
                width,
                height,
                format,
                algorithm: ScalingAlgorithm::Bilinear,
            }),
    {
        VideoTransformConfig { width, height, format, algorithm: ScalingAlgorithm::default() }
    }

    /// Create configuration for BGRA output (common for display).
    pub fn to_bgra(width: u32, height: u32) -> (r: Self)
        ensures
            r == (VideoTransformConfig {
                width,
                height,
                format: PixelFormat::Bgra,
                algorithm: ScalingAlgorithm::Bilinear,
            }),
    {
        VideoTransformConfig::new(width, height, PixelFormat::Bgra)
    }

    /// Create configuration for RGBA output.
    pub fn to_rgba(width: u32, height: u32) -> (r: Self)
        ensures
            r == (VideoTransformConfig {
                width,
                height,
                format: PixelFormat::Rgba,
                algorithm: ScalingAlgorithm::Bilinear,
            }),
    {
        VideoTransformConfig::new(width, height, PixelFormat::Rgba)
    }

    /// Set the scaling algorithm.
    pub fn with_algorithm(self, algorithm: ScalingAlgorithm) -> (r: Self)
        ensures
            r == (VideoTransformConfig { algorithm, ..self }),
    {
        VideoTransformConfig { algorithm, ..self }
    }
}

/// Configuration for audio transformation.
#[derive(Clone, Copy, Debug, PartialEq, Eq, Structural)]
pub struct AudioTransformConfig {
    /// Target sample rate in Hz.
    pub sample_rate: u32,
    /// Target channel layout.
    pub channels: ChannelLayout,
    /// Target sample format.
    pub format: SampleFormat,
}

impl AudioTransformConfig {
    /// Create a new audio transform configuration.
    pub fn new(sample_rate: u32, channels: ChannelLayout, format: SampleFormat) -> (r: Self)
        ensures
            r == (AudioTransformConfig { sample_rate, channels, format }),
    {
        AudioTransformConfig { sample_rate, channels, format }
    }

    /// Configuration for standard playback output: 48 kHz stereo F32.
    pub fn playback() -> (r: Self)
        ensures
            r == (AudioTransformConfig {
                sample_rate: 48000,
                channels: ChannelLayout::Stereo,
                format: SampleFormat::F32,
            }),
    {
        AudioTransformConfig::new(48000, ChannelLayout::Stereo, SampleFormat::F32)
    }

    /// Configuration for CD-quality output: 44.1 kHz stereo S16.
    pub fn cd_quality() -> (r: Self)
        ensures
            r == (AudioTransformConfig {
                sample_rate: 44100,
                channels: ChannelLayout::Stereo,
                format: SampleFormat::S16,
            }),
    {
        AudioTransformConfig::new(44100, ChannelLayout::Stereo, SampleFormat::S16)
    }
}

/// What a resampler's flush yields: nothing when it held no samples or gave
/// none back (a failure that produced nothing counts as nothing), a codec
/// error when it failed after producing samples, and otherwise the number
/// of samples to copy into a final frame.
pub fn after_resampler_flush(buffered: usize, failed: bool, produced: usize) -> (r: Result<
    Option<usize>,
    Error,
>)
    ensures
        buffered == 0 ==> r == Ok::<Option<usize>, Error>(None),
        buffered != 0 && produced == 0 ==> r == Ok::<Option<usize>, Error>(None),
        buffered != 0 && produced != 0 && failed ==> r == Err::<Option<usize>, Error>(Error::Codec),
        buffered != 0 && produced != 0 && !failed ==> r == Ok::<Option<usize>, Error>(
            Some(produced),
        ),
{
    if buffered == 0 {
        return Ok(None);
    }
    if produced == 0 {
        return Ok(None);
    }
    if failed {
        return Err(Error::Codec);
    }
    Ok(Some(produced))
}

} // verus!
