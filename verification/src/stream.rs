//! Timestamps, packets, decoded frames and stream descriptions.
use std::time::Duration;

use vstd::prelude::*;

use crate::format::{ChannelLayout, PixelFormat, SampleFormat};

verus! {

/// A rational number `num / den`, used for time bases and frame rates.
#[derive(Clone, Copy, Debug, PartialEq, Eq, Structural)]
pub struct Rational {
    pub num: i32,
    pub den: i32,
}

impl Rational {
    /// Creates the rational `num / den`.
    pub fn new(num: i32, den: i32) -> (r: Rational)
        ensures
            r.num == num,
            r.den == den,
    {
        Rational { num, den }
    }

    /// Returns `den / num`: the time base of a stream whose frame rate is
    /// `self`, and the frame rate of a stream whose time base is `self`.
    pub fn inverse(self) -> (r: Rational)
        ensures
            r.num == self.den,
            r.den == self.num,
    {
        Rational { num: self.den, den: self.num }
    }
}

/// Codecs the pipeline knows by name.
#[derive(Clone, Copy, Debug, PartialEq, Eq, Hash, Structural)]
pub enum CodecId {
    H264,
    H265,
    Vp8,
    Vp9,
    Av1,
    Mpeg4,
    Mpeg2Video,
    Aac,
    Opus,
    Mp3,
    Vorbis,
    Flac,
    PcmS16Le,
    PcmS16Be,
    PcmF32Le,
    Ac3,
}

/// Which kind of stream a packet belongs to.
#[derive(Clone, Copy, Debug, PartialEq, Eq, Hash, Structural)]
pub enum StreamType {
    Video,
    Audio,
}

/// A presentation or decoding timestamp in units of a stream's time base.
#[derive(Clone, Copy, Debug, PartialEq, Eq, Structural)]
pub struct Pts(pub i64);

/// A duration in units of a stream's time base.
#[derive(Clone, Copy, Debug, PartialEq, Eq, Structural)]
pub struct MediaDuration(pub i64);

/// An encoded packet of one stream.
#[derive(Clone, Debug)]
pub struct Packet {
    pub data: Vec<u8>,
    pub pts: Option<Pts>,
    pub dts: Option<Pts>,
    pub duration: MediaDuration,
    pub time_base: Rational,
    pub is_keyframe: bool,
    pub stream_type: StreamType,
}

impl Packet {
    /// Creates a packet from its parts.
    pub fn new(
        data: Vec<u8>,
        pts: Option<Pts>,
        dts: Option<Pts>,
        duration: MediaDuration,
        time_base: Rational,
        is_keyframe: bool,
        stream_type: StreamType,
    ) -> (r: Packet)
        ensures
            r.data@ == data@,
            r.pts == pts,
            r.dts == dts,
            r.duration == duration,
            r.time_base == time_base,
            r.is_keyframe == is_keyframe,
            r.stream_type == stream_type,
    {
        Packet { data, pts, dts, duration, time_base, is_keyframe, stream_type }
    }
}

/// A decoded video frame with its planes stored back to back.
#[derive(Clone, Debug)]
pub struct DecodedVideoFrame {
    pub data: Vec<u8>,
    pub width: u32,
    pub height: u32,
    pub format: PixelFormat,
    pub pts: Option<Pts>,
    pub time_base: Rational,
}

impl DecodedVideoFrame {
    /// Creates a decoded video frame from its parts.
    pub fn new(
        data: Vec<u8>,
        width: u32,
        height: u32,
        format: PixelFormat,
        pts: Option<Pts>,
        time_base: Rational,
    ) -> (r: DecodedVideoFrame)
        ensures
            r.data@ == data@,
            r.width == width,
            r.height == height,
            r.format == format,
            r.pts == pts,
            r.time_base == time_base,
    {
        DecodedVideoFrame { data, width, height, format, pts, time_base }
    }
}

/// A decoded audio frame with interleaved samples.
#[derive(Clone, Debug)]
pub struct AudioFrame {
    pub data: Vec<u8>,
    pub samples: usize,
    pub sample_rate: u32,
    pub channels: ChannelLayout,
    pub format: SampleFormat,
    pub pts: Option<Pts>,
    pub time_base: Rational,
}

impl AudioFrame {
    /// Creates a decoded audio frame from its parts.
    pub fn new(
        data: Vec<u8>,
        samples: usize,
        sample_rate: u32,
        channels: ChannelLayout,
        format: SampleFormat,
        pts: Option<Pts>,
        time_base: Rational,
    ) -> (r: AudioFrame)
        ensures
            r.data@ == data@,
            r.samples == samples,
            r.sample_rate == sample_rate,
            r.channels == channels,
            r.format == format,
            r.pts == pts,
            r.time_base == time_base,
    {
        AudioFrame { data, samples, sample_rate, channels, format, pts, time_base }
    }
}

/// Information about a video stream.
#[derive(Clone, Debug)]
pub struct VideoStreamInfo {
    /// Frame width in pixels.
    pub width: u32,
    /// Frame height in pixels.
    pub height: u32,
    /// Pixel format.
    pub pixel_format: PixelFormat,
    /// Frame rate (may be approximate or unavailable).
    pub frame_rate: Option<Rational>,
    /// Time base for timestamps.
    pub time_base: Rational,
    /// Total duration (may be unavailable for some streams).
    pub duration: Option<Duration>,
    /// Codec used.
    pub codec_id: CodecId,
    /// Codec extradata.
    pub extradata: Option<Vec<u8>>,
    /// Bitrate in bits per second (if known).
    pub bitrate: Option<u64>,
    /// Codec profile.
    pub profile: Option<i32>,
    /// Codec level.
    pub level: Option<i32>,
}

/// Information about an audio stream.
#[derive(Clone, Debug)]
pub struct AudioStreamInfo {
    /// Sample rate in Hz.
    pub sample_rate: u32,
    /// Channel layout.
    pub channels: ChannelLayout,
    /// Sample format.
    pub sample_format: SampleFormat,
    /// Time base for timestamps.
    pub time_base: Rational,
    /// Total duration (may be unavailable for some streams).
    pub duration: Option<Duration>,
    /// Codec used.
    pub codec_id: CodecId,
    /// Codec extradata.
    pub extradata: Option<Vec<u8>>,
    /// Bitrate in bits per second (if known).
    pub bitrate: Option<u64>,
    /// Codec profile.
    pub profile: Option<i32>,
}

impl AudioStreamInfo {
    /// Returns the number of channels.
    pub fn channel_count(&self) -> (r: u16)
        ensures
            r == self.channels.spec_channels(),
    {
        self.channels.channels()
    }

    /// Returns the number of bytes per sample per channel.
    pub fn bytes_per_sample(&self) -> (r: usize)
        ensures
            r == self.sample_format.spec_bytes_per_sample(),
    {
        self.sample_format.bytes_per_sample()
    }
}

/// Combined information about a media source.
#[derive(Clone, Debug)]
pub struct MediaInfo {
    /// Total duration of the media (may be unavailable).
    pub duration: Option<Duration>,
    /// Video stream information (if video is present).
    pub video: Option<VideoStreamInfo>,
    /// Audio stream information (if audio is present).
    pub audio: Option<AudioStreamInfo>,
}

impl Default for MediaInfo {
    fn default() -> (r: MediaInfo)
        ensures
            r.duration is None,
            r.video is None,
            r.audio is None,
    {
        MediaInfo { duration: None, video: None, audio: None }
    }
}

impl MediaInfo {
    /// Returns true if this media has video.
    pub fn has_video(&self) -> (r: bool)
        ensures
            r == self.video is Some,
    {
        self.video.is_some()
    }

    /// Returns true if this media has audio.
    pub fn has_audio(&self) -> (r: bool)
        ensures
            r == self.audio is Some,
    {
        self.audio.is_some()
    }
}

} // verus!
