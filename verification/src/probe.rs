//! How stream metadata reported by the demuxer becomes a stream description.
use vstd::prelude::*;

use crate::format::ChannelLayout;
use crate::stream::{MediaDuration, Pts, Rational};

verus! {

/// The frame rate of a stream: its average rate when known (non-zero
/// numerator), else its base rate when known, else none.
pub fn choose_frame_rate(average: Rational, base: Rational) -> (r: Option<Rational>)
    ensures
        average.num != 0 ==> r == Some(average),
        average.num == 0 && base.num != 0 ==> r == Some(base),
        average.num == 0 && base.num == 0 ==> r is None,
{
    if average.num != 0 {
        Some(average)
    } else if base.num != 0 {
        Some(base)
    } else {
        None
    }
}

/// A bitrate reported by the codec parameters: known only when positive.
pub fn reported_bitrate(bit_rate: i64) -> (r: Option<u64>)
    ensures
        bit_rate > 0 ==> r == Some(bit_rate as u64),
        bit_rate <= 0 ==> r is None,
{
    if bit_rate > 0 {
        Some(bit_rate as u64)
    } else {
        None
    }
}

/// A profile or level reported by the codec parameters: known unless it is
/// the library's `unknown` marker.
pub fn reported_code(value: i32, unknown: i32) -> (r: Option<i32>)
    ensures
        value == unknown ==> r is None,
        value != unknown ==> r == Some(value),
{
    if value == unknown {
        None
    } else {
        Some(value)
    }
}

/// Where the duration of a whole media file comes from.
#[derive(Clone, Copy, Debug, PartialEq, Eq, Structural)]
pub enum DurationSource {
    /// The container's duration, in microseconds.
    Container(u64),
    /// The video stream's duration.
    Video,
    /// The audio stream's duration.
    Audio,
    /// No duration is known.
    Unknown,
}

/// The container's duration when positive, else the video stream's when it
/// has one, else the audio stream's when it has one.
pub fn media_duration_source(container_micros: i64, video_has_duration: bool, audio_has_duration: bool) -> (r:
    DurationSource)
    ensures
        container_micros > 0 ==> r == DurationSource::Container(container_micros as u64),
        container_micros <= 0 && video_has_duration ==> r == DurationSource::Video,
        container_micros <= 0 && !video_has_duration && audio_has_duration ==> r
            == DurationSource::Audio,
        container_micros <= 0 && !video_has_duration && !audio_has_duration ==> r
            == DurationSource::Unknown,
{
    if container_micros > 0 {
        DurationSource::Container(container_micros as u64)
    } else if video_has_duration {
        DurationSource::Video
    } else if audio_has_duration {
        DurationSource::Audio
    } else {
        DurationSource::Unknown
    }
}

/// The layout the demuxer gives an audio stream of `channels` channels: mono
/// for one, stereo otherwise.
pub fn channel_layout_from_count(channels: u16) -> (r: ChannelLayout)
    ensures
        channels == 1 ==> r == ChannelLayout::Mono,
        channels != 1 ==> r == ChannelLayout::Stereo,
{
    if channels == 1 {
        ChannelLayout::Mono
    } else {
        ChannelLayout::Stereo
    }
}

/// A timestamp as the demuxer reports it, when it has one.
pub fn pts_from_raw(pts: Option<i64>) -> (r: Option<Pts>)
    ensures
        r == match pts {
            Some(p) => Some(Pts(p)),
            None => None::<Pts>,
        },
{
    match pts {
        Some(p) => Some(Pts(p)),
        None => None,
    }
}

/// A packet duration as the demuxer reports it.
pub fn duration_from_raw(duration: i64) -> (r: MediaDuration)
    ensures
        r == MediaDuration(duration),
{
    MediaDuration(duration)
}

} // verus!
