use std::time::Duration;

use vidplayer::{
    AudioFrame, AudioStreamInfo, ChannelLayout, CodecId, DecodedVideoFrame, MediaDuration,
    MediaInfo, Packet, PixelFormat, Pts, Rational, SampleFormat, StreamType, VideoStreamInfo,
};

#[test]
fn audio_stream_info_channel_count() {
    let info = AudioStreamInfo {
        sample_rate: 48000,
        channels: ChannelLayout::Stereo,
        sample_format: SampleFormat::F32,
        time_base: Rational::new(1, 48000),
        duration: None,
        codec_id: CodecId::Aac,
        extradata: None,
        bitrate: None,
        profile: None,
    };

    assert_eq!(info.channel_count(), 2);
}

#[test]
fn media_info_has_video_audio() {
    let mut info = MediaInfo::default();
    assert!(!info.has_video());
    assert!(!info.has_audio());

    info.video = Some(VideoStreamInfo {
        width: 1920,
        height: 1080,
        pixel_format: PixelFormat::Yuv420p,
        frame_rate: None,
        time_base: Rational::new(1, 1000),
        duration: None,
        codec_id: CodecId::H264,
        extradata: None,
        bitrate: None,
        profile: None,
        level: None,
    });

    assert!(info.has_video());
    assert!(!info.has_audio());
}

#[test]
fn media_info_with_audio_only() {
    let mut info = MediaInfo::default();
    info.audio = Some(AudioStreamInfo {
        sample_rate: 44100,
        channels: ChannelLayout::Surround5_1,
        sample_format: SampleFormat::S16,
        time_base: Rational::new(1, 44100),
        duration: Some(Duration::from_secs(3)),
        codec_id: CodecId::Ac3,
        extradata: None,
        bitrate: Some(384_000),
        profile: None,
    });
    assert!(!info.has_video());
    assert!(info.has_audio());
    let audio = info.audio.as_ref().unwrap();
    assert_eq!(audio.channel_count(), 6);
    assert_eq!(audio.bytes_per_sample(), 2);
}

#[test]
fn rational_inverse_swaps_terms() {
    let r = Rational::new(24000, 1001).inverse();
    assert_eq!(r, Rational::new(1001, 24000));
    assert_eq!(r.inverse(), Rational::new(24000, 1001));
}

#[test]
fn packet_and_frame_constructors_keep_fields() {
    let p = Packet::new(
        vec![1, 2, 3],
        Some(Pts(10)),
        Some(Pts(9)),
        MediaDuration(2),
        Rational::new(1, 90000),
        true,
        StreamType::Video,
    );
    assert_eq!(p.data, vec![1, 2, 3]);
    assert_eq!(p.pts, Some(Pts(10)));
    assert_eq!(p.dts, Some(Pts(9)));
    assert_eq!(p.duration, MediaDuration(2));
    assert!(p.is_keyframe);
    assert_eq!(p.stream_type, StreamType::Video);

    let f = DecodedVideoFrame::new(vec![0; 6], 2, 2, PixelFormat::Yuv420p, None, Rational::new(1, 25));
    assert_eq!(f.width, 2);
    assert_eq!(f.height, 2);
    assert_eq!(f.format, PixelFormat::Yuv420p);
    assert_eq!(f.data.len(), 6);

    let a = AudioFrame::new(
        vec![0; 8],
        2,
        48000,
        ChannelLayout::Stereo,
        SampleFormat::S16,
        Some(Pts(5)),
        Rational::new(1, 48000),
    );
    assert_eq!(a.samples, 2);
    assert_eq!(a.sample_rate, 48000);
    assert_eq!(a.pts, Some(Pts(5)));
}
